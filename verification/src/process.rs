//! Running processes: the record of one process, and the sentinel that
//! stands for a missing parent.

use crate::binary::Binary32;
use crate::counters::{counter_to_i64, signed_reading};
use crate::text::{copy_texts, join_with, joined, text_or, text_or_fallback, texts};
use vstd::prelude::*;
use vstd::string::*;

verus! {

/// The parent pid of a process that has no parent: all 32 bits set, which
/// is -1 read as a signed number and `u32::MAX` as the field holds it.
pub const NO_PARENT: u32 = 0xffff_ffff;

/// Disk traffic of a process as the system counts it.
#[derive(Clone, Copy, Debug, PartialEq, Eq)]
pub struct DiskTraffic {
    pub read_bytes: u64,
    pub written_bytes: u64,
    pub total_read_bytes: u64,
    pub total_written_bytes: u64,
}

/// What the system reports of one process.
#[derive(Clone, Debug)]
pub struct ProcessReading {
    pub name: String,
    /// The command line, word by word.
    pub cmd: Vec<String>,
    /// Path of the executable, where it can be written as text.
    pub exe: Option<String>,
    pub pid: u32,
    /// Pid of the parent, where there is one.
    pub parent: Option<u32>,
    pub environ: Vec<String>,
    /// Working directory, where it can be written as text.
    pub cwd: Option<String>,
    /// Root directory, where it can be written as text.
    pub root: Option<String>,
    pub memory: u64,
    pub virtual_memory: u64,
    pub run_time: u64,
    pub status: String,
    pub disk_usage: DiskTraffic,
    /// Processor usage in percent.
    pub cpu_usage: Binary32,
}

/// Disk traffic of a process, in the record's signed counters.
#[derive(Clone, Copy, Debug, PartialEq, Eq)]
pub struct DiskUsage {
    pub read_bytes: i64,
    pub written_bytes: i64,
    pub total_read_bytes: i64,
    pub total_written_bytes: i64,
}

/// The record of one process.
#[derive(Clone, Debug, PartialEq, Eq)]
pub struct ProcessInfo {
    pub name: String,
    pub cmd: String,
    pub path: String,
    pub pid: u32,
    pub ppid: u32,
    pub env_var: Vec<String>,
    pub cwd: String,
    pub root: String,
    pub memory: i64,
    pub virtual_memory: i64,
    pub running_time: i64,
    pub status: String,
    pub disk_usage: DiskUsage,
    pub cpu_usage: i64,
}

/// The disk traffic of a process as whole numbers.
pub struct DiskUsageView {
    pub read_bytes: int,
    pub written_bytes: int,
    pub total_read_bytes: int,
    pub total_written_bytes: int,
}

/// A process record as contracts speak of it: texts as sequences of
/// characters, counters as whole numbers.
pub struct ProcessInfoView {
    pub name: Seq<char>,
    pub cmd: Seq<char>,
    pub path: Seq<char>,
    pub pid: u32,
    pub ppid: u32,
    pub env_var: Seq<Seq<char>>,
    pub cwd: Seq<char>,
    pub root: Seq<char>,
    pub memory: int,
    pub virtual_memory: int,
    pub running_time: int,
    pub status: Seq<char>,
    pub disk_usage: DiskUsageView,
    pub cpu_usage: int,
}

impl View for DiskUsage {
    type V = DiskUsageView;

    open spec fn view(&self) -> DiskUsageView {
        DiskUsageView {
            read_bytes: self.read_bytes as int,
            written_bytes: self.written_bytes as int,
            total_read_bytes: self.total_read_bytes as int,
            total_written_bytes: self.total_written_bytes as int,
        }
    }
}

impl View for ProcessInfo {
    type V = ProcessInfoView;

    open spec fn view(&self) -> ProcessInfoView {
        ProcessInfoView {
            name: self.name@,
            cmd: self.cmd@,
            path: self.path@,
            pid: self.pid,
            ppid: self.ppid,
            env_var: texts(self.env_var@),
            cwd: self.cwd@,
            root: self.root@,
            memory: self.memory as int,
            virtual_memory: self.virtual_memory as int,
            running_time: self.running_time as int,
            status: self.status@,
            disk_usage: self.disk_usage@,
            cpu_usage: self.cpu_usage as int,
        }
    }
}

/// The parent pid a record holds: the parent's, or the sentinel.
pub open spec fn parent_or_sentinel(parent: Option<u32>) -> u32 {
    match parent {
        Some(pid) => pid,
        None => NO_PARENT,
    }
}

/// The traffic counters read as signed numbers.
pub open spec fn disk_usage_record(traffic: DiskTraffic) -> DiskUsageView {
    DiskUsageView {
        read_bytes: signed_reading(traffic.read_bytes),
        written_bytes: signed_reading(traffic.written_bytes),
        total_read_bytes: signed_reading(traffic.total_read_bytes),
        total_written_bytes: signed_reading(traffic.total_written_bytes),
    }
}

/// The record that a process's reading is shown as: the command line joined
/// by single spaces, paths that cannot be written as text left empty, a
/// missing parent shown as the sentinel, the counters read as signed
/// numbers, and the processor usage cut to a whole number.
pub open spec fn process_record(reading: ProcessReading) -> ProcessInfoView {
    ProcessInfoView {
        name: reading.name@,
        cmd: joined(reading.cmd@, " "@),
        path: text_or(reading.exe, ""@),
        pid: reading.pid,
        ppid: parent_or_sentinel(reading.parent),
        env_var: texts(reading.environ@),
        cwd: text_or(reading.cwd, ""@),
        root: text_or(reading.root, ""@),
        memory: signed_reading(reading.memory),
        virtual_memory: signed_reading(reading.virtual_memory),
        running_time: signed_reading(reading.run_time),
        status: reading.status@,
        disk_usage: disk_usage_record(reading.disk_usage),
        cpu_usage: reading.cpu_usage.to_whole(),
    }
}

/// Whether the records are those of the readings, one for one and in order.
pub open spec fn process_records_of(readings: Seq<ProcessReading>, infos: Seq<ProcessInfo>) -> bool {
    &&& infos.len() == readings.len()
    &&& forall|i: int|
        0 <= i < readings.len() ==> (#[trigger] infos[i])@ == process_record(readings[i])
}

/// The parent pid for a record.
pub fn parent_pid(parent: Option<u32>) -> (ppid: u32)
    ensures
        ppid == parent_or_sentinel(parent),
{
    match parent {
        Some(pid) => pid,
        None => NO_PARENT,
    }
}

/// Reads the traffic counters as signed numbers.
pub fn disk_usage(traffic: &DiskTraffic) -> (usage: DiskUsage)
    ensures
        usage@ == disk_usage_record(*traffic),
{
    DiskUsage {
        read_bytes: counter_to_i64(traffic.read_bytes),
        written_bytes: counter_to_i64(traffic.written_bytes),
        total_read_bytes: counter_to_i64(traffic.total_read_bytes),
        total_written_bytes: counter_to_i64(traffic.total_written_bytes),
    }
}

/// Builds the record of one process.
pub fn process_info(reading: &ProcessReading) -> (info: ProcessInfo)
    ensures
        info@ == process_record(*reading),
        reading.parent is None ==> info.ppid == NO_PARENT,
{
    ProcessInfo {
        name: reading.name.clone(),
        cmd: join_with(&reading.cmd, " "),
        path: text_or_fallback(&reading.exe, ""),
        pid: reading.pid,
        ppid: parent_pid(reading.parent),
        env_var: copy_texts(&reading.environ),
        cwd: text_or_fallback(&reading.cwd, ""),
        root: text_or_fallback(&reading.root, ""),
        memory: counter_to_i64(reading.memory),
        virtual_memory: counter_to_i64(reading.virtual_memory),
        running_time: counter_to_i64(reading.run_time),
        status: reading.status.clone(),
        disk_usage: disk_usage(&reading.disk_usage),
        cpu_usage: reading.cpu_usage.whole_part(),
    }
}

/// Builds the records of all processes.
pub fn processes_info(readings: &Vec<ProcessReading>) -> (infos: Vec<ProcessInfo>)
    ensures
        process_records_of(readings@, infos@),
{
    let mut infos: Vec<ProcessInfo> = Vec::new();
    let mut i: usize = 0;
    while i < readings.len()
        invariant
            i <= readings.len(),
            process_records_of(readings@.take(i as int), infos@),
        decreases readings.len() - i,
    {
        infos.push(process_info(&readings[i]));
        i += 1;
    }
    proof {
        assert(readings@.take(readings.len() as int) =~= readings@);
    }
    infos
}

} // verus!
