//! Processors: the record of the whole processor and of each of its
//! threads.

use crate::binary::Binary64;
use crate::counters::{count_or_zero, low_bits, low_bits_or_zero, low_u32};
use vstd::prelude::*;
use vstd::string::*;

verus! {

/// What the system reports of the whole processor or of one thread.
#[derive(Clone, Debug)]
pub struct ThreadReading {
    pub name: String,
    /// Usage in percent.
    pub cpu_usage: Binary64,
    /// Clock frequency in MHz.
    pub frequency: u64,
    pub vendor_id: String,
    pub brand: String,
}

/// What the system reports of its processor.
#[derive(Clone, Debug)]
pub struct CpuReading {
    /// The processor as a whole.
    pub global: ThreadReading,
    /// Number of physical cores, where it is known.
    pub physical_core_count: Option<usize>,
    /// Its threads, one per logical core.
    pub threads: Vec<ThreadReading>,
}

/// The record of one thread.
#[derive(Clone, Debug, PartialEq, Eq)]
pub struct ThreadInfo {
    pub name: String,
    pub cpu_usage: Binary64,
    pub frequency: u32,
    pub vendor_id: String,
    pub brand: String,
}

/// The record of the processor.
#[derive(Clone, Debug, PartialEq, Eq)]
pub struct CpuInfo {
    pub name: String,
    pub cpu_usage: Binary64,
    pub frequency: u32,
    pub vendor_id: String,
    pub brand: String,
    pub physical_core_count: u32,
    pub threads: Vec<ThreadInfo>,
}

/// A thread record as contracts speak of it: texts as sequences of
/// characters.
pub struct ThreadInfoView {
    pub name: Seq<char>,
    pub cpu_usage: Binary64,
    pub frequency: nat,
    pub vendor_id: Seq<char>,
    pub brand: Seq<char>,
}

/// A processor record as contracts speak of it: texts as sequences of
/// characters, threads as a sequence of thread records.
pub struct CpuInfoView {
    pub name: Seq<char>,
    pub cpu_usage: Binary64,
    pub frequency: nat,
    pub vendor_id: Seq<char>,
    pub brand: Seq<char>,
    pub physical_core_count: nat,
    pub threads: Seq<ThreadInfoView>,
}

impl View for ThreadInfo {
    type V = ThreadInfoView;

    open spec fn view(&self) -> ThreadInfoView {
        ThreadInfoView {
            name: self.name@,
            cpu_usage: self.cpu_usage,
            frequency: self.frequency as nat,
            vendor_id: self.vendor_id@,
            brand: self.brand@,
        }
    }
}

impl View for CpuInfo {
    type V = CpuInfoView;

    open spec fn view(&self) -> CpuInfoView {
        CpuInfoView {
            name: self.name@,
            cpu_usage: self.cpu_usage,
            frequency: self.frequency as nat,
            vendor_id: self.vendor_id@,
            brand: self.brand@,
            physical_core_count: self.physical_core_count as nat,
            threads: self.threads@.map_values(|t: ThreadInfo| t@),
        }
    }
}

/// The record that a thread's reading is shown as: the frequency kept to
/// its low 32 bits, the rest as read.
pub open spec fn thread_record(reading: ThreadReading) -> ThreadInfoView {
    ThreadInfoView {
        name: reading.name@,
        cpu_usage: reading.cpu_usage,
        frequency: low_bits(reading.frequency as nat),
        vendor_id: reading.vendor_id@,
        brand: reading.brand@,
    }
}

/// The record that a processor's reading is shown as: one thread record
/// per thread read, in the same order, and the number of physical cores
/// kept to its low 32 bits, zero where it is not known.
pub open spec fn cpu_record(reading: CpuReading) -> CpuInfoView {
    CpuInfoView {
        name: reading.global.name@,
        cpu_usage: reading.global.cpu_usage,
        frequency: low_bits(reading.global.frequency as nat),
        vendor_id: reading.global.vendor_id@,
        brand: reading.global.brand@,
        physical_core_count: low_bits_or_zero(reading.physical_core_count),
        threads: reading.threads@.map_values(|t: ThreadReading| thread_record(t)),
    }
}

/// Builds the record of one thread.
pub fn thread_info(reading: &ThreadReading) -> (info: ThreadInfo)
    ensures
        info@ == thread_record(*reading),
{
    ThreadInfo {
        name: reading.name.clone(),
        cpu_usage: reading.cpu_usage,
        frequency: low_u32(reading.frequency),
        vendor_id: reading.vendor_id.clone(),
        brand: reading.brand.clone(),
    }
}

/// Builds the record of the processor.
pub fn cpu_info(reading: &CpuReading) -> (info: CpuInfo)
    ensures
        info@ == cpu_record(*reading),
        info.threads@.len() == reading.threads@.len(),
{
    let mut threads: Vec<ThreadInfo> = Vec::new();
    let mut i: usize = 0;
    while i < reading.threads.len()
        invariant
            i <= reading.threads.len(),
            threads@.len() == i,
            forall|j: int|
                0 <= j < i ==> (#[trigger] threads@[j])@ == thread_record(reading.threads@[j]),
        decreases reading.threads.len() - i,
    {
        threads.push(thread_info(&reading.threads[i]));
        i += 1;
    }
    let info = CpuInfo {
        name: reading.global.name.clone(),
        cpu_usage: reading.global.cpu_usage,
        frequency: low_u32(reading.global.frequency),
        vendor_id: reading.global.vendor_id.clone(),
        brand: reading.global.brand.clone(),
        physical_core_count: count_or_zero(reading.physical_core_count),
        threads,
    };
    proof {
        assert(info@.threads =~= cpu_record(*reading).threads);
    }
    info
}

} // verus!
