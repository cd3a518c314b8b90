//! Storage volumes: the media types and the record of one volume.

use crate::text::{text_or, text_or_fallback};
use crate::units::{format_bytes, size_text, SizeConvention};
use vstd::prelude::*;
use vstd::string::*;

verus! {

/// The medium of a volume. Whatever the system reports besides a rotating
/// disk or a solid-state one is `Unknown`.
#[derive(Clone, Copy, Debug, PartialEq, Eq)]
pub enum DiskKind {
    Hdd,
    Ssd,
    Unknown,
}

impl DiskKind {
    /// The name a medium is shown under.
    pub open spec fn name(self) -> Seq<char> {
        match self {
            DiskKind::Hdd => "HDD"@,
            DiskKind::Ssd => "SSD"@,
            DiskKind::Unknown => "Unknown"@,
        }
    }

    /// The name of this medium.
    pub fn name_text(self) -> (s: &'static str)
        ensures
            s@ == self.name(),
    {
        match self {
            DiskKind::Hdd => "HDD",
            DiskKind::Ssd => "SSD",
            DiskKind::Unknown => "Unknown",
        }
    }
}

/// What the system reports of one volume.
#[derive(Clone, Debug)]
pub struct DiskReading {
    /// The volume's name, where it can be written as text.
    pub name: Option<String>,
    /// Size of the volume in bytes.
    pub total_space: u64,
    /// Bytes still available on it.
    pub available_space: u64,
    pub is_removable: bool,
    pub kind: DiskKind,
}

/// The record of one volume.
#[derive(Clone, Debug, PartialEq, Eq)]
pub struct DiskInfo {
    pub name: String,
    pub total_space: String,
    pub available_space: String,
    pub is_removable: bool,
    pub type_: String,
}

/// A volume record as contracts speak of it: every text a sequence of
/// characters.
pub struct DiskInfoView {
    pub name: Seq<char>,
    pub total_space: Seq<char>,
    pub available_space: Seq<char>,
    pub is_removable: bool,
    pub type_: Seq<char>,
}

impl View for DiskInfo {
    type V = DiskInfoView;

    open spec fn view(&self) -> DiskInfoView {
        DiskInfoView {
            name: self.name@,
            total_space: self.total_space@,
            available_space: self.available_space@,
            is_removable: self.is_removable,
            type_: self.type_@,
        }
    }
}

/// The record that a volume's reading is shown as: a name that cannot be
/// written as text left empty, and both sizes in decimal multiples.
pub open spec fn disk_record(reading: DiskReading) -> DiskInfoView {
    DiskInfoView {
        name: text_or(reading.name, ""@),
        total_space: size_text(reading.total_space, SizeConvention::Decimal),
        available_space: size_text(reading.available_space, SizeConvention::Decimal),
        is_removable: reading.is_removable,
        type_: reading.kind.name(),
    }
}

/// Whether the records are those of the readings, one for one and in order.
pub open spec fn disk_records_of(readings: Seq<DiskReading>, infos: Seq<DiskInfo>) -> bool {
    &&& infos.len() == readings.len()
    &&& forall|i: int|
        0 <= i < readings.len() ==> (#[trigger] infos[i])@ == disk_record(readings[i])
}

/// Builds the record of one volume.
pub fn disk_info(reading: &DiskReading) -> (info: DiskInfo)
    ensures
        info@ == disk_record(*reading),
{
    DiskInfo {
        name: text_or_fallback(&reading.name, ""),
        total_space: format_bytes(reading.total_space, SizeConvention::Decimal),
        available_space: format_bytes(reading.available_space, SizeConvention::Decimal),
        is_removable: reading.is_removable,
        type_: reading.kind.name_text().to_owned(),
    }
}

/// Builds the records of all volumes.
pub fn disks_info(readings: &Vec<DiskReading>) -> (infos: Vec<DiskInfo>)
    ensures
        disk_records_of(readings@, infos@),
{
    let mut infos: Vec<DiskInfo> = Vec::new();
    let mut i: usize = 0;
    while i < readings.len()
        invariant
            i <= readings.len(),
            disk_records_of(readings@.take(i as int), infos@),
        decreases readings.len() - i,
    {
        infos.push(disk_info(&readings[i]));
        i += 1;
    }
    proof {
        assert(readings@.take(readings.len() as int) =~= readings@);
    }
    infos
}

} // verus!
