//! Memory and swap figures.

use crate::deflation::{deflate, deflated, lemma_used_and_free_near_total};
use crate::units::{format_bytes, size_text, SizeConvention};
use vstd::prelude::*;
use vstd::string::*;

verus! {

/// How many bytes one unit of a deflated figure stands for.
pub const BYTES_PER_UNIT: u64 = 1024;

/// What the system reports of memory and swap.
#[derive(Clone, Copy, Debug, PartialEq, Eq)]
pub struct MemoryReading {
    pub total_memory: u64,
    pub available_memory: u64,
    pub used_memory: u64,
    pub free_memory: u64,
    pub total_swap: u64,
    pub free_swap: u64,
    pub used_swap: u64,
}

/// The record of memory and swap.
#[derive(Clone, Debug, PartialEq, Eq)]
pub struct MemoryInfo {
    pub total_memory: String,
    pub available_memory: String,
    pub used_memory: String,
    pub free_memory: String,
    pub total_swap: String,
    pub free_swap: String,
    pub used_swap: String,
}

/// A memory record as contracts speak of it: every text a sequence of
/// characters.
pub struct MemoryInfoView {
    pub total_memory: Seq<char>,
    pub available_memory: Seq<char>,
    pub used_memory: Seq<char>,
    pub free_memory: Seq<char>,
    pub total_swap: Seq<char>,
    pub free_swap: Seq<char>,
    pub used_swap: Seq<char>,
}

impl View for MemoryInfo {
    type V = MemoryInfoView;

    open spec fn view(&self) -> MemoryInfoView {
        MemoryInfoView {
            total_memory: self.total_memory@,
            available_memory: self.available_memory@,
            used_memory: self.used_memory@,
            free_memory: self.free_memory@,
            total_swap: self.total_swap@,
            free_swap: self.free_swap@,
            used_swap: self.used_swap@,
        }
    }
}

/// The byte count that a memory figure is shown as: the deflated figure
/// times 1024, or `None` where that does not fit in 64 bits.
pub open spec fn memory_bytes(value: u64) -> Option<u64> {
    if deflated(value) * BYTES_PER_UNIT <= u64::MAX {
        Some((deflated(value) * BYTES_PER_UNIT) as u64)
    } else {
        None
    }
}

/// The display string of a memory figure: its byte count in binary
/// multiples, and the empty string where there is no such count.
pub open spec fn memory_text(value: u64) -> Seq<char> {
    match memory_bytes(value) {
        Some(bytes) => size_text(bytes, SizeConvention::Binary),
        None => Seq::empty(),
    }
}

/// The record that a memory reading is shown as.
pub open spec fn memory_record(reading: MemoryReading) -> MemoryInfoView {
    MemoryInfoView {
        total_memory: memory_text(reading.total_memory),
        available_memory: memory_text(reading.available_memory),
        used_memory: memory_text(reading.used_memory),
        free_memory: memory_text(reading.free_memory),
        total_swap: memory_text(reading.total_swap),
        free_swap: memory_text(reading.free_swap),
        used_swap: memory_text(reading.used_swap),
    }
}

/// In a reading whose used and free memory add up to its total, the byte
/// counts shown for the two add up to the byte count shown for the total,
/// give or take the 1024 bytes of one unit, or of two where the sum falls
/// short, and of one more for every 2^51 in the total.
pub proof fn lemma_shown_used_and_free_near_total(reading: MemoryReading)
    requires
        reading.used_memory + reading.free_memory == reading.total_memory,
        memory_bytes(reading.used_memory) is Some,
        memory_bytes(reading.free_memory) is Some,
        memory_bytes(reading.total_memory) is Some,
    ensures
        memory_bytes(reading.used_memory)->0 + memory_bytes(reading.free_memory)->0
            <= memory_bytes(reading.total_memory)->0 + BYTES_PER_UNIT * (1 + reading.total_memory
            / 0x8_0000_0000_0000),
        memory_bytes(reading.total_memory)->0 <= memory_bytes(reading.used_memory)->0
            + memory_bytes(reading.free_memory)->0 + BYTES_PER_UNIT * (2 + reading.total_memory
            / 0x8_0000_0000_0000),
{
    lemma_used_and_free_near_total(reading.used_memory, reading.free_memory);
}

/// The byte count that a memory figure is shown as.
pub fn memory_byte_count(value: u64) -> (bytes: Option<u64>)
    ensures
        bytes == memory_bytes(value),
{
    deflate(value).checked_mul(BYTES_PER_UNIT)
}

/// Formats a memory figure.
pub fn get_memory_value(value: u64) -> (s: String)
    ensures
        s@ == memory_text(value),
{
    match memory_byte_count(value) {
        Some(bytes) => format_bytes(bytes, SizeConvention::Binary),
        None => String::new(),
    }
}

/// Builds the record of memory and swap.
pub fn memory_info(reading: &MemoryReading) -> (info: MemoryInfo)
    ensures
        info@ == memory_record(*reading),
{
    MemoryInfo {
        total_memory: get_memory_value(reading.total_memory),
        available_memory: get_memory_value(reading.available_memory),
        used_memory: get_memory_value(reading.used_memory),
        free_memory: get_memory_value(reading.free_memory),
        total_swap: get_memory_value(reading.total_swap),
        free_swap: get_memory_value(reading.free_swap),
        used_swap: get_memory_value(reading.used_swap),
    }
}

} // verus!
