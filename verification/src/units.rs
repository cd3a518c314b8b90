//! The unit conventions of the display strings: byte sizes in decimal or
//! binary multiples, and the named units that follow a quantity.

use humansize::file_size_opts::{BINARY, DECIMAL};
use humansize::FileSize;
use crate::text::{decimal_digits, decimal_text};
use vstd::prelude::*;
use vstd::string::*;

verus! {

/// Which multiples a byte size is written in.
#[derive(Clone, Copy, Debug, PartialEq, Eq)]
pub enum SizeConvention {
    /// Powers of 1000, with the suffixes `B`, `KB`, `MB` and so on.
    Decimal,
    /// Powers of 1024, with the suffixes `B`, `KiB`, `MiB` and so on.
    Binary,
}

/// The unit that a quantity is labelled with.
#[derive(Clone, Copy, Debug, PartialEq, Eq)]
pub enum Unit {
    /// Degrees Celsius, written against the number.
    Celsius,
    /// Percent, written against the number.
    Percent,
    /// Energy of a battery.
    Joule,
    /// Energy rate of a battery.
    Watt,
    /// Voltage of a battery.
    Volt,
    /// Speed of a fan.
    Rpm,
    /// Power limit of a graphics device.
    Watts,
    /// Memory of a graphics device.
    Bytes,
}

impl Unit {
    /// What follows the quantity in a label, the space included where the
    /// unit is written apart.
    pub open spec fn suffix(self) -> Seq<char> {
        match self {
            Unit::Celsius => "°C"@,
            Unit::Percent => "%"@,
            Unit::Joule => " Joule"@,
            Unit::Watt => " Watt"@,
            Unit::Volt => " Volt"@,
            Unit::Rpm => " RPM"@,
            Unit::Watts => " Watts"@,
            Unit::Bytes => " Bytes"@,
        }
    }

    /// The suffix of this unit.
    pub fn suffix_text(self) -> (s: &'static str)
        ensures
            s@ == self.suffix(),
    {
        match self {
            Unit::Celsius => "°C",
            Unit::Percent => "%",
            Unit::Joule => " Joule",
            Unit::Watt => " Watt",
            Unit::Volt => " Volt",
            Unit::Rpm => " RPM",
            Unit::Watts => " Watts",
            Unit::Bytes => " Bytes",
        }
    }
}

/// The text that `humansize` writes for a byte count in a convention, or
/// `None` where it reports a failure.
pub uninterp spec fn file_size_text(bytes: u64, convention: SizeConvention) -> Option<Seq<char>>;

/// An optional text as a sequence of characters.
pub open spec fn text_view(value: Option<String>) -> Option<Seq<char>> {
    match value {
        Some(t) => Some(t@),
        None => None,
    }
}

/// The display string of a byte count: what the formatter wrote, and the
/// empty string where it failed.
pub open spec fn size_text(bytes: u64, convention: SizeConvention) -> Seq<char> {
    size_or_empty_text(file_size_text(bytes, convention))
}

/// The display string for a formatter's outcome.
pub open spec fn size_or_empty_text(outcome: Option<Seq<char>>) -> Seq<char> {
    match outcome {
        Some(t) => t,
        None => Seq::empty(),
    }
}

/// Calls `humansize::FileSize::file_size` on the byte count, with the
/// crate's `DECIMAL` or `BINARY` options. Trusted: the outcome is the one
/// that `file_size_text` names for these arguments, an `Err` read as `None`.
#[verifier::external_body]
fn file_size(bytes: u64, convention: SizeConvention) -> (text: Option<String>)
    ensures
        text_view(text) == file_size_text(bytes, convention),
{
    match convention {
        SizeConvention::Decimal => bytes.file_size(DECIMAL).ok(),
        SizeConvention::Binary => bytes.file_size(BINARY).ok(),
    }
}

/// Turns a formatter's outcome into a display string: a failure reads as
/// the empty string, which stands for "unavailable".
pub fn size_or_empty(outcome: Option<String>) -> (s: String)
    ensures
        s@ == size_or_empty_text(text_view(outcome)),
{
    match outcome {
        Some(t) => t,
        None => String::new(),
    }
}

/// Formats a byte count in the given convention.
pub fn format_bytes(bytes: u64, convention: SizeConvention) -> (s: String)
    ensures
        s@ == size_text(bytes, convention),
{
    size_or_empty(file_size(bytes, convention))
}

/// Labels a quantity, given as text, with a unit.
pub fn labelled(quantity: &str, unit: Unit) -> (s: String)
    ensures
        s@ == quantity@ + unit.suffix(),
{
    let mut out = quantity.to_owned();
    out.append(unit.suffix_text());
    out
}

/// Labels a whole number, written in decimal, with a unit.
pub fn counted(quantity: u64, unit: Unit) -> (s: String)
    ensures
        s@ == decimal_digits(quantity as nat) + unit.suffix(),
{
    let mut out = decimal_text(quantity);
    out.append(unit.suffix_text());
    out
}

} // verus!
