//! The identity of the host.

use crate::text::{text_or, text_or_fallback};
use vstd::prelude::*;
use vstd::string::*;

verus! {

/// What the system reports of itself, each item where it is known.
#[derive(Clone, Debug)]
pub struct OsReading {
    pub name: Option<String>,
    pub kernel_version: Option<String>,
    pub os_version: Option<String>,
    pub host_name: Option<String>,
}

/// The record of the host's identity.
#[derive(Clone, Debug, PartialEq, Eq)]
pub struct OsInfo {
    pub name: String,
    pub kernel_version: String,
    pub os_version: String,
    pub host_name: String,
}

/// An identity record as contracts speak of it: every text a sequence of
/// characters.
pub struct OsInfoView {
    pub name: Seq<char>,
    pub kernel_version: Seq<char>,
    pub os_version: Seq<char>,
    pub host_name: Seq<char>,
}

impl View for OsInfo {
    type V = OsInfoView;

    open spec fn view(&self) -> OsInfoView {
        OsInfoView {
            name: self.name@,
            kernel_version: self.kernel_version@,
            os_version: self.os_version@,
            host_name: self.host_name@,
        }
    }
}

/// The record that the host's identity is shown as: each item that is not
/// known reads "Unknown".
pub open spec fn os_record(reading: OsReading) -> OsInfoView {
    OsInfoView {
        name: text_or(reading.name, "Unknown"@),
        kernel_version: text_or(reading.kernel_version, "Unknown"@),
        os_version: text_or(reading.os_version, "Unknown"@),
        host_name: text_or(reading.host_name, "Unknown"@),
    }
}

/// Builds the record of the host's identity.
pub fn os_info(reading: &OsReading) -> (info: OsInfo)
    ensures
        info@ == os_record(*reading),
{
    OsInfo {
        name: text_or_fallback(&reading.name, "Unknown"),
        kernel_version: text_or_fallback(&reading.kernel_version, "Unknown"),
        os_version: text_or_fallback(&reading.os_version, "Unknown"),
        host_name: text_or_fallback(&reading.host_name, "Unknown"),
    }
}

} // verus!
