//! Batteries: the charge states and the record of one battery.

use crate::text::{text_or, text_or_fallback};
use crate::units::{labelled, Unit};
use battery::State;
use vstd::prelude::*;
use vstd::string::*;

verus! {

/// What a battery is doing. `Unknown` covers both a controller that says so
/// and a state that could not be read.
#[derive(Clone, Copy, Debug, PartialEq, Eq)]
pub enum BatteryState {
    Unknown,
    Charging,
    Discharging,
    Empty,
    Full,
}

impl BatteryState {
    /// The word a state is shown as.
    pub open spec fn name(self) -> Seq<char> {
        match self {
            BatteryState::Unknown => "unknown"@,
            BatteryState::Charging => "charging"@,
            BatteryState::Discharging => "discharging"@,
            BatteryState::Empty => "empty"@,
            BatteryState::Full => "full"@,
        }
    }
}

/// What the system reports of one battery. The measured quantities arrive
/// written out as numbers, without their units.
#[derive(Clone, Debug)]
pub struct BatteryReading {
    pub vendor: Option<String>,
    pub model: Option<String>,
    pub state: BatteryState,
    /// Degrees Celsius, cut to hundredths.
    pub temperature: String,
    pub cycle_count: Option<u32>,
    /// Joules.
    pub energy_full_design: String,
    /// Joules.
    pub energy_full: String,
    /// Joules.
    pub energy: String,
    /// Watts.
    pub energy_rate: String,
    /// Volts.
    pub voltage: String,
    /// Percent.
    pub state_of_charge: String,
    /// Percent.
    pub state_of_health: String,
}

/// The record of one battery.
#[derive(Clone, Debug, PartialEq, Eq)]
pub struct BatteryInfo {
    pub vendor: String,
    pub model: String,
    pub state: String,
    pub temperature: String,
    pub cycle_count: u32,
    pub energy_full_design: String,
    pub energy_full: String,
    pub energy: String,
    pub energy_rate: String,
    pub voltage: String,
    pub state_of_charge: String,
    pub state_of_health: String,
}

/// A battery record as contracts speak of it: every text a sequence of
/// characters.
pub struct BatteryInfoView {
    pub vendor: Seq<char>,
    pub model: Seq<char>,
    pub state: Seq<char>,
    pub temperature: Seq<char>,
    pub cycle_count: u32,
    pub energy_full_design: Seq<char>,
    pub energy_full: Seq<char>,
    pub energy: Seq<char>,
    pub energy_rate: Seq<char>,
    pub voltage: Seq<char>,
    pub state_of_charge: Seq<char>,
    pub state_of_health: Seq<char>,
}

impl View for BatteryInfo {
    type V = BatteryInfoView;

    open spec fn view(&self) -> BatteryInfoView {
        BatteryInfoView {
            vendor: self.vendor@,
            model: self.model@,
            state: self.state@,
            temperature: self.temperature@,
            cycle_count: self.cycle_count,
            energy_full_design: self.energy_full_design@,
            energy_full: self.energy_full@,
            energy: self.energy@,
            energy_rate: self.energy_rate@,
            voltage: self.voltage@,
            state_of_charge: self.state_of_charge@,
            state_of_health: self.state_of_health@,
        }
    }
}

/// The cycle count a record holds: zero where none was read.
pub open spec fn cycles_or_zero(cycle_count: Option<u32>) -> u32 {
    match cycle_count {
        Some(n) => n,
        None => 0,
    }
}

/// The record that a battery's reading is shown as: a missing vendor or
/// model reads "Unknown", and each quantity carries its unit.
pub open spec fn battery_record(reading: BatteryReading) -> BatteryInfoView {
    BatteryInfoView {
        vendor: text_or(reading.vendor, "Unknown"@),
        model: text_or(reading.model, "Unknown"@),
        state: reading.state.name(),
        temperature: reading.temperature@ + Unit::Celsius.suffix(),
        cycle_count: cycles_or_zero(reading.cycle_count),
        energy_full_design: reading.energy_full_design@ + Unit::Joule.suffix(),
        energy_full: reading.energy_full@ + Unit::Joule.suffix(),
        energy: reading.energy@ + Unit::Joule.suffix(),
        energy_rate: reading.energy_rate@ + Unit::Watt.suffix(),
        voltage: reading.voltage@ + Unit::Volt.suffix(),
        state_of_charge: reading.state_of_charge@ + Unit::Percent.suffix(),
        state_of_health: reading.state_of_health@ + Unit::Percent.suffix(),
    }
}

/// Whether the records are those of the readings, one for one and in order.
pub open spec fn battery_records_of(readings: Seq<BatteryReading>, infos: Seq<BatteryInfo>) -> bool {
    &&& infos.len() == readings.len()
    &&& forall|i: int|
        0 <= i < readings.len() ==> (#[trigger] infos[i])@ == battery_record(readings[i])
}

/// Writes a state with the `Display` of `battery::State`. Trusted: that
/// impl writes the variant's name in lower case, as `BatteryState::name`
/// lists them.
#[verifier::external_body]
fn state_text(state: BatteryState) -> (s: String)
    ensures
        s@ == state.name(),
{
    let outside = match state {
        BatteryState::Unknown => State::Unknown,
        BatteryState::Charging => State::Charging,
        BatteryState::Discharging => State::Discharging,
        BatteryState::Empty => State::Empty,
        BatteryState::Full => State::Full,
    };
    outside.to_string()
}

/// The cycle count for a record.
pub fn cycle_count(counted: Option<u32>) -> (n: u32)
    ensures
        n == cycles_or_zero(counted),
{
    match counted {
        Some(n) => n,
        None => 0,
    }
}

/// Builds the record of one battery.
pub fn battery_device_info(reading: &BatteryReading) -> (info: BatteryInfo)
    ensures
        info@ == battery_record(*reading),
{
    BatteryInfo {
        vendor: text_or_fallback(&reading.vendor, "Unknown"),
        model: text_or_fallback(&reading.model, "Unknown"),
        state: state_text(reading.state),
        temperature: labelled(reading.temperature.as_str(), Unit::Celsius),
        cycle_count: cycle_count(reading.cycle_count),
        energy_full_design: labelled(reading.energy_full_design.as_str(), Unit::Joule),
        energy_full: labelled(reading.energy_full.as_str(), Unit::Joule),
        energy: labelled(reading.energy.as_str(), Unit::Joule),
        energy_rate: labelled(reading.energy_rate.as_str(), Unit::Watt),
        voltage: labelled(reading.voltage.as_str(), Unit::Volt),
        state_of_charge: labelled(reading.state_of_charge.as_str(), Unit::Percent),
        state_of_health: labelled(reading.state_of_health.as_str(), Unit::Percent),
    }
}

/// Builds the records of all batteries. A host without batteries has an
/// empty list of readings, and gets an empty list of records.
pub fn battery_info(readings: &Vec<BatteryReading>) -> (infos: Vec<BatteryInfo>)
    ensures
        battery_records_of(readings@, infos@),
        readings@.len() == 0 ==> infos@.len() == 0,
{
    let mut infos: Vec<BatteryInfo> = Vec::new();
    let mut i: usize = 0;
    while i < readings.len()
        invariant
            i <= readings.len(),
            battery_records_of(readings@.take(i as int), infos@),
        decreases readings.len() - i,
    {
        infos.push(battery_device_info(&readings[i]));
        i += 1;
    }
    proof {
        assert(readings@.take(readings.len() as int) =~= readings@);
    }
    infos
}

} // verus!
