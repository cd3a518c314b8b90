//! Temperature sensors.

use crate::units::{labelled, Unit};
use vstd::prelude::*;
use vstd::string::*;

verus! {

/// What one sensor reports.
#[derive(Clone, Debug)]
pub struct ComponentReading {
    pub label: String,
    /// Degrees Celsius, written out as a number.
    pub temperature: String,
}

/// The record of one sensor.
#[derive(Clone, Debug, PartialEq, Eq)]
pub struct ComponentInfo {
    pub label: String,
    pub temperature: String,
}

/// A sensor record as contracts speak of it: every text a sequence of
/// characters.
pub struct ComponentInfoView {
    pub label: Seq<char>,
    pub temperature: Seq<char>,
}

impl View for ComponentInfo {
    type V = ComponentInfoView;

    open spec fn view(&self) -> ComponentInfoView {
        ComponentInfoView { label: self.label@, temperature: self.temperature@ }
    }
}

/// The record that a sensor's reading is shown as.
pub open spec fn component_record(reading: ComponentReading) -> ComponentInfoView {
    ComponentInfoView {
        label: reading.label@,
        temperature: reading.temperature@ + Unit::Celsius.suffix(),
    }
}

/// Whether the records are those of the readings, one for one and in order.
pub open spec fn component_records_of(
    readings: Seq<ComponentReading>,
    infos: Seq<ComponentInfo>,
) -> bool {
    &&& infos.len() == readings.len()
    &&& forall|i: int|
        0 <= i < readings.len() ==> (#[trigger] infos[i])@ == component_record(readings[i])
}

/// Builds the record of one sensor.
pub fn component_info(reading: &ComponentReading) -> (info: ComponentInfo)
    ensures
        info@ == component_record(*reading),
{
    ComponentInfo {
        label: reading.label.clone(),
        temperature: labelled(reading.temperature.as_str(), Unit::Celsius),
    }
}

/// Builds the records of all sensors.
pub fn components_info(readings: &Vec<ComponentReading>) -> (infos: Vec<ComponentInfo>)
    ensures
        component_records_of(readings@, infos@),
{
    let mut infos: Vec<ComponentInfo> = Vec::new();
    let mut i: usize = 0;
    while i < readings.len()
        invariant
            i <= readings.len(),
            component_records_of(readings@.take(i as int), infos@),
        decreases readings.len() - i,
    {
        infos.push(component_info(&readings[i]));
        i += 1;
    }
    proof {
        assert(readings@.take(readings.len() as int) =~= readings@);
    }
    infos
}

} // verus!
