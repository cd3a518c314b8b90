//! Graphics devices: the brand names and the record of one device.

use crate::text::decimal_digits;
use crate::units::{counted, labelled, Unit};
use vstd::prelude::*;
use vstd::string::*;

verus! {

/// The product line of a graphics device. Whatever the driver reports
/// outside the known lines is `Unknown`.
#[derive(Clone, Copy, Debug, PartialEq, Eq)]
pub enum Brand {
    Unknown,
    Quadro,
    Tesla,
    Nvs,
    Grid,
    GeForce,
    Titan,
}

impl Brand {
    /// The name a brand is shown under.
    pub open spec fn name(self) -> Seq<char> {
        match self {
            Brand::Unknown => "Unknown"@,
            Brand::Quadro => "Quadro"@,
            Brand::Tesla => "Tesla"@,
            Brand::Nvs => "NVS"@,
            Brand::Grid => "GRID"@,
            Brand::GeForce => "GeForce"@,
            Brand::Titan => "Titan"@,
        }
    }

    /// The name of this brand.
    pub fn name_text(self) -> (s: &'static str)
        ensures
            s@ == self.name(),
    {
        match self {
            Brand::Unknown => "Unknown",
            Brand::Quadro => "Quadro",
            Brand::Tesla => "Tesla",
            Brand::Nvs => "NVS",
            Brand::Grid => "GRID",
            Brand::GeForce => "GeForce",
            Brand::Titan => "Titan",
        }
    }
}

/// What the driver reports of one device.
#[derive(Clone, Debug)]
pub struct GpuReading {
    pub brand: Brand,
    pub name: String,
    /// Speed of the first fan.
    pub fan_speed: u32,
    /// The power limit in force.
    pub power_limit: u32,
    /// Total device memory in bytes.
    pub memory_total: u64,
    /// Free device memory in bytes.
    pub memory_free: u64,
    /// Total memory over free memory, times one hundred, cut to a whole
    /// number and written out.
    pub memory_ratio: String,
    /// Degrees Celsius at the die.
    pub temperature: u32,
    /// Percent of time the device was busy.
    pub gpu_utilization: u32,
    /// Percent of time device memory was read or written.
    pub memory_utilization: u32,
}

/// Memory figures of a device, as display strings.
#[derive(Clone, Debug, PartialEq, Eq)]
pub struct GpuMemory {
    pub total: String,
    pub free: String,
    pub used: String,
}

/// Utilization figures of a device, as display strings.
#[derive(Clone, Debug, PartialEq, Eq)]
pub struct GpuUsage {
    pub gpu: String,
    pub memory: String,
}

/// The record of one graphics device.
#[derive(Clone, Debug, PartialEq, Eq)]
pub struct GraphicsInfo {
    pub brand: String,
    pub name: String,
    pub fan_speed: String,
    pub power_limit: String,
    pub memory: GpuMemory,
    pub temperature: String,
    pub utilization: GpuUsage,
}

/// The memory figures of a device as sequences of characters.
pub struct GpuMemoryView {
    pub total: Seq<char>,
    pub free: Seq<char>,
    pub used: Seq<char>,
}

/// The utilization figures of a device as sequences of characters.
pub struct GpuUsageView {
    pub gpu: Seq<char>,
    pub memory: Seq<char>,
}

/// A graphics record as contracts speak of it: every text a sequence of
/// characters.
pub struct GraphicsInfoView {
    pub brand: Seq<char>,
    pub name: Seq<char>,
    pub fan_speed: Seq<char>,
    pub power_limit: Seq<char>,
    pub memory: GpuMemoryView,
    pub temperature: Seq<char>,
    pub utilization: GpuUsageView,
}

impl View for GpuMemory {
    type V = GpuMemoryView;

    open spec fn view(&self) -> GpuMemoryView {
        GpuMemoryView { total: self.total@, free: self.free@, used: self.used@ }
    }
}

impl View for GpuUsage {
    type V = GpuUsageView;

    open spec fn view(&self) -> GpuUsageView {
        GpuUsageView { gpu: self.gpu@, memory: self.memory@ }
    }
}

impl View for GraphicsInfo {
    type V = GraphicsInfoView;

    open spec fn view(&self) -> GraphicsInfoView {
        GraphicsInfoView {
            brand: self.brand@,
            name: self.name@,
            fan_speed: self.fan_speed@,
            power_limit: self.power_limit@,
            memory: self.memory@,
            temperature: self.temperature@,
            utilization: self.utilization@,
        }
    }
}

/// The record that a device's reading is shown as.
pub open spec fn graphics_record(reading: GpuReading) -> GraphicsInfoView {
    GraphicsInfoView {
        brand: reading.brand.name(),
        name: reading.name@,
        fan_speed: decimal_digits(reading.fan_speed as nat) + Unit::Rpm.suffix(),
        power_limit: decimal_digits(reading.power_limit as nat) + Unit::Watts.suffix(),
        memory: GpuMemoryView {
            total: decimal_digits(reading.memory_total as nat) + Unit::Bytes.suffix(),
            free: decimal_digits(reading.memory_free as nat) + Unit::Bytes.suffix(),
            used: reading.memory_ratio@ + Unit::Percent.suffix(),
        },
        temperature: decimal_digits(reading.temperature as nat) + Unit::Celsius.suffix(),
        utilization: GpuUsageView {
            gpu: decimal_digits(reading.gpu_utilization as nat) + Unit::Percent.suffix(),
            memory: decimal_digits(reading.memory_utilization as nat) + Unit::Percent.suffix(),
        },
    }
}

/// Whether the records are those of the readings, one for one and in order.
pub open spec fn graphics_records_of(
    readings: Seq<GpuReading>,
    infos: Seq<GraphicsInfo>,
) -> bool {
    &&& infos.len() == readings.len()
    &&& forall|i: int|
        0 <= i < readings.len() ==> (#[trigger] infos[i])@ == graphics_record(readings[i])
}

/// Builds the record of one device.
pub fn graphics_device_info(reading: &GpuReading) -> (info: GraphicsInfo)
    ensures
        info@ == graphics_record(*reading),
{
    let memory = GpuMemory {
        total: counted(reading.memory_total, Unit::Bytes),
        free: counted(reading.memory_free, Unit::Bytes),
        used: labelled(reading.memory_ratio.as_str(), Unit::Percent),
    };
    let utilization = GpuUsage {
        gpu: counted(reading.gpu_utilization as u64, Unit::Percent),
        memory: counted(reading.memory_utilization as u64, Unit::Percent),
    };
    GraphicsInfo {
        brand: reading.brand.name_text().to_owned(),
        name: reading.name.clone(),
        fan_speed: counted(reading.fan_speed as u64, Unit::Rpm),
        power_limit: counted(reading.power_limit as u64, Unit::Watts),
        memory,
        temperature: counted(reading.temperature as u64, Unit::Celsius),
        utilization,
    }
}

/// Builds the records of all devices. `None` stands for a host on which the
/// vendor's driver interface is not present: it has no devices to show,
/// which is an empty list and no failure.
pub fn graphics_info(driver: &Option<Vec<GpuReading>>) -> (infos: Vec<GraphicsInfo>)
    ensures
        match *driver {
            Some(readings) => graphics_records_of(readings@, infos@),
            None => infos@.len() == 0,
        },
{
    let mut infos: Vec<GraphicsInfo> = Vec::new();
    match driver {
        Some(readings) => {
            let mut i: usize = 0;
            while i < readings.len()
                invariant
                    i <= readings.len(),
                    graphics_records_of(readings@.take(i as int), infos@),
                decreases readings.len() - i,
            {
                infos.push(graphics_device_info(&readings[i]));
                i += 1;
            }
            proof {
                assert(readings@.take(readings.len() as int) =~= readings@);
            }
        },
        None => {},
    }
    infos
}

} // verus!
