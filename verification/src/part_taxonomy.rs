//! Contains the types required to represent a [PDSC Part-Taxonomy](https://open-cmsis-pack.github.io/Open-CMSIS-Pack-Spec/main/html/element_part-taxonomy.html#element_part-taxonomy) element
use vstd::prelude::*;

use crate::text::str_eq;


verus! {

/// Represents the [PDSC part-taxonomy](https://open-cmsis-pack.github.io/Open-CMSIS-Pack-Spec/main/html/element_part-taxonomy.html#element_part-taxonomy) element
///
/// Groups `description` entries that define the hardware part classes and group names used in a pack.
#[derive(Debug, PartialEq, Eq, Clone, Default)]
pub struct PartTaxonomy {
    /// Hardware part class and group descriptions (1..*)
    pub descriptions: Vec<PartTaxonomyDescription>,
}

/// Represents a [PDSC part-taxonomy description](https://open-cmsis-pack.github.io/Open-CMSIS-Pack-Spec/main/html/element_part-taxonomy.html#element_part-taxonomyDescription) entry
///
/// Defines a hardware part class or a class-and-group combination used to categorise parts.
#[derive(Debug, PartialEq, Eq, Clone, Default)]
pub struct PartTaxonomyDescription {
    /// Hardware part class name (e.g. `Microcontroller`, `Memory`, `Sensor`)
    pub class: String,

    /// Hardware part group name within the class
    pub group: Option<String>,

    /// Path or URL to documentation for this class/group
    pub doc: Option<String>,

    /// Generator identifier associated with this class/group
    pub generator: Option<String>,

    /// Publishing permission; default `true`
    pub public: Option<bool>,

    /// Condition ID that applies to this class/group
    pub condition: Option<String>,

    /// Human-readable description of the hardware part class or group; empty string if absent
    pub content: String,
}

/// Predefined hardware part class names per
/// [HclassType](https://open-cmsis-pack.github.io/Open-CMSIS-Pack-Spec/main/html/element_part-taxonomy.html#HclassType)
#[derive(Debug, PartialEq, Eq, Clone)]
pub enum HclassType {
    AmplifiersAndComparators,
    /// "Audio ICs"
    AudioIcs,
    Automotive,
    ClocksAndTimers,
    DataConverters,
    /// "Digital Set-Top Box ICs"
    DigitalSetTopBoxIcs,
    DiodesAndRectifiers,
    ImagingAndPhotonicsDevices,
    InterfacesAndTransceivers,
    Memories,
    /// "MEMS and Sensors"
    MemsAndSensors,
    MotorDrivers,
    /// "NFC"
    Nfc,
    Other,
    Positioning,
    PowerManagement,
    PowerModules,
    PowerTransistors,
    Protections,
    RadioFrequency,
    /// "Reset and Supervisor ICs"
    ResetAndSupervisorIcs,
    /// "Secure MCUs"
    SecureMcus,
    /// "SiC Devices"
    SicDevices,
    SpaceDevices,
    SwitchesAndMultiplexers,
    /// "Thyristors and AC Switches"
    ThyristorsAndAcSwitches,
    TouchAndDisplayControllers,
    Wireless,
}

/// Predefined hardware part group names per
/// [HgroupType](https://open-cmsis-pack.github.io/Open-CMSIS-Pack-Spec/main/html/element_part-taxonomy.html#HgroupType)
#[derive(Debug, PartialEq, Eq, Clone)]
pub enum HgroupType {
    Comparators,
    CurrentSensing,
    OpAmp,
    PowerOpAmp,
    VideoAmplifiers,
    Amplifiers,
    /// "MEMS Sensor"
    MemsSensor,
    Processors,
    /// "Sound Terminal ICs"
    SoundTerminalIcs,
    /// "ADAS (Advanced Driver Assistance Systems)"
    Adas,
    AnalogAndPower,
    InfotainmentAndTelematics,
    /// "Logic ICs"
    LogicIcs,
    Microcontrollers,
    /// "RTC"
    Rtc,
    Timers,
    /// "A2D - D2A"
    A2dD2a,
    /// "Isolated ADCs"
    IsolatedAdcs,
    /// "Metering ICs"
    MeteringIcs,
    DemodulatorsAndTuners,
    SetTopBoxProcessors,
    Diodes,
    Rectifiers,
    AmbientLightSensors,
    ImageSensors,
    ImagingProcessors,
    TimeOfFlightSensors,
    Interfaces,
    /// "I/O Expanders"
    IoExpanders,
    LevelTranslators,
    Transceivers,
    /// "EEPROM"
    Eeprom,
    Flash,
    /// "RAM"
    Ram,
    Environmental,
    Infrared,
    /// "MEMS Hybrid"
    MemsHybrid,
    /// "MEMS Microphone"
    MemsMicrophone,
    /// "MEMS Motion"
    MemsMotion,
    Proximity,
    Brushed,
    Brushless,
    GateDrivers,
    Stepper,
    Secure,
    Reader,
    Tag,
    TagAndReader,
    /// "GNSS ICs"
    GnssIcs,
    /// "GNSS Modules"
    GnssModules,
    /// "AC-DC Converters"
    AcDcConverters,
    /// "Battery Management ICs"
    BatteryManagementIcs,
    DcDcSwitchingConverters,
    DisplaySuppliesAndControllers,
    /// "eFuses and hot-swap ICs"
    EFusesAndHotSwapIcs,
    EnergyHarvesting,
    /// "GaN Power ICs"
    GanPowerIcs,
    HighDensityPowerDrivers,
    IntelligentPowerSwitches,
    /// "LED Drivers"
    LedDrivers,
    /// "Lighting ICs"
    LightingIcs,
    LinearVoltageRegulators,
    /// "LNB Supplies"
    LnbSupplies,
    /// "Photovoltaic ICs"
    PhotovoltaicIcs,
    /// "Power Over Ethernet ICs"
    PowerOverEthernetIcs,
    VoltageReferences,
    /// "Wireless Charger ICs"
    WirelessChargerIcs,
    /// "ACEPACK"
    Acepack,
    /// "SLLIMM"
    Sllimm,
    /// "IGBTs"
    Igbts,
    Bipolar,
    /// "MOSFETs"
    Mosfets,
    WideBandgap,
    /// "ASIP"
    Asip,
    /// "EMI Filters"
    EmiFilters,
    /// "TSS"
    Tss,
    /// "TVS"
    Tvs,
    /// "RF DMOS"
    RfDmos,
    /// "RF LDMOS"
    RfLdmos,
    MicroprocessorSupervisors,
    OnOffControllers,
    ResetAndVoltageDetectors,
    /// "Smart Reset ICs"
    SmartResetIcs,
    /// "Voltage Protection ICs"
    VoltageProtectionIcs,
    WatchdogTimers,
    Authentication,
    /// "SIM"
    Sim,
    /// "SiC Diodes"
    SicDiodes,
    /// "SiC MOSFETs"
    SicMosfets,
    /// "LEO Rad-Hard ICs"
    LeoRadHardIcs,
    /// "Rad-Hard Analog ICs"
    RadHardAnalogIcs,
    /// "Rad-Hard ASIC Platforms"
    RadHardAsicPlatforms,
    RadHardDiscretes,
    RadHardInterfaces,
    /// "Rad-Hard Logic ICs"
    RadHardLogicIcs,
    RadHardPowerManagement,
    Switches,
    Multiplexers,
    Thyristors,
    Triacs,
    LongRange,
    /// "RF Front-end"
    RfFrontEnd,
    /// "RF Solutions"
    RfSolutions,
    ShortRange,
}

/// The name of a predefined hardware part class, as the schema writes it.
pub open spec fn hclass_type_name(c: HclassType) -> Seq<char> {
    match c {
        HclassType::AmplifiersAndComparators => "Amplifiers and Comparators"@,
        HclassType::AudioIcs => "Audio ICs"@,
        HclassType::Automotive => "Automotive"@,
        HclassType::ClocksAndTimers => "Clocks and Timers"@,
        HclassType::DataConverters => "Data Converters"@,
        HclassType::DigitalSetTopBoxIcs => "Digital Set-Top Box ICs"@,
        HclassType::DiodesAndRectifiers => "Diodes and Rectifiers"@,
        HclassType::ImagingAndPhotonicsDevices => "Imaging and Photonics Devices"@,
        HclassType::InterfacesAndTransceivers => "Interfaces and Transceivers"@,
        HclassType::Memories => "Memories"@,
        HclassType::MemsAndSensors => "MEMS and Sensors"@,
        HclassType::MotorDrivers => "Motor Drivers"@,
        HclassType::Nfc => "NFC"@,
        HclassType::Other => "Other"@,
        HclassType::Positioning => "Positioning"@,
        HclassType::PowerManagement => "Power Management"@,
        HclassType::PowerModules => "Power Modules"@,
        HclassType::PowerTransistors => "Power Transistors"@,
        HclassType::Protections => "Protections"@,
        HclassType::RadioFrequency => "Radio Frequency"@,
        HclassType::ResetAndSupervisorIcs => "Reset and Supervisor ICs"@,
        HclassType::SecureMcus => "Secure MCUs"@,
        HclassType::SicDevices => "SiC Devices"@,
        HclassType::SpaceDevices => "Space Devices"@,
        HclassType::SwitchesAndMultiplexers => "Switches and Multiplexers"@,
        HclassType::ThyristorsAndAcSwitches => "Thyristors and AC Switches"@,
        HclassType::TouchAndDisplayControllers => "Touch and Display Controllers"@,
        HclassType::Wireless => "Wireless"@,
    }
}

impl HclassType {
    /// The predefined hardware part class called `s`; `Err(())` when `s` names none.
    pub fn from_name(s: &str) -> (r: Result<HclassType, ()>)
        ensures
            match r {
                Ok(c) => hclass_type_name(c) == s@,
                Err(()) => forall|c: HclassType| #[trigger] hclass_type_name(c) != s@,
            },
    {
        if str_eq(s, "Amplifiers and Comparators") {
            Ok(HclassType::AmplifiersAndComparators)
        } else if str_eq(s, "Audio ICs") {
            Ok(HclassType::AudioIcs)
        } else if str_eq(s, "Automotive") {
            Ok(HclassType::Automotive)
        } else if str_eq(s, "Clocks and Timers") {
            Ok(HclassType::ClocksAndTimers)
        } else if str_eq(s, "Data Converters") {
            Ok(HclassType::DataConverters)
        } else if str_eq(s, "Digital Set-Top Box ICs") {
            Ok(HclassType::DigitalSetTopBoxIcs)
        } else if str_eq(s, "Diodes and Rectifiers") {
            Ok(HclassType::DiodesAndRectifiers)
        } else if str_eq(s, "Imaging and Photonics Devices") {
            Ok(HclassType::ImagingAndPhotonicsDevices)
        } else if str_eq(s, "Interfaces and Transceivers") {
            Ok(HclassType::InterfacesAndTransceivers)
        } else if str_eq(s, "Memories") {
            Ok(HclassType::Memories)
        } else if str_eq(s, "MEMS and Sensors") {
            Ok(HclassType::MemsAndSensors)
        } else if str_eq(s, "Motor Drivers") {
            Ok(HclassType::MotorDrivers)
        } else if str_eq(s, "NFC") {
            Ok(HclassType::Nfc)
        } else if str_eq(s, "Other") {
            Ok(HclassType::Other)
        } else if str_eq(s, "Positioning") {
            Ok(HclassType::Positioning)
        } else if str_eq(s, "Power Management") {
            Ok(HclassType::PowerManagement)
        } else if str_eq(s, "Power Modules") {
            Ok(HclassType::PowerModules)
        } else if str_eq(s, "Power Transistors") {
            Ok(HclassType::PowerTransistors)
        } else if str_eq(s, "Protections") {
            Ok(HclassType::Protections)
        } else if str_eq(s, "Radio Frequency") {
            Ok(HclassType::RadioFrequency)
        } else if str_eq(s, "Reset and Supervisor ICs") {
            Ok(HclassType::ResetAndSupervisorIcs)
        } else if str_eq(s, "Secure MCUs") {
            Ok(HclassType::SecureMcus)
        } else if str_eq(s, "SiC Devices") {
            Ok(HclassType::SicDevices)
        } else if str_eq(s, "Space Devices") {
            Ok(HclassType::SpaceDevices)
        } else if str_eq(s, "Switches and Multiplexers") {
            Ok(HclassType::SwitchesAndMultiplexers)
        } else if str_eq(s, "Thyristors and AC Switches") {
            Ok(HclassType::ThyristorsAndAcSwitches)
        } else if str_eq(s, "Touch and Display Controllers") {
            Ok(HclassType::TouchAndDisplayControllers)
        } else if str_eq(s, "Wireless") {
            Ok(HclassType::Wireless)
        } else {
            Err(())
        }
    }
}

impl<'a> TryFrom<&'a str> for HclassType {
    type Error = ();

    fn try_from(s: &'a str) -> (r: Result<HclassType, ()>)
        ensures
            match r {
                Ok(c) => hclass_type_name(c) == s@,
                Err(()) => forall|c: HclassType| #[trigger] hclass_type_name(c) != s@,
            },
    {
        HclassType::from_name(s)
    }
}

impl<'a> vstd::std_specs::convert::TryFromSpecImpl<&'a str> for HclassType {
    open spec fn obeys_try_from_spec() -> bool {
        false
    }

    open spec fn try_from_spec(s: &'a str) -> Result<HclassType, ()> {
        Err(())
    }
}

impl TryFrom<String> for HclassType {
    type Error = ();

    fn try_from(s: String) -> (r: Result<HclassType, ()>)
        ensures
            match r {
                Ok(c) => hclass_type_name(c) == s@,
                Err(()) => forall|c: HclassType| #[trigger] hclass_type_name(c) != s@,
            },
    {
        HclassType::from_name(s.as_str())
    }
}

impl vstd::std_specs::convert::TryFromSpecImpl<String> for HclassType {
    open spec fn obeys_try_from_spec() -> bool {
        false
    }

    open spec fn try_from_spec(s: String) -> Result<HclassType, ()> {
        Err(())
    }
}

/// The name of a predefined hardware part group, as the schema writes it.
pub open spec fn hgroup_type_name(c: HgroupType) -> Seq<char> {
    match c {
        HgroupType::Comparators => "Comparators"@,
        HgroupType::CurrentSensing => "Current Sensing"@,
        HgroupType::OpAmp => "Op Amp"@,
        HgroupType::PowerOpAmp => "Power Op Amp"@,
        HgroupType::VideoAmplifiers => "Video Amplifiers"@,
        HgroupType::Amplifiers => "Amplifiers"@,
        HgroupType::MemsSensor => "MEMS Sensor"@,
        HgroupType::Processors => "Processors"@,
        HgroupType::SoundTerminalIcs => "Sound Terminal ICs"@,
        HgroupType::Adas => "ADAS (Advanced Driver Assistance Systems)"@,
        HgroupType::AnalogAndPower => "Analog and Power"@,
        HgroupType::InfotainmentAndTelematics => "Infotainment and Telematics"@,
        HgroupType::LogicIcs => "Logic ICs"@,
        HgroupType::Microcontrollers => "Microcontrollers"@,
        HgroupType::Rtc => "RTC"@,
        HgroupType::Timers => "Timers"@,
        HgroupType::A2dD2a => "A2D - D2A"@,
        HgroupType::IsolatedAdcs => "Isolated ADCs"@,
        HgroupType::MeteringIcs => "Metering ICs"@,
        HgroupType::DemodulatorsAndTuners => "Demodulators and Tuners"@,
        HgroupType::SetTopBoxProcessors => "Set-Top-Box Processors"@,
        HgroupType::Diodes => "Diodes"@,
        HgroupType::Rectifiers => "Rectifiers"@,
        HgroupType::AmbientLightSensors => "Ambient Light Sensors"@,
        HgroupType::ImageSensors => "Image Sensors"@,
        HgroupType::ImagingProcessors => "Imaging Processors"@,
        HgroupType::TimeOfFlightSensors => "Time-of-Flight Sensors"@,
        HgroupType::Interfaces => "Interfaces"@,
        HgroupType::IoExpanders => "I/O Expanders"@,
        HgroupType::LevelTranslators => "Level Translators"@,
        HgroupType::Transceivers => "Transceivers"@,
        HgroupType::Eeprom => "EEPROM"@,
        HgroupType::Flash => "Flash"@,
        HgroupType::Ram => "RAM"@,
        HgroupType::Environmental => "Environmental"@,
        HgroupType::Infrared => "Infrared"@,
        HgroupType::MemsHybrid => "MEMS Hybrid"@,
        HgroupType::MemsMicrophone => "MEMS Microphone"@,
        HgroupType::MemsMotion => "MEMS Motion"@,
        HgroupType::Proximity => "Proximity"@,
        HgroupType::Brushed => "Brushed"@,
        HgroupType::Brushless => "Brushless"@,
        HgroupType::GateDrivers => "Gate Drivers"@,
        HgroupType::Stepper => "Stepper"@,
        HgroupType::Secure => "Secure"@,
        HgroupType::Reader => "Reader"@,
        HgroupType::Tag => "Tag"@,
        HgroupType::TagAndReader => "Tag and Reader"@,
        HgroupType::GnssIcs => "GNSS ICs"@,
        HgroupType::GnssModules => "GNSS Modules"@,
        HgroupType::AcDcConverters => "AC-DC Converters"@,
        HgroupType::BatteryManagementIcs => "Battery Management ICs"@,
        HgroupType::DcDcSwitchingConverters => "DC-DC Switching Converters"@,
        HgroupType::DisplaySuppliesAndControllers => "Display Supplies and Controllers"@,
        HgroupType::EFusesAndHotSwapIcs => "eFuses and hot-swap ICs"@,
        HgroupType::EnergyHarvesting => "Energy Harvesting"@,
        HgroupType::GanPowerIcs => "GaN Power ICs"@,
        HgroupType::HighDensityPowerDrivers => "High-Density Power Drivers"@,
        HgroupType::IntelligentPowerSwitches => "Intelligent Power Switches"@,
        HgroupType::LedDrivers => "LED Drivers"@,
        HgroupType::LightingIcs => "Lighting ICs"@,
        HgroupType::LinearVoltageRegulators => "Linear Voltage Regulators"@,
        HgroupType::LnbSupplies => "LNB Supplies"@,
        HgroupType::PhotovoltaicIcs => "Photovoltaic ICs"@,
        HgroupType::PowerOverEthernetIcs => "Power Over Ethernet ICs"@,
        HgroupType::VoltageReferences => "Voltage References"@,
        HgroupType::WirelessChargerIcs => "Wireless Charger ICs"@,
        HgroupType::Acepack => "ACEPACK"@,
        HgroupType::Sllimm => "SLLIMM"@,
        HgroupType::Igbts => "IGBTs"@,
        HgroupType::Bipolar => "Bipolar"@,
        HgroupType::Mosfets => "MOSFETs"@,
        HgroupType::WideBandgap => "Wide Bandgap"@,
        HgroupType::Asip => "ASIP"@,
        HgroupType::EmiFilters => "EMI Filters"@,
        HgroupType::Tss => "TSS"@,
        HgroupType::Tvs => "TVS"@,
        HgroupType::RfDmos => "RF DMOS"@,
        HgroupType::RfLdmos => "RF LDMOS"@,
        HgroupType::MicroprocessorSupervisors => "Microprocessor Supervisors"@,
        HgroupType::OnOffControllers => "On-Off Controllers"@,
        HgroupType::ResetAndVoltageDetectors => "Reset and Voltage Detectors"@,
        HgroupType::SmartResetIcs => "Smart Reset ICs"@,
        HgroupType::VoltageProtectionIcs => "Voltage Protection ICs"@,
        HgroupType::WatchdogTimers => "Watchdog Timers"@,
        HgroupType::Authentication => "Authentication"@,
        HgroupType::Sim => "SIM"@,
        HgroupType::SicDiodes => "SiC Diodes"@,
        HgroupType::SicMosfets => "SiC MOSFETs"@,
        HgroupType::LeoRadHardIcs => "LEO Rad-Hard ICs"@,
        HgroupType::RadHardAnalogIcs => "Rad-Hard Analog ICs"@,
        HgroupType::RadHardAsicPlatforms => "Rad-Hard ASIC Platforms"@,
        HgroupType::RadHardDiscretes => "Rad-Hard Discretes"@,
        HgroupType::RadHardInterfaces => "Rad-Hard Interfaces"@,
        HgroupType::RadHardLogicIcs => "Rad-Hard Logic ICs"@,
        HgroupType::RadHardPowerManagement => "Rad-Hard Power Management"@,
        HgroupType::Switches => "Switches"@,
        HgroupType::Multiplexers => "Multiplexers"@,
        HgroupType::Thyristors => "Thyristors"@,
        HgroupType::Triacs => "Triacs"@,
        HgroupType::LongRange => "Long Range"@,
        HgroupType::RfFrontEnd => "RF Front-end"@,
        HgroupType::RfSolutions => "RF Solutions"@,
        HgroupType::ShortRange => "Short Range"@,
    }
}

impl HgroupType {
    /// The predefined hardware part group called `s`; `Err(())` when `s` names none.
    pub fn from_name(s: &str) -> (r: Result<HgroupType, ()>)
        ensures
            match r {
                Ok(c) => hgroup_type_name(c) == s@,
                Err(()) => forall|c: HgroupType| #[trigger] hgroup_type_name(c) != s@,
            },
    {
        if str_eq(s, "Comparators") {
            Ok(HgroupType::Comparators)
        } else if str_eq(s, "Current Sensing") {
            Ok(HgroupType::CurrentSensing)
        } else if str_eq(s, "Op Amp") {
            Ok(HgroupType::OpAmp)
        } else if str_eq(s, "Power Op Amp") {
            Ok(HgroupType::PowerOpAmp)
        } else if str_eq(s, "Video Amplifiers") {
            Ok(HgroupType::VideoAmplifiers)
        } else if str_eq(s, "Amplifiers") {
            Ok(HgroupType::Amplifiers)
        } else if str_eq(s, "MEMS Sensor") {
            Ok(HgroupType::MemsSensor)
        } else if str_eq(s, "Processors") {
            Ok(HgroupType::Processors)
        } else if str_eq(s, "Sound Terminal ICs") {
            Ok(HgroupType::SoundTerminalIcs)
        } else if str_eq(s, "ADAS (Advanced Driver Assistance Systems)") {
            Ok(HgroupType::Adas)
        } else if str_eq(s, "Analog and Power") {
            Ok(HgroupType::AnalogAndPower)
        } else if str_eq(s, "Infotainment and Telematics") {
            Ok(HgroupType::InfotainmentAndTelematics)
        } else if str_eq(s, "Logic ICs") {
            Ok(HgroupType::LogicIcs)
        } else if str_eq(s, "Microcontrollers") {
            Ok(HgroupType::Microcontrollers)
        } else if str_eq(s, "RTC") {
            Ok(HgroupType::Rtc)
        } else if str_eq(s, "Timers") {
            Ok(HgroupType::Timers)
        } else if str_eq(s, "A2D - D2A") {
            Ok(HgroupType::A2dD2a)
        } else if str_eq(s, "Isolated ADCs") {
            Ok(HgroupType::IsolatedAdcs)
        } else if str_eq(s, "Metering ICs") {
            Ok(HgroupType::MeteringIcs)
        } else if str_eq(s, "Demodulators and Tuners") {
            Ok(HgroupType::DemodulatorsAndTuners)
        } else if str_eq(s, "Set-Top-Box Processors") {
            Ok(HgroupType::SetTopBoxProcessors)
        } else if str_eq(s, "Diodes") {
            Ok(HgroupType::Diodes)
        } else if str_eq(s, "Rectifiers") {
            Ok(HgroupType::Rectifiers)
        } else if str_eq(s, "Ambient Light Sensors") {
            Ok(HgroupType::AmbientLightSensors)
        } else if str_eq(s, "Image Sensors") {
            Ok(HgroupType::ImageSensors)
        } else if str_eq(s, "Imaging Processors") {
            Ok(HgroupType::ImagingProcessors)
        } else if str_eq(s, "Time-of-Flight Sensors") {
            Ok(HgroupType::TimeOfFlightSensors)
        } else if str_eq(s, "Interfaces") {
            Ok(HgroupType::Interfaces)
        } else if str_eq(s, "I/O Expanders") {
            Ok(HgroupType::IoExpanders)
        } else if str_eq(s, "Level Translators") {
            Ok(HgroupType::LevelTranslators)
        } else if str_eq(s, "Transceivers") {
            Ok(HgroupType::Transceivers)
        } else if str_eq(s, "EEPROM") {
            Ok(HgroupType::Eeprom)
        } else if str_eq(s, "Flash") {
            Ok(HgroupType::Flash)
        } else if str_eq(s, "RAM") {
            Ok(HgroupType::Ram)
        } else if str_eq(s, "Environmental") {
            Ok(HgroupType::Environmental)
        } else if str_eq(s, "Infrared") {
            Ok(HgroupType::Infrared)
        } else if str_eq(s, "MEMS Hybrid") {
            Ok(HgroupType::MemsHybrid)
        } else if str_eq(s, "MEMS Microphone") {
            Ok(HgroupType::MemsMicrophone)
        } else if str_eq(s, "MEMS Motion") {
            Ok(HgroupType::MemsMotion)
        } else if str_eq(s, "Proximity") {
            Ok(HgroupType::Proximity)
        } else if str_eq(s, "Brushed") {
            Ok(HgroupType::Brushed)
        } else if str_eq(s, "Brushless") {
            Ok(HgroupType::Brushless)
        } else if str_eq(s, "Gate Drivers") {
            Ok(HgroupType::GateDrivers)
        } else if str_eq(s, "Stepper") {
            Ok(HgroupType::Stepper)
        } else if str_eq(s, "Secure") {
            Ok(HgroupType::Secure)
        } else if str_eq(s, "Reader") {
            Ok(HgroupType::Reader)
        } else if str_eq(s, "Tag") {
            Ok(HgroupType::Tag)
        } else if str_eq(s, "Tag and Reader") {
            Ok(HgroupType::TagAndReader)
        } else if str_eq(s, "GNSS ICs") {
            Ok(HgroupType::GnssIcs)
        } else if str_eq(s, "GNSS Modules") {
            Ok(HgroupType::GnssModules)
        } else if str_eq(s, "AC-DC Converters") {
            Ok(HgroupType::AcDcConverters)
        } else if str_eq(s, "Battery Management ICs") {
            Ok(HgroupType::BatteryManagementIcs)
        } else if str_eq(s, "DC-DC Switching Converters") {
            Ok(HgroupType::DcDcSwitchingConverters)
        } else if str_eq(s, "Display Supplies and Controllers") {
            Ok(HgroupType::DisplaySuppliesAndControllers)
        } else if str_eq(s, "eFuses and hot-swap ICs") {
            Ok(HgroupType::EFusesAndHotSwapIcs)
        } else if str_eq(s, "Energy Harvesting") {
            Ok(HgroupType::EnergyHarvesting)
        } else if str_eq(s, "GaN Power ICs") {
            Ok(HgroupType::GanPowerIcs)
        } else if str_eq(s, "High-Density Power Drivers") {
            Ok(HgroupType::HighDensityPowerDrivers)
        } else if str_eq(s, "Intelligent Power Switches") {
            Ok(HgroupType::IntelligentPowerSwitches)
        } else if str_eq(s, "LED Drivers") {
            Ok(HgroupType::LedDrivers)
        } else if str_eq(s, "Lighting ICs") {
            Ok(HgroupType::LightingIcs)
        } else if str_eq(s, "Linear Voltage Regulators") {
            Ok(HgroupType::LinearVoltageRegulators)
        } else if str_eq(s, "LNB Supplies") {
            Ok(HgroupType::LnbSupplies)
        } else if str_eq(s, "Photovoltaic ICs") {
            Ok(HgroupType::PhotovoltaicIcs)
        } else if str_eq(s, "Power Over Ethernet ICs") {
            Ok(HgroupType::PowerOverEthernetIcs)
        } else if str_eq(s, "Voltage References") {
            Ok(HgroupType::VoltageReferences)
        } else if str_eq(s, "Wireless Charger ICs") {
            Ok(HgroupType::WirelessChargerIcs)
        } else if str_eq(s, "ACEPACK") {
            Ok(HgroupType::Acepack)
        } else if str_eq(s, "SLLIMM") {
            Ok(HgroupType::Sllimm)
        } else if str_eq(s, "IGBTs") {
            Ok(HgroupType::Igbts)
        } else if str_eq(s, "Bipolar") {
            Ok(HgroupType::Bipolar)
        } else if str_eq(s, "MOSFETs") {
            Ok(HgroupType::Mosfets)
        } else if str_eq(s, "Wide Bandgap") {
            Ok(HgroupType::WideBandgap)
        } else if str_eq(s, "ASIP") {
            Ok(HgroupType::Asip)
        } else if str_eq(s, "EMI Filters") {
            Ok(HgroupType::EmiFilters)
        } else if str_eq(s, "TSS") {
            Ok(HgroupType::Tss)
        } else if str_eq(s, "TVS") {
            Ok(HgroupType::Tvs)
        } else if str_eq(s, "RF DMOS") {
            Ok(HgroupType::RfDmos)
        } else if str_eq(s, "RF LDMOS") {
            Ok(HgroupType::RfLdmos)
        } else if str_eq(s, "Microprocessor Supervisors") {
            Ok(HgroupType::MicroprocessorSupervisors)
        } else if str_eq(s, "On-Off Controllers") {
            Ok(HgroupType::OnOffControllers)
        } else if str_eq(s, "Reset and Voltage Detectors") {
            Ok(HgroupType::ResetAndVoltageDetectors)
        } else if str_eq(s, "Smart Reset ICs") {
            Ok(HgroupType::SmartResetIcs)
        } else if str_eq(s, "Voltage Protection ICs") {
            Ok(HgroupType::VoltageProtectionIcs)
        } else if str_eq(s, "Watchdog Timers") {
            Ok(HgroupType::WatchdogTimers)
        } else if str_eq(s, "Authentication") {
            Ok(HgroupType::Authentication)
        } else if str_eq(s, "SIM") {
            Ok(HgroupType::Sim)
        } else if str_eq(s, "SiC Diodes") {
            Ok(HgroupType::SicDiodes)
        } else if str_eq(s, "SiC MOSFETs") {
            Ok(HgroupType::SicMosfets)
        } else if str_eq(s, "LEO Rad-Hard ICs") {
            Ok(HgroupType::LeoRadHardIcs)
        } else if str_eq(s, "Rad-Hard Analog ICs") {
            Ok(HgroupType::RadHardAnalogIcs)
        } else if str_eq(s, "Rad-Hard ASIC Platforms") {
            Ok(HgroupType::RadHardAsicPlatforms)
        } else if str_eq(s, "Rad-Hard Discretes") {
            Ok(HgroupType::RadHardDiscretes)
        } else if str_eq(s, "Rad-Hard Interfaces") {
            Ok(HgroupType::RadHardInterfaces)
        } else if str_eq(s, "Rad-Hard Logic ICs") {
            Ok(HgroupType::RadHardLogicIcs)
        } else if str_eq(s, "Rad-Hard Power Management") {
            Ok(HgroupType::RadHardPowerManagement)
        } else if str_eq(s, "Switches") {
            Ok(HgroupType::Switches)
        } else if str_eq(s, "Multiplexers") {
            Ok(HgroupType::Multiplexers)
        } else if str_eq(s, "Thyristors") {
            Ok(HgroupType::Thyristors)
        } else if str_eq(s, "Triacs") {
            Ok(HgroupType::Triacs)
        } else if str_eq(s, "Long Range") {
            Ok(HgroupType::LongRange)
        } else if str_eq(s, "RF Front-end") {
            Ok(HgroupType::RfFrontEnd)
        } else if str_eq(s, "RF Solutions") {
            Ok(HgroupType::RfSolutions)
        } else if str_eq(s, "Short Range") {
            Ok(HgroupType::ShortRange)
        } else {
            Err(())
        }
    }
}

impl<'a> TryFrom<&'a str> for HgroupType {
    type Error = ();

    fn try_from(s: &'a str) -> (r: Result<HgroupType, ()>)
        ensures
            match r {
                Ok(c) => hgroup_type_name(c) == s@,
                Err(()) => forall|c: HgroupType| #[trigger] hgroup_type_name(c) != s@,
            },
    {
        HgroupType::from_name(s)
    }
}

impl<'a> vstd::std_specs::convert::TryFromSpecImpl<&'a str> for HgroupType {
    open spec fn obeys_try_from_spec() -> bool {
        false
    }

    open spec fn try_from_spec(s: &'a str) -> Result<HgroupType, ()> {
        Err(())
    }
}

impl TryFrom<String> for HgroupType {
    type Error = ();

    fn try_from(s: String) -> (r: Result<HgroupType, ()>)
        ensures
            match r {
                Ok(c) => hgroup_type_name(c) == s@,
                Err(()) => forall|c: HgroupType| #[trigger] hgroup_type_name(c) != s@,
            },
    {
        HgroupType::from_name(s.as_str())
    }
}

impl vstd::std_specs::convert::TryFromSpecImpl<String> for HgroupType {
    open spec fn obeys_try_from_spec() -> bool {
        false
    }

    open spec fn try_from_spec(s: String) -> Result<HgroupType, ()> {
        Err(())
    }
}

/// The predefined hardware part class named `s`, if there is one.
pub open spec fn hclass_named(s: Seq<char>) -> Option<HclassType> {
    if s == "Amplifiers and Comparators"@ {
        Some(HclassType::AmplifiersAndComparators)
    } else if s == "Audio ICs"@ {
        Some(HclassType::AudioIcs)
    } else if s == "Automotive"@ {
        Some(HclassType::Automotive)
    } else if s == "Clocks and Timers"@ {
        Some(HclassType::ClocksAndTimers)
    } else if s == "Data Converters"@ {
        Some(HclassType::DataConverters)
    } else if s == "Digital Set-Top Box ICs"@ {
        Some(HclassType::DigitalSetTopBoxIcs)
    } else if s == "Diodes and Rectifiers"@ {
        Some(HclassType::DiodesAndRectifiers)
    } else if s == "Imaging and Photonics Devices"@ {
        Some(HclassType::ImagingAndPhotonicsDevices)
    } else if s == "Interfaces and Transceivers"@ {
        Some(HclassType::InterfacesAndTransceivers)
    } else if s == "Memories"@ {
        Some(HclassType::Memories)
    } else if s == "MEMS and Sensors"@ {
        Some(HclassType::MemsAndSensors)
    } else if s == "Motor Drivers"@ {
        Some(HclassType::MotorDrivers)
    } else if s == "NFC"@ {
        Some(HclassType::Nfc)
    } else if s == "Other"@ {
        Some(HclassType::Other)
    } else if s == "Positioning"@ {
        Some(HclassType::Positioning)
    } else if s == "Power Management"@ {
        Some(HclassType::PowerManagement)
    } else if s == "Power Modules"@ {
        Some(HclassType::PowerModules)
    } else if s == "Power Transistors"@ {
        Some(HclassType::PowerTransistors)
    } else if s == "Protections"@ {
        Some(HclassType::Protections)
    } else if s == "Radio Frequency"@ {
        Some(HclassType::RadioFrequency)
    } else if s == "Reset and Supervisor ICs"@ {
        Some(HclassType::ResetAndSupervisorIcs)
    } else if s == "Secure MCUs"@ {
        Some(HclassType::SecureMcus)
    } else if s == "SiC Devices"@ {
        Some(HclassType::SicDevices)
    } else if s == "Space Devices"@ {
        Some(HclassType::SpaceDevices)
    } else if s == "Switches and Multiplexers"@ {
        Some(HclassType::SwitchesAndMultiplexers)
    } else if s == "Thyristors and AC Switches"@ {
        Some(HclassType::ThyristorsAndAcSwitches)
    } else if s == "Touch and Display Controllers"@ {
        Some(HclassType::TouchAndDisplayControllers)
    } else if s == "Wireless"@ {
        Some(HclassType::Wireless)
    } else {
        None
    }
}

/// Each predefined hardware part class is the one its name names.
pub proof fn lemma_hclass_named(c: HclassType)
    ensures
        hclass_named(hclass_type_name(c)) == Some(c),
{
    // Each name's length, and the characters that tell it from the names
    // of the same length.
    reveal_strlit("Amplifiers and Comparators");
    assert({
        &&& "Amplifiers and Comparators"@.len() == 26
        &&& "Amplifiers and Comparators"@[0] == 'A'
    });
    reveal_strlit("Audio ICs");
    assert("Audio ICs"@.len() == 9);
    reveal_strlit("Automotive");
    assert("Automotive"@.len() == 10);
    reveal_strlit("Clocks and Timers");
    assert({
        &&& "Clocks and Timers"@.len() == 17
        &&& "Clocks and Timers"@[0] == 'C'
    });
    reveal_strlit("Data Converters");
    assert({
        &&& "Data Converters"@.len() == 15
        &&& "Data Converters"@[0] == 'D'
    });
    reveal_strlit("Digital Set-Top Box ICs");
    assert("Digital Set-Top Box ICs"@.len() == 23);
    reveal_strlit("Diodes and Rectifiers");
    assert("Diodes and Rectifiers"@.len() == 21);
    reveal_strlit("Imaging and Photonics Devices");
    assert({
        &&& "Imaging and Photonics Devices"@.len() == 29
        &&& "Imaging and Photonics Devices"@[0] == 'I'
    });
    reveal_strlit("Interfaces and Transceivers");
    assert("Interfaces and Transceivers"@.len() == 27);
    reveal_strlit("Memories");
    assert({
        &&& "Memories"@.len() == 8
        &&& "Memories"@[0] == 'M'
    });
    reveal_strlit("MEMS and Sensors");
    assert({
        &&& "MEMS and Sensors"@.len() == 16
        &&& "MEMS and Sensors"@[0] == 'M'
    });
    reveal_strlit("Motor Drivers");
    assert({
        &&& "Motor Drivers"@.len() == 13
        &&& "Motor Drivers"@[0] == 'M'
    });
    reveal_strlit("NFC");
    assert("NFC"@.len() == 3);
    reveal_strlit("Other");
    assert("Other"@.len() == 5);
    reveal_strlit("Positioning");
    assert({
        &&& "Positioning"@.len() == 11
        &&& "Positioning"@[0] == 'P'
        &&& "Positioning"@[1] == 'o'
    });
    reveal_strlit("Power Management");
    assert({
        &&& "Power Management"@.len() == 16
        &&& "Power Management"@[0] == 'P'
    });
    reveal_strlit("Power Modules");
    assert({
        &&& "Power Modules"@.len() == 13
        &&& "Power Modules"@[0] == 'P'
    });
    reveal_strlit("Power Transistors");
    assert({
        &&& "Power Transistors"@.len() == 17
        &&& "Power Transistors"@[0] == 'P'
    });
    reveal_strlit("Protections");
    assert({
        &&& "Protections"@.len() == 11
        &&& "Protections"@[0] == 'P'
        &&& "Protections"@[1] == 'r'
    });
    reveal_strlit("Radio Frequency");
    assert({
        &&& "Radio Frequency"@.len() == 15
        &&& "Radio Frequency"@[0] == 'R'
    });
    reveal_strlit("Reset and Supervisor ICs");
    assert("Reset and Supervisor ICs"@.len() == 24);
    reveal_strlit("Secure MCUs");
    assert({
        &&& "Secure MCUs"@.len() == 11
        &&& "Secure MCUs"@[0] == 'S'
        &&& "Secure MCUs"@[1] == 'e'
    });
    reveal_strlit("SiC Devices");
    assert({
        &&& "SiC Devices"@.len() == 11
        &&& "SiC Devices"@[0] == 'S'
        &&& "SiC Devices"@[1] == 'i'
    });
    reveal_strlit("Space Devices");
    assert({
        &&& "Space Devices"@.len() == 13
        &&& "Space Devices"@[0] == 'S'
    });
    reveal_strlit("Switches and Multiplexers");
    assert("Switches and Multiplexers"@.len() == 25);
    reveal_strlit("Thyristors and AC Switches");
    assert({
        &&& "Thyristors and AC Switches"@.len() == 26
        &&& "Thyristors and AC Switches"@[0] == 'T'
    });
    reveal_strlit("Touch and Display Controllers");
    assert({
        &&& "Touch and Display Controllers"@.len() == 29
        &&& "Touch and Display Controllers"@[0] == 'T'
    });
    reveal_strlit("Wireless");
    assert({
        &&& "Wireless"@.len() == 8
        &&& "Wireless"@[0] == 'W'
    });
    match c {
        HclassType::AmplifiersAndComparators => {},
        HclassType::AudioIcs => {},
        HclassType::Automotive => {},
        HclassType::ClocksAndTimers => {},
        HclassType::DataConverters => {},
        HclassType::DigitalSetTopBoxIcs => {},
        HclassType::DiodesAndRectifiers => {},
        HclassType::ImagingAndPhotonicsDevices => {},
        HclassType::InterfacesAndTransceivers => {},
        HclassType::Memories => {},
        HclassType::MemsAndSensors => {},
        HclassType::MotorDrivers => {},
        HclassType::Nfc => {},
        HclassType::Other => {},
        HclassType::Positioning => {},
        HclassType::PowerManagement => {},
        HclassType::PowerModules => {},
        HclassType::PowerTransistors => {},
        HclassType::Protections => {},
        HclassType::RadioFrequency => {},
        HclassType::ResetAndSupervisorIcs => {},
        HclassType::SecureMcus => {},
        HclassType::SicDevices => {},
        HclassType::SpaceDevices => {},
        HclassType::SwitchesAndMultiplexers => {},
        HclassType::ThyristorsAndAcSwitches => {},
        HclassType::TouchAndDisplayControllers => {},
        HclassType::Wireless => {},
    }
}

/// No two predefined hardware part classs share a name: the names are one-to-one, so
/// a hardware part class read by name is the only one with that name.
pub proof fn lemma_hclass_names_distinct(a: HclassType, b: HclassType)
    requires
        hclass_type_name(a) == hclass_type_name(b),
    ensures
        a == b,
{
    lemma_hclass_named(a);
    lemma_hclass_named(b);
}

/// The predefined hardware part group named `s`, if there is one.
pub open spec fn hgroup_named(s: Seq<char>) -> Option<HgroupType> {
    if s == "Comparators"@ {
        Some(HgroupType::Comparators)
    } else if s == "Current Sensing"@ {
        Some(HgroupType::CurrentSensing)
    } else if s == "Op Amp"@ {
        Some(HgroupType::OpAmp)
    } else if s == "Power Op Amp"@ {
        Some(HgroupType::PowerOpAmp)
    } else if s == "Video Amplifiers"@ {
        Some(HgroupType::VideoAmplifiers)
    } else if s == "Amplifiers"@ {
        Some(HgroupType::Amplifiers)
    } else if s == "MEMS Sensor"@ {
        Some(HgroupType::MemsSensor)
    } else if s == "Processors"@ {
        Some(HgroupType::Processors)
    } else if s == "Sound Terminal ICs"@ {
        Some(HgroupType::SoundTerminalIcs)
    } else if s == "ADAS (Advanced Driver Assistance Systems)"@ {
        Some(HgroupType::Adas)
    } else if s == "Analog and Power"@ {
        Some(HgroupType::AnalogAndPower)
    } else if s == "Infotainment and Telematics"@ {
        Some(HgroupType::InfotainmentAndTelematics)
    } else if s == "Logic ICs"@ {
        Some(HgroupType::LogicIcs)
    } else if s == "Microcontrollers"@ {
        Some(HgroupType::Microcontrollers)
    } else if s == "RTC"@ {
        Some(HgroupType::Rtc)
    } else if s == "Timers"@ {
        Some(HgroupType::Timers)
    } else if s == "A2D - D2A"@ {
        Some(HgroupType::A2dD2a)
    } else if s == "Isolated ADCs"@ {
        Some(HgroupType::IsolatedAdcs)
    } else if s == "Metering ICs"@ {
        Some(HgroupType::MeteringIcs)
    } else if s == "Demodulators and Tuners"@ {
        Some(HgroupType::DemodulatorsAndTuners)
    } else if s == "Set-Top-Box Processors"@ {
        Some(HgroupType::SetTopBoxProcessors)
    } else if s == "Diodes"@ {
        Some(HgroupType::Diodes)
    } else if s == "Rectifiers"@ {
        Some(HgroupType::Rectifiers)
    } else if s == "Ambient Light Sensors"@ {
        Some(HgroupType::AmbientLightSensors)
    } else if s == "Image Sensors"@ {
        Some(HgroupType::ImageSensors)
    } else if s == "Imaging Processors"@ {
        Some(HgroupType::ImagingProcessors)
    } else if s == "Time-of-Flight Sensors"@ {
        Some(HgroupType::TimeOfFlightSensors)
    } else if s == "Interfaces"@ {
        Some(HgroupType::Interfaces)
    } else if s == "I/O Expanders"@ {
        Some(HgroupType::IoExpanders)
    } else if s == "Level Translators"@ {
        Some(HgroupType::LevelTranslators)
    } else if s == "Transceivers"@ {
        Some(HgroupType::Transceivers)
    } else if s == "EEPROM"@ {
        Some(HgroupType::Eeprom)
    } else if s == "Flash"@ {
        Some(HgroupType::Flash)
    } else if s == "RAM"@ {
        Some(HgroupType::Ram)
    } else if s == "Environmental"@ {
        Some(HgroupType::Environmental)
    } else if s == "Infrared"@ {
        Some(HgroupType::Infrared)
    } else if s == "MEMS Hybrid"@ {
        Some(HgroupType::MemsHybrid)
    } else if s == "MEMS Microphone"@ {
        Some(HgroupType::MemsMicrophone)
    } else if s == "MEMS Motion"@ {
        Some(HgroupType::MemsMotion)
    } else if s == "Proximity"@ {
        Some(HgroupType::Proximity)
    } else if s == "Brushed"@ {
        Some(HgroupType::Brushed)
    } else if s == "Brushless"@ {
        Some(HgroupType::Brushless)
    } else if s == "Gate Drivers"@ {
        Some(HgroupType::GateDrivers)
    } else if s == "Stepper"@ {
        Some(HgroupType::Stepper)
    } else if s == "Secure"@ {
        Some(HgroupType::Secure)
    } else if s == "Reader"@ {
        Some(HgroupType::Reader)
    } else if s == "Tag"@ {
        Some(HgroupType::Tag)
    } else if s == "Tag and Reader"@ {
        Some(HgroupType::TagAndReader)
    } else if s == "GNSS ICs"@ {
        Some(HgroupType::GnssIcs)
    } else if s == "GNSS Modules"@ {
        Some(HgroupType::GnssModules)
    } else if s == "AC-DC Converters"@ {
        Some(HgroupType::AcDcConverters)
    } else if s == "Battery Management ICs"@ {
        Some(HgroupType::BatteryManagementIcs)
    } else if s == "DC-DC Switching Converters"@ {
        Some(HgroupType::DcDcSwitchingConverters)
    } else if s == "Display Supplies and Controllers"@ {
        Some(HgroupType::DisplaySuppliesAndControllers)
    } else if s == "eFuses and hot-swap ICs"@ {
        Some(HgroupType::EFusesAndHotSwapIcs)
    } else if s == "Energy Harvesting"@ {
        Some(HgroupType::EnergyHarvesting)
    } else if s == "GaN Power ICs"@ {
        Some(HgroupType::GanPowerIcs)
    } else if s == "High-Density Power Drivers"@ {
        Some(HgroupType::HighDensityPowerDrivers)
    } else if s == "Intelligent Power Switches"@ {
        Some(HgroupType::IntelligentPowerSwitches)
    } else if s == "LED Drivers"@ {
        Some(HgroupType::LedDrivers)
    } else if s == "Lighting ICs"@ {
        Some(HgroupType::LightingIcs)
    } else if s == "Linear Voltage Regulators"@ {
        Some(HgroupType::LinearVoltageRegulators)
    } else if s == "LNB Supplies"@ {
        Some(HgroupType::LnbSupplies)
    } else if s == "Photovoltaic ICs"@ {
        Some(HgroupType::PhotovoltaicIcs)
    } else if s == "Power Over Ethernet ICs"@ {
        Some(HgroupType::PowerOverEthernetIcs)
    } else if s == "Voltage References"@ {
        Some(HgroupType::VoltageReferences)
    } else if s == "Wireless Charger ICs"@ {
        Some(HgroupType::WirelessChargerIcs)
    } else if s == "ACEPACK"@ {
        Some(HgroupType::Acepack)
    } else if s == "SLLIMM"@ {
        Some(HgroupType::Sllimm)
    } else if s == "IGBTs"@ {
        Some(HgroupType::Igbts)
    } else if s == "Bipolar"@ {
        Some(HgroupType::Bipolar)
    } else if s == "MOSFETs"@ {
        Some(HgroupType::Mosfets)
    } else if s == "Wide Bandgap"@ {
        Some(HgroupType::WideBandgap)
    } else if s == "ASIP"@ {
        Some(HgroupType::Asip)
    } else if s == "EMI Filters"@ {
        Some(HgroupType::EmiFilters)
    } else if s == "TSS"@ {
        Some(HgroupType::Tss)
    } else if s == "TVS"@ {
        Some(HgroupType::Tvs)
    } else if s == "RF DMOS"@ {
        Some(HgroupType::RfDmos)
    } else if s == "RF LDMOS"@ {
        Some(HgroupType::RfLdmos)
    } else if s == "Microprocessor Supervisors"@ {
        Some(HgroupType::MicroprocessorSupervisors)
    } else if s == "On-Off Controllers"@ {
        Some(HgroupType::OnOffControllers)
    } else if s == "Reset and Voltage Detectors"@ {
        Some(HgroupType::ResetAndVoltageDetectors)
    } else if s == "Smart Reset ICs"@ {
        Some(HgroupType::SmartResetIcs)
    } else if s == "Voltage Protection ICs"@ {
        Some(HgroupType::VoltageProtectionIcs)
    } else if s == "Watchdog Timers"@ {
        Some(HgroupType::WatchdogTimers)
    } else if s == "Authentication"@ {
        Some(HgroupType::Authentication)
    } else if s == "SIM"@ {
        Some(HgroupType::Sim)
    } else if s == "SiC Diodes"@ {
        Some(HgroupType::SicDiodes)
    } else if s == "SiC MOSFETs"@ {
        Some(HgroupType::SicMosfets)
    } else if s == "LEO Rad-Hard ICs"@ {
        Some(HgroupType::LeoRadHardIcs)
    } else if s == "Rad-Hard Analog ICs"@ {
        Some(HgroupType::RadHardAnalogIcs)
    } else if s == "Rad-Hard ASIC Platforms"@ {
        Some(HgroupType::RadHardAsicPlatforms)
    } else if s == "Rad-Hard Discretes"@ {
        Some(HgroupType::RadHardDiscretes)
    } else if s == "Rad-Hard Interfaces"@ {
        Some(HgroupType::RadHardInterfaces)
    } else if s == "Rad-Hard Logic ICs"@ {
        Some(HgroupType::RadHardLogicIcs)
    } else if s == "Rad-Hard Power Management"@ {
        Some(HgroupType::RadHardPowerManagement)
    } else if s == "Switches"@ {
        Some(HgroupType::Switches)
    } else if s == "Multiplexers"@ {
        Some(HgroupType::Multiplexers)
    } else if s == "Thyristors"@ {
        Some(HgroupType::Thyristors)
    } else if s == "Triacs"@ {
        Some(HgroupType::Triacs)
    } else if s == "Long Range"@ {
        Some(HgroupType::LongRange)
    } else if s == "RF Front-end"@ {
        Some(HgroupType::RfFrontEnd)
    } else if s == "RF Solutions"@ {
        Some(HgroupType::RfSolutions)
    } else if s == "Short Range"@ {
        Some(HgroupType::ShortRange)
    } else {
        None
    }
}

/// Each predefined hardware part group is the one its name names.
pub proof fn lemma_hgroup_named(c: HgroupType)
    ensures
        hgroup_named(hgroup_type_name(c)) == Some(c),
{
    // Each name's length, and the characters that tell it from the names
    // of the same length.
    reveal_strlit("Comparators");
    assert({
        &&& "Comparators"@.len() == 11
        &&& "Comparators"@[0] == 'C'
    });
    reveal_strlit("Current Sensing");
    assert({
        &&& "Current Sensing"@.len() == 15
        &&& "Current Sensing"@[0] == 'C'
    });
    reveal_strlit("Op Amp");
    assert({
        &&& "Op Amp"@.len() == 6
        &&& "Op Amp"@[0] == 'O'
    });
    reveal_strlit("Power Op Amp");
    assert({
        &&& "Power Op Amp"@.len() == 12
        &&& "Power Op Amp"@[0] == 'P'
    });
    reveal_strlit("Video Amplifiers");
    assert({
        &&& "Video Amplifiers"@.len() == 16
        &&& "Video Amplifiers"@[0] == 'V'
    });
    reveal_strlit("Amplifiers");
    assert({
        &&& "Amplifiers"@.len() == 10
        &&& "Amplifiers"@[0] == 'A'
    });
    reveal_strlit("MEMS Sensor");
    assert({
        &&& "MEMS Sensor"@.len() == 11
        &&& "MEMS Sensor"@[0] == 'M'
        &&& "MEMS Sensor"@[5] == 'S'
    });
    reveal_strlit("Processors");
    assert({
        &&& "Processors"@.len() == 10
        &&& "Processors"@[0] == 'P'
    });
    reveal_strlit("Sound Terminal ICs");
    assert({
        &&& "Sound Terminal ICs"@.len() == 18
        &&& "Sound Terminal ICs"@[0] == 'S'
    });
    reveal_strlit("ADAS (Advanced Driver Assistance Systems)");
    assert("ADAS (Advanced Driver Assistance Systems)"@.len() == 41);
    reveal_strlit("Analog and Power");
    assert({
        &&& "Analog and Power"@.len() == 16
        &&& "Analog and Power"@[0] == 'A'
        &&& "Analog and Power"@[1] == 'n'
    });
    reveal_strlit("Infotainment and Telematics");
    assert({
        &&& "Infotainment and Telematics"@.len() == 27
        &&& "Infotainment and Telematics"@[0] == 'I'
    });
    reveal_strlit("Logic ICs");
    assert({
        &&& "Logic ICs"@.len() == 9
        &&& "Logic ICs"@[0] == 'L'
    });
    reveal_strlit("Microcontrollers");
    assert({
        &&& "Microcontrollers"@.len() == 16
        &&& "Microcontrollers"@[0] == 'M'
    });
    reveal_strlit("RTC");
    assert({
        &&& "RTC"@.len() == 3
        &&& "RTC"@[0] == 'R'
        &&& "RTC"@[1] == 'T'
    });
    reveal_strlit("Timers");
    assert({
        &&& "Timers"@.len() == 6
        &&& "Timers"@[0] == 'T'
        &&& "Timers"@[1] == 'i'
    });
    reveal_strlit("A2D - D2A");
    assert({
        &&& "A2D - D2A"@.len() == 9
        &&& "A2D - D2A"@[0] == 'A'
    });
    reveal_strlit("Isolated ADCs");
    assert({
        &&& "Isolated ADCs"@.len() == 13
        &&& "Isolated ADCs"@[0] == 'I'
        &&& "Isolated ADCs"@[1] == 's'
    });
    reveal_strlit("Metering ICs");
    assert({
        &&& "Metering ICs"@.len() == 12
        &&& "Metering ICs"@[0] == 'M'
        &&& "Metering ICs"@[1] == 'e'
    });
    reveal_strlit("Demodulators and Tuners");
    assert({
        &&& "Demodulators and Tuners"@.len() == 23
        &&& "Demodulators and Tuners"@[0] == 'D'
    });
    reveal_strlit("Set-Top-Box Processors");
    assert({
        &&& "Set-Top-Box Processors"@.len() == 22
        &&& "Set-Top-Box Processors"@[0] == 'S'
    });
    reveal_strlit("Diodes");
    assert({
        &&& "Diodes"@.len() == 6
        &&& "Diodes"@[0] == 'D'
    });
    reveal_strlit("Rectifiers");
    assert({
        &&& "Rectifiers"@.len() == 10
        &&& "Rectifiers"@[0] == 'R'
    });
    reveal_strlit("Ambient Light Sensors");
    assert("Ambient Light Sensors"@.len() == 21);
    reveal_strlit("Image Sensors");
    assert({
        &&& "Image Sensors"@.len() == 13
        &&& "Image Sensors"@[0] == 'I'
        &&& "Image Sensors"@[1] == 'm'
    });
    reveal_strlit("Imaging Processors");
    assert({
        &&& "Imaging Processors"@.len() == 18
        &&& "Imaging Processors"@[0] == 'I'
    });
    reveal_strlit("Time-of-Flight Sensors");
    assert({
        &&& "Time-of-Flight Sensors"@.len() == 22
        &&& "Time-of-Flight Sensors"@[0] == 'T'
    });
    reveal_strlit("Interfaces");
    assert({
        &&& "Interfaces"@.len() == 10
        &&& "Interfaces"@[0] == 'I'
    });
    reveal_strlit("I/O Expanders");
    assert({
        &&& "I/O Expanders"@.len() == 13
        &&& "I/O Expanders"@[0] == 'I'
        &&& "I/O Expanders"@[1] == '/'
    });
    reveal_strlit("Level Translators");
    assert({
        &&& "Level Translators"@.len() == 17
        &&& "Level Translators"@[0] == 'L'
    });
    reveal_strlit("Transceivers");
    assert({
        &&& "Transceivers"@.len() == 12
        &&& "Transceivers"@[0] == 'T'
    });
    reveal_strlit("EEPROM");
    assert({
        &&& "EEPROM"@.len() == 6
        &&& "EEPROM"@[0] == 'E'
    });
    reveal_strlit("Flash");
    assert({
        &&& "Flash"@.len() == 5
        &&& "Flash"@[0] == 'F'
    });
    reveal_strlit("RAM");
    assert({
        &&& "RAM"@.len() == 3
        &&& "RAM"@[0] == 'R'
        &&& "RAM"@[1] == 'A'
    });
    reveal_strlit("Environmental");
    assert({
        &&& "Environmental"@.len() == 13
        &&& "Environmental"@[0] == 'E'
    });
    reveal_strlit("Infrared");
    assert({
        &&& "Infrared"@.len() == 8
        &&& "Infrared"@[0] == 'I'
    });
    reveal_strlit("MEMS Hybrid");
    assert({
        &&& "MEMS Hybrid"@.len() == 11
        &&& "MEMS Hybrid"@[0] == 'M'
        &&& "MEMS Hybrid"@[5] == 'H'
    });
    reveal_strlit("MEMS Microphone");
    assert({
        &&& "MEMS Microphone"@.len() == 15
        &&& "MEMS Microphone"@[0] == 'M'
    });
    reveal_strlit("MEMS Motion");
    assert({
        &&& "MEMS Motion"@.len() == 11
        &&& "MEMS Motion"@[0] == 'M'
        &&& "MEMS Motion"@[5] == 'M'
    });
    reveal_strlit("Proximity");
    assert({
        &&& "Proximity"@.len() == 9
        &&& "Proximity"@[0] == 'P'
    });
    reveal_strlit("Brushed");
    assert({
        &&& "Brushed"@.len() == 7
        &&& "Brushed"@[0] == 'B'
        &&& "Brushed"@[1] == 'r'
    });
    reveal_strlit("Brushless");
    assert({
        &&& "Brushless"@.len() == 9
        &&& "Brushless"@[0] == 'B'
    });
    reveal_strlit("Gate Drivers");
    assert({
        &&& "Gate Drivers"@.len() == 12
        &&& "Gate Drivers"@[0] == 'G'
        &&& "Gate Drivers"@[1] == 'a'
    });
    reveal_strlit("Stepper");
    assert({
        &&& "Stepper"@.len() == 7
        &&& "Stepper"@[0] == 'S'
    });
    reveal_strlit("Secure");
    assert({
        &&& "Secure"@.len() == 6
        &&& "Secure"@[0] == 'S'
        &&& "Secure"@[1] == 'e'
    });
    reveal_strlit("Reader");
    assert({
        &&& "Reader"@.len() == 6
        &&& "Reader"@[0] == 'R'
    });
    reveal_strlit("Tag");
    assert({
        &&& "Tag"@.len() == 3
        &&& "Tag"@[0] == 'T'
        &&& "Tag"@[1] == 'a'
    });
    reveal_strlit("Tag and Reader");
    assert({
        &&& "Tag and Reader"@.len() == 14
        &&& "Tag and Reader"@[0] == 'T'
    });
    reveal_strlit("GNSS ICs");
    assert({
        &&& "GNSS ICs"@.len() == 8
        &&& "GNSS ICs"@[0] == 'G'
    });
    reveal_strlit("GNSS Modules");
    assert({
        &&& "GNSS Modules"@.len() == 12
        &&& "GNSS Modules"@[0] == 'G'
        &&& "GNSS Modules"@[1] == 'N'
    });
    reveal_strlit("AC-DC Converters");
    assert({
        &&& "AC-DC Converters"@.len() == 16
        &&& "AC-DC Converters"@[0] == 'A'
        &&& "AC-DC Converters"@[1] == 'C'
    });
    reveal_strlit("Battery Management ICs");
    assert({
        &&& "Battery Management ICs"@.len() == 22
        &&& "Battery Management ICs"@[0] == 'B'
    });
    reveal_strlit("DC-DC Switching Converters");
    assert({
        &&& "DC-DC Switching Converters"@.len() == 26
        &&& "DC-DC Switching Converters"@[0] == 'D'
    });
    reveal_strlit("Display Supplies and Controllers");
    assert("Display Supplies and Controllers"@.len() == 32);
    reveal_strlit("eFuses and hot-swap ICs");
    assert({
        &&& "eFuses and hot-swap ICs"@.len() == 23
        &&& "eFuses and hot-swap ICs"@[0] == 'e'
    });
    reveal_strlit("Energy Harvesting");
    assert({
        &&& "Energy Harvesting"@.len() == 17
        &&& "Energy Harvesting"@[0] == 'E'
    });
    reveal_strlit("GaN Power ICs");
    assert({
        &&& "GaN Power ICs"@.len() == 13
        &&& "GaN Power ICs"@[0] == 'G'
    });
    reveal_strlit("High-Density Power Drivers");
    assert({
        &&& "High-Density Power Drivers"@.len() == 26
        &&& "High-Density Power Drivers"@[0] == 'H'
    });
    reveal_strlit("Intelligent Power Switches");
    assert({
        &&& "Intelligent Power Switches"@.len() == 26
        &&& "Intelligent Power Switches"@[0] == 'I'
    });
    reveal_strlit("LED Drivers");
    assert({
        &&& "LED Drivers"@.len() == 11
        &&& "LED Drivers"@[0] == 'L'
    });
    reveal_strlit("Lighting ICs");
    assert({
        &&& "Lighting ICs"@.len() == 12
        &&& "Lighting ICs"@[0] == 'L'
        &&& "Lighting ICs"@[1] == 'i'
    });
    reveal_strlit("Linear Voltage Regulators");
    assert({
        &&& "Linear Voltage Regulators"@.len() == 25
        &&& "Linear Voltage Regulators"@[0] == 'L'
    });
    reveal_strlit("LNB Supplies");
    assert({
        &&& "LNB Supplies"@.len() == 12
        &&& "LNB Supplies"@[0] == 'L'
        &&& "LNB Supplies"@[1] == 'N'
    });
    reveal_strlit("Photovoltaic ICs");
    assert({
        &&& "Photovoltaic ICs"@.len() == 16
        &&& "Photovoltaic ICs"@[0] == 'P'
    });
    reveal_strlit("Power Over Ethernet ICs");
    assert({
        &&& "Power Over Ethernet ICs"@.len() == 23
        &&& "Power Over Ethernet ICs"@[0] == 'P'
    });
    reveal_strlit("Voltage References");
    assert({
        &&& "Voltage References"@.len() == 18
        &&& "Voltage References"@[0] == 'V'
    });
    reveal_strlit("Wireless Charger ICs");
    assert("Wireless Charger ICs"@.len() == 20);
    reveal_strlit("ACEPACK");
    assert({
        &&& "ACEPACK"@.len() == 7
        &&& "ACEPACK"@[0] == 'A'
    });
    reveal_strlit("SLLIMM");
    assert({
        &&& "SLLIMM"@.len() == 6
        &&& "SLLIMM"@[0] == 'S'
        &&& "SLLIMM"@[1] == 'L'
    });
    reveal_strlit("IGBTs");
    assert({
        &&& "IGBTs"@.len() == 5
        &&& "IGBTs"@[0] == 'I'
    });
    reveal_strlit("Bipolar");
    assert({
        &&& "Bipolar"@.len() == 7
        &&& "Bipolar"@[0] == 'B'
        &&& "Bipolar"@[1] == 'i'
    });
    reveal_strlit("MOSFETs");
    assert({
        &&& "MOSFETs"@.len() == 7
        &&& "MOSFETs"@[0] == 'M'
    });
    reveal_strlit("Wide Bandgap");
    assert({
        &&& "Wide Bandgap"@.len() == 12
        &&& "Wide Bandgap"@[0] == 'W'
    });
    reveal_strlit("ASIP");
    assert("ASIP"@.len() == 4);
    reveal_strlit("EMI Filters");
    assert({
        &&& "EMI Filters"@.len() == 11
        &&& "EMI Filters"@[0] == 'E'
    });
    reveal_strlit("TSS");
    assert({
        &&& "TSS"@.len() == 3
        &&& "TSS"@[0] == 'T'
        &&& "TSS"@[1] == 'S'
    });
    reveal_strlit("TVS");
    assert({
        &&& "TVS"@.len() == 3
        &&& "TVS"@[0] == 'T'
        &&& "TVS"@[1] == 'V'
    });
    reveal_strlit("RF DMOS");
    assert({
        &&& "RF DMOS"@.len() == 7
        &&& "RF DMOS"@[0] == 'R'
    });
    reveal_strlit("RF LDMOS");
    assert({
        &&& "RF LDMOS"@.len() == 8
        &&& "RF LDMOS"@[0] == 'R'
    });
    reveal_strlit("Microprocessor Supervisors");
    assert({
        &&& "Microprocessor Supervisors"@.len() == 26
        &&& "Microprocessor Supervisors"@[0] == 'M'
    });
    reveal_strlit("On-Off Controllers");
    assert({
        &&& "On-Off Controllers"@.len() == 18
        &&& "On-Off Controllers"@[0] == 'O'
    });
    reveal_strlit("Reset and Voltage Detectors");
    assert({
        &&& "Reset and Voltage Detectors"@.len() == 27
        &&& "Reset and Voltage Detectors"@[0] == 'R'
    });
    reveal_strlit("Smart Reset ICs");
    assert({
        &&& "Smart Reset ICs"@.len() == 15
        &&& "Smart Reset ICs"@[0] == 'S'
    });
    reveal_strlit("Voltage Protection ICs");
    assert({
        &&& "Voltage Protection ICs"@.len() == 22
        &&& "Voltage Protection ICs"@[0] == 'V'
    });
    reveal_strlit("Watchdog Timers");
    assert({
        &&& "Watchdog Timers"@.len() == 15
        &&& "Watchdog Timers"@[0] == 'W'
    });
    reveal_strlit("Authentication");
    assert({
        &&& "Authentication"@.len() == 14
        &&& "Authentication"@[0] == 'A'
    });
    reveal_strlit("SIM");
    assert({
        &&& "SIM"@.len() == 3
        &&& "SIM"@[0] == 'S'
    });
    reveal_strlit("SiC Diodes");
    assert({
        &&& "SiC Diodes"@.len() == 10
        &&& "SiC Diodes"@[0] == 'S'
    });
    reveal_strlit("SiC MOSFETs");
    assert({
        &&& "SiC MOSFETs"@.len() == 11
        &&& "SiC MOSFETs"@[0] == 'S'
        &&& "SiC MOSFETs"@[1] == 'i'
    });
    reveal_strlit("LEO Rad-Hard ICs");
    assert({
        &&& "LEO Rad-Hard ICs"@.len() == 16
        &&& "LEO Rad-Hard ICs"@[0] == 'L'
    });
    reveal_strlit("Rad-Hard Analog ICs");
    assert({
        &&& "Rad-Hard Analog ICs"@.len() == 19
        &&& "Rad-Hard Analog ICs"@[9] == 'A'
    });
    reveal_strlit("Rad-Hard ASIC Platforms");
    assert({
        &&& "Rad-Hard ASIC Platforms"@.len() == 23
        &&& "Rad-Hard ASIC Platforms"@[0] == 'R'
    });
    reveal_strlit("Rad-Hard Discretes");
    assert({
        &&& "Rad-Hard Discretes"@.len() == 18
        &&& "Rad-Hard Discretes"@[0] == 'R'
        &&& "Rad-Hard Discretes"@[9] == 'D'
    });
    reveal_strlit("Rad-Hard Interfaces");
    assert({
        &&& "Rad-Hard Interfaces"@.len() == 19
        &&& "Rad-Hard Interfaces"@[9] == 'I'
    });
    reveal_strlit("Rad-Hard Logic ICs");
    assert({
        &&& "Rad-Hard Logic ICs"@.len() == 18
        &&& "Rad-Hard Logic ICs"@[0] == 'R'
        &&& "Rad-Hard Logic ICs"@[9] == 'L'
    });
    reveal_strlit("Rad-Hard Power Management");
    assert({
        &&& "Rad-Hard Power Management"@.len() == 25
        &&& "Rad-Hard Power Management"@[0] == 'R'
    });
    reveal_strlit("Switches");
    assert({
        &&& "Switches"@.len() == 8
        &&& "Switches"@[0] == 'S'
    });
    reveal_strlit("Multiplexers");
    assert({
        &&& "Multiplexers"@.len() == 12
        &&& "Multiplexers"@[0] == 'M'
        &&& "Multiplexers"@[1] == 'u'
    });
    reveal_strlit("Thyristors");
    assert({
        &&& "Thyristors"@.len() == 10
        &&& "Thyristors"@[0] == 'T'
    });
    reveal_strlit("Triacs");
    assert({
        &&& "Triacs"@.len() == 6
        &&& "Triacs"@[0] == 'T'
        &&& "Triacs"@[1] == 'r'
    });
    reveal_strlit("Long Range");
    assert({
        &&& "Long Range"@.len() == 10
        &&& "Long Range"@[0] == 'L'
    });
    reveal_strlit("RF Front-end");
    assert({
        &&& "RF Front-end"@.len() == 12
        &&& "RF Front-end"@[0] == 'R'
        &&& "RF Front-end"@[3] == 'F'
    });
    reveal_strlit("RF Solutions");
    assert({
        &&& "RF Solutions"@.len() == 12
        &&& "RF Solutions"@[0] == 'R'
        &&& "RF Solutions"@[3] == 'S'
    });
    reveal_strlit("Short Range");
    assert({
        &&& "Short Range"@.len() == 11
        &&& "Short Range"@[0] == 'S'
        &&& "Short Range"@[1] == 'h'
    });
    match c {
        HgroupType::Comparators => {},
        HgroupType::CurrentSensing => {},
        HgroupType::OpAmp => {},
        HgroupType::PowerOpAmp => {},
        HgroupType::VideoAmplifiers => {},
        HgroupType::Amplifiers => {},
        HgroupType::MemsSensor => {},
        HgroupType::Processors => {},
        HgroupType::SoundTerminalIcs => {},
        HgroupType::Adas => {},
        HgroupType::AnalogAndPower => {},
        HgroupType::InfotainmentAndTelematics => {},
        HgroupType::LogicIcs => {},
        HgroupType::Microcontrollers => {},
        HgroupType::Rtc => {},
        HgroupType::Timers => {},
        HgroupType::A2dD2a => {},
        HgroupType::IsolatedAdcs => {},
        HgroupType::MeteringIcs => {},
        HgroupType::DemodulatorsAndTuners => {},
        HgroupType::SetTopBoxProcessors => {},
        HgroupType::Diodes => {},
        HgroupType::Rectifiers => {},
        HgroupType::AmbientLightSensors => {},
        HgroupType::ImageSensors => {},
        HgroupType::ImagingProcessors => {},
        HgroupType::TimeOfFlightSensors => {},
        HgroupType::Interfaces => {},
        HgroupType::IoExpanders => {},
        HgroupType::LevelTranslators => {},
        HgroupType::Transceivers => {},
        HgroupType::Eeprom => {},
        HgroupType::Flash => {},
        HgroupType::Ram => {},
        HgroupType::Environmental => {},
        HgroupType::Infrared => {},
        HgroupType::MemsHybrid => {},
        HgroupType::MemsMicrophone => {},
        HgroupType::MemsMotion => {},
        HgroupType::Proximity => {},
        HgroupType::Brushed => {},
        HgroupType::Brushless => {},
        HgroupType::GateDrivers => {},
        HgroupType::Stepper => {},
        HgroupType::Secure => {},
        HgroupType::Reader => {},
        HgroupType::Tag => {},
        HgroupType::TagAndReader => {},
        HgroupType::GnssIcs => {},
        HgroupType::GnssModules => {},
        HgroupType::AcDcConverters => {},
        HgroupType::BatteryManagementIcs => {},
        HgroupType::DcDcSwitchingConverters => {},
        HgroupType::DisplaySuppliesAndControllers => {},
        HgroupType::EFusesAndHotSwapIcs => {},
        HgroupType::EnergyHarvesting => {},
        HgroupType::GanPowerIcs => {},
        HgroupType::HighDensityPowerDrivers => {},
        HgroupType::IntelligentPowerSwitches => {},
        HgroupType::LedDrivers => {},
        HgroupType::LightingIcs => {},
        HgroupType::LinearVoltageRegulators => {},
        HgroupType::LnbSupplies => {},
        HgroupType::PhotovoltaicIcs => {},
        HgroupType::PowerOverEthernetIcs => {},
        HgroupType::VoltageReferences => {},
        HgroupType::WirelessChargerIcs => {},
        HgroupType::Acepack => {},
        HgroupType::Sllimm => {},
        HgroupType::Igbts => {},
        HgroupType::Bipolar => {},
        HgroupType::Mosfets => {},
        HgroupType::WideBandgap => {},
        HgroupType::Asip => {},
        HgroupType::EmiFilters => {},
        HgroupType::Tss => {},
        HgroupType::Tvs => {},
        HgroupType::RfDmos => {},
        HgroupType::RfLdmos => {},
        HgroupType::MicroprocessorSupervisors => {},
        HgroupType::OnOffControllers => {},
        HgroupType::ResetAndVoltageDetectors => {},
        HgroupType::SmartResetIcs => {},
        HgroupType::VoltageProtectionIcs => {},
        HgroupType::WatchdogTimers => {},
        HgroupType::Authentication => {},
        HgroupType::Sim => {},
        HgroupType::SicDiodes => {},
        HgroupType::SicMosfets => {},
        HgroupType::LeoRadHardIcs => {},
        HgroupType::RadHardAnalogIcs => {},
        HgroupType::RadHardAsicPlatforms => {},
        HgroupType::RadHardDiscretes => {},
        HgroupType::RadHardInterfaces => {},
        HgroupType::RadHardLogicIcs => {},
        HgroupType::RadHardPowerManagement => {},
        HgroupType::Switches => {},
        HgroupType::Multiplexers => {},
        HgroupType::Thyristors => {},
        HgroupType::Triacs => {},
        HgroupType::LongRange => {},
        HgroupType::RfFrontEnd => {},
        HgroupType::RfSolutions => {},
        HgroupType::ShortRange => {},
    }
}

/// No two predefined hardware part groups share a name: the names are one-to-one, so
/// a hardware part group read by name is the only one with that name.
pub proof fn lemma_hgroup_names_distinct(a: HgroupType, b: HgroupType)
    requires
        hgroup_type_name(a) == hgroup_type_name(b),
    ensures
        a == b,
{
    lemma_hgroup_named(a);
    lemma_hgroup_named(b);
}

/// Each predefined hardware part class has the name that the schema gives it, written out
/// here name by name, and reading that name gives it back.
pub proof fn lemma_hclass_schema_names()
    ensures
        hclass_type_name(HclassType::AmplifiersAndComparators) == "Amplifiers and Comparators"@,
        hclass_type_name(HclassType::AudioIcs) == "Audio ICs"@,
        hclass_type_name(HclassType::Automotive) == "Automotive"@,
        hclass_type_name(HclassType::ClocksAndTimers) == "Clocks and Timers"@,
        hclass_type_name(HclassType::DataConverters) == "Data Converters"@,
        hclass_type_name(HclassType::DigitalSetTopBoxIcs) == "Digital Set-Top Box ICs"@,
        hclass_type_name(HclassType::DiodesAndRectifiers) == "Diodes and Rectifiers"@,
        hclass_type_name(HclassType::ImagingAndPhotonicsDevices) == "Imaging and Photonics Devices"@,
        hclass_type_name(HclassType::InterfacesAndTransceivers) == "Interfaces and Transceivers"@,
        hclass_type_name(HclassType::Memories) == "Memories"@,
        hclass_type_name(HclassType::MemsAndSensors) == "MEMS and Sensors"@,
        hclass_type_name(HclassType::MotorDrivers) == "Motor Drivers"@,
        hclass_type_name(HclassType::Nfc) == "NFC"@,
        hclass_type_name(HclassType::Other) == "Other"@,
        hclass_type_name(HclassType::Positioning) == "Positioning"@,
        hclass_type_name(HclassType::PowerManagement) == "Power Management"@,
        hclass_type_name(HclassType::PowerModules) == "Power Modules"@,
        hclass_type_name(HclassType::PowerTransistors) == "Power Transistors"@,
        hclass_type_name(HclassType::Protections) == "Protections"@,
        hclass_type_name(HclassType::RadioFrequency) == "Radio Frequency"@,
        hclass_type_name(HclassType::ResetAndSupervisorIcs) == "Reset and Supervisor ICs"@,
        hclass_type_name(HclassType::SecureMcus) == "Secure MCUs"@,
        hclass_type_name(HclassType::SicDevices) == "SiC Devices"@,
        hclass_type_name(HclassType::SpaceDevices) == "Space Devices"@,
        hclass_type_name(HclassType::SwitchesAndMultiplexers) == "Switches and Multiplexers"@,
        hclass_type_name(HclassType::ThyristorsAndAcSwitches) == "Thyristors and AC Switches"@,
        hclass_type_name(HclassType::TouchAndDisplayControllers) == "Touch and Display Controllers"@,
        hclass_type_name(HclassType::Wireless) == "Wireless"@,
        hclass_named("Amplifiers and Comparators"@) == Some(HclassType::AmplifiersAndComparators),
        hclass_named("Audio ICs"@) == Some(HclassType::AudioIcs),
        hclass_named("Automotive"@) == Some(HclassType::Automotive),
        hclass_named("Clocks and Timers"@) == Some(HclassType::ClocksAndTimers),
        hclass_named("Data Converters"@) == Some(HclassType::DataConverters),
        hclass_named("Digital Set-Top Box ICs"@) == Some(HclassType::DigitalSetTopBoxIcs),
        hclass_named("Diodes and Rectifiers"@) == Some(HclassType::DiodesAndRectifiers),
        hclass_named("Imaging and Photonics Devices"@) == Some(HclassType::ImagingAndPhotonicsDevices),
        hclass_named("Interfaces and Transceivers"@) == Some(HclassType::InterfacesAndTransceivers),
        hclass_named("Memories"@) == Some(HclassType::Memories),
        hclass_named("MEMS and Sensors"@) == Some(HclassType::MemsAndSensors),
        hclass_named("Motor Drivers"@) == Some(HclassType::MotorDrivers),
        hclass_named("NFC"@) == Some(HclassType::Nfc),
        hclass_named("Other"@) == Some(HclassType::Other),
        hclass_named("Positioning"@) == Some(HclassType::Positioning),
        hclass_named("Power Management"@) == Some(HclassType::PowerManagement),
        hclass_named("Power Modules"@) == Some(HclassType::PowerModules),
        hclass_named("Power Transistors"@) == Some(HclassType::PowerTransistors),
        hclass_named("Protections"@) == Some(HclassType::Protections),
        hclass_named("Radio Frequency"@) == Some(HclassType::RadioFrequency),
        hclass_named("Reset and Supervisor ICs"@) == Some(HclassType::ResetAndSupervisorIcs),
        hclass_named("Secure MCUs"@) == Some(HclassType::SecureMcus),
        hclass_named("SiC Devices"@) == Some(HclassType::SicDevices),
        hclass_named("Space Devices"@) == Some(HclassType::SpaceDevices),
        hclass_named("Switches and Multiplexers"@) == Some(HclassType::SwitchesAndMultiplexers),
        hclass_named("Thyristors and AC Switches"@) == Some(HclassType::ThyristorsAndAcSwitches),
        hclass_named("Touch and Display Controllers"@) == Some(HclassType::TouchAndDisplayControllers),
        hclass_named("Wireless"@) == Some(HclassType::Wireless),
{
    lemma_hclass_named(HclassType::AmplifiersAndComparators);
    lemma_hclass_named(HclassType::AudioIcs);
    lemma_hclass_named(HclassType::Automotive);
    lemma_hclass_named(HclassType::ClocksAndTimers);
    lemma_hclass_named(HclassType::DataConverters);
    lemma_hclass_named(HclassType::DigitalSetTopBoxIcs);
    lemma_hclass_named(HclassType::DiodesAndRectifiers);
    lemma_hclass_named(HclassType::ImagingAndPhotonicsDevices);
    lemma_hclass_named(HclassType::InterfacesAndTransceivers);
    lemma_hclass_named(HclassType::Memories);
    lemma_hclass_named(HclassType::MemsAndSensors);
    lemma_hclass_named(HclassType::MotorDrivers);
    lemma_hclass_named(HclassType::Nfc);
    lemma_hclass_named(HclassType::Other);
    lemma_hclass_named(HclassType::Positioning);
    lemma_hclass_named(HclassType::PowerManagement);
    lemma_hclass_named(HclassType::PowerModules);
    lemma_hclass_named(HclassType::PowerTransistors);
    lemma_hclass_named(HclassType::Protections);
    lemma_hclass_named(HclassType::RadioFrequency);
    lemma_hclass_named(HclassType::ResetAndSupervisorIcs);
    lemma_hclass_named(HclassType::SecureMcus);
    lemma_hclass_named(HclassType::SicDevices);
    lemma_hclass_named(HclassType::SpaceDevices);
    lemma_hclass_named(HclassType::SwitchesAndMultiplexers);
    lemma_hclass_named(HclassType::ThyristorsAndAcSwitches);
    lemma_hclass_named(HclassType::TouchAndDisplayControllers);
    lemma_hclass_named(HclassType::Wireless);
}

/// Each predefined hardware part group has the name that the schema gives it, written out
/// here name by name, and reading that name gives it back.
pub proof fn lemma_hgroup_schema_names()
    ensures
        hgroup_type_name(HgroupType::Comparators) == "Comparators"@,
        hgroup_type_name(HgroupType::CurrentSensing) == "Current Sensing"@,
        hgroup_type_name(HgroupType::OpAmp) == "Op Amp"@,
        hgroup_type_name(HgroupType::PowerOpAmp) == "Power Op Amp"@,
        hgroup_type_name(HgroupType::VideoAmplifiers) == "Video Amplifiers"@,
        hgroup_type_name(HgroupType::Amplifiers) == "Amplifiers"@,
        hgroup_type_name(HgroupType::MemsSensor) == "MEMS Sensor"@,
        hgroup_type_name(HgroupType::Processors) == "Processors"@,
        hgroup_type_name(HgroupType::SoundTerminalIcs) == "Sound Terminal ICs"@,
        hgroup_type_name(HgroupType::Adas) == "ADAS (Advanced Driver Assistance Systems)"@,
        hgroup_type_name(HgroupType::AnalogAndPower) == "Analog and Power"@,
        hgroup_type_name(HgroupType::InfotainmentAndTelematics) == "Infotainment and Telematics"@,
        hgroup_type_name(HgroupType::LogicIcs) == "Logic ICs"@,
        hgroup_type_name(HgroupType::Microcontrollers) == "Microcontrollers"@,
        hgroup_type_name(HgroupType::Rtc) == "RTC"@,
        hgroup_type_name(HgroupType::Timers) == "Timers"@,
        hgroup_type_name(HgroupType::A2dD2a) == "A2D - D2A"@,
        hgroup_type_name(HgroupType::IsolatedAdcs) == "Isolated ADCs"@,
        hgroup_type_name(HgroupType::MeteringIcs) == "Metering ICs"@,
        hgroup_type_name(HgroupType::DemodulatorsAndTuners) == "Demodulators and Tuners"@,
        hgroup_type_name(HgroupType::SetTopBoxProcessors) == "Set-Top-Box Processors"@,
        hgroup_type_name(HgroupType::Diodes) == "Diodes"@,
        hgroup_type_name(HgroupType::Rectifiers) == "Rectifiers"@,
        hgroup_type_name(HgroupType::AmbientLightSensors) == "Ambient Light Sensors"@,
        hgroup_type_name(HgroupType::ImageSensors) == "Image Sensors"@,
        hgroup_type_name(HgroupType::ImagingProcessors) == "Imaging Processors"@,
        hgroup_type_name(HgroupType::TimeOfFlightSensors) == "Time-of-Flight Sensors"@,
        hgroup_type_name(HgroupType::Interfaces) == "Interfaces"@,
        hgroup_type_name(HgroupType::IoExpanders) == "I/O Expanders"@,
        hgroup_type_name(HgroupType::LevelTranslators) == "Level Translators"@,
        hgroup_type_name(HgroupType::Transceivers) == "Transceivers"@,
        hgroup_type_name(HgroupType::Eeprom) == "EEPROM"@,
        hgroup_type_name(HgroupType::Flash) == "Flash"@,
        hgroup_type_name(HgroupType::Ram) == "RAM"@,
        hgroup_type_name(HgroupType::Environmental) == "Environmental"@,
        hgroup_type_name(HgroupType::Infrared) == "Infrared"@,
        hgroup_type_name(HgroupType::MemsHybrid) == "MEMS Hybrid"@,
        hgroup_type_name(HgroupType::MemsMicrophone) == "MEMS Microphone"@,
        hgroup_type_name(HgroupType::MemsMotion) == "MEMS Motion"@,
        hgroup_type_name(HgroupType::Proximity) == "Proximity"@,
        hgroup_type_name(HgroupType::Brushed) == "Brushed"@,
        hgroup_type_name(HgroupType::Brushless) == "Brushless"@,
        hgroup_type_name(HgroupType::GateDrivers) == "Gate Drivers"@,
        hgroup_type_name(HgroupType::Stepper) == "Stepper"@,
        hgroup_type_name(HgroupType::Secure) == "Secure"@,
        hgroup_type_name(HgroupType::Reader) == "Reader"@,
        hgroup_type_name(HgroupType::Tag) == "Tag"@,
        hgroup_type_name(HgroupType::TagAndReader) == "Tag and Reader"@,
        hgroup_type_name(HgroupType::GnssIcs) == "GNSS ICs"@,
        hgroup_type_name(HgroupType::GnssModules) == "GNSS Modules"@,
        hgroup_type_name(HgroupType::AcDcConverters) == "AC-DC Converters"@,
        hgroup_type_name(HgroupType::BatteryManagementIcs) == "Battery Management ICs"@,
        hgroup_type_name(HgroupType::DcDcSwitchingConverters) == "DC-DC Switching Converters"@,
        hgroup_type_name(HgroupType::DisplaySuppliesAndControllers) == "Display Supplies and Controllers"@,
        hgroup_type_name(HgroupType::EFusesAndHotSwapIcs) == "eFuses and hot-swap ICs"@,
        hgroup_type_name(HgroupType::EnergyHarvesting) == "Energy Harvesting"@,
        hgroup_type_name(HgroupType::GanPowerIcs) == "GaN Power ICs"@,
        hgroup_type_name(HgroupType::HighDensityPowerDrivers) == "High-Density Power Drivers"@,
        hgroup_type_name(HgroupType::IntelligentPowerSwitches) == "Intelligent Power Switches"@,
        hgroup_type_name(HgroupType::LedDrivers) == "LED Drivers"@,
        hgroup_type_name(HgroupType::LightingIcs) == "Lighting ICs"@,
        hgroup_type_name(HgroupType::LinearVoltageRegulators) == "Linear Voltage Regulators"@,
        hgroup_type_name(HgroupType::LnbSupplies) == "LNB Supplies"@,
        hgroup_type_name(HgroupType::PhotovoltaicIcs) == "Photovoltaic ICs"@,
        hgroup_type_name(HgroupType::PowerOverEthernetIcs) == "Power Over Ethernet ICs"@,
        hgroup_type_name(HgroupType::VoltageReferences) == "Voltage References"@,
        hgroup_type_name(HgroupType::WirelessChargerIcs) == "Wireless Charger ICs"@,
        hgroup_type_name(HgroupType::Acepack) == "ACEPACK"@,
        hgroup_type_name(HgroupType::Sllimm) == "SLLIMM"@,
        hgroup_type_name(HgroupType::Igbts) == "IGBTs"@,
        hgroup_type_name(HgroupType::Bipolar) == "Bipolar"@,
        hgroup_type_name(HgroupType::Mosfets) == "MOSFETs"@,
        hgroup_type_name(HgroupType::WideBandgap) == "Wide Bandgap"@,
        hgroup_type_name(HgroupType::Asip) == "ASIP"@,
        hgroup_type_name(HgroupType::EmiFilters) == "EMI Filters"@,
        hgroup_type_name(HgroupType::Tss) == "TSS"@,
        hgroup_type_name(HgroupType::Tvs) == "TVS"@,
        hgroup_type_name(HgroupType::RfDmos) == "RF DMOS"@,
        hgroup_type_name(HgroupType::RfLdmos) == "RF LDMOS"@,
        hgroup_type_name(HgroupType::MicroprocessorSupervisors) == "Microprocessor Supervisors"@,
        hgroup_type_name(HgroupType::OnOffControllers) == "On-Off Controllers"@,
        hgroup_type_name(HgroupType::ResetAndVoltageDetectors) == "Reset and Voltage Detectors"@,
        hgroup_type_name(HgroupType::SmartResetIcs) == "Smart Reset ICs"@,
        hgroup_type_name(HgroupType::VoltageProtectionIcs) == "Voltage Protection ICs"@,
        hgroup_type_name(HgroupType::WatchdogTimers) == "Watchdog Timers"@,
        hgroup_type_name(HgroupType::Authentication) == "Authentication"@,
        hgroup_type_name(HgroupType::Sim) == "SIM"@,
        hgroup_type_name(HgroupType::SicDiodes) == "SiC Diodes"@,
        hgroup_type_name(HgroupType::SicMosfets) == "SiC MOSFETs"@,
        hgroup_type_name(HgroupType::LeoRadHardIcs) == "LEO Rad-Hard ICs"@,
        hgroup_type_name(HgroupType::RadHardAnalogIcs) == "Rad-Hard Analog ICs"@,
        hgroup_type_name(HgroupType::RadHardAsicPlatforms) == "Rad-Hard ASIC Platforms"@,
        hgroup_type_name(HgroupType::RadHardDiscretes) == "Rad-Hard Discretes"@,
        hgroup_type_name(HgroupType::RadHardInterfaces) == "Rad-Hard Interfaces"@,
        hgroup_type_name(HgroupType::RadHardLogicIcs) == "Rad-Hard Logic ICs"@,
        hgroup_type_name(HgroupType::RadHardPowerManagement) == "Rad-Hard Power Management"@,
        hgroup_type_name(HgroupType::Switches) == "Switches"@,
        hgroup_type_name(HgroupType::Multiplexers) == "Multiplexers"@,
        hgroup_type_name(HgroupType::Thyristors) == "Thyristors"@,
        hgroup_type_name(HgroupType::Triacs) == "Triacs"@,
        hgroup_type_name(HgroupType::LongRange) == "Long Range"@,
        hgroup_type_name(HgroupType::RfFrontEnd) == "RF Front-end"@,
        hgroup_type_name(HgroupType::RfSolutions) == "RF Solutions"@,
        hgroup_type_name(HgroupType::ShortRange) == "Short Range"@,
        hgroup_named("Comparators"@) == Some(HgroupType::Comparators),
        hgroup_named("Current Sensing"@) == Some(HgroupType::CurrentSensing),
        hgroup_named("Op Amp"@) == Some(HgroupType::OpAmp),
        hgroup_named("Power Op Amp"@) == Some(HgroupType::PowerOpAmp),
        hgroup_named("Video Amplifiers"@) == Some(HgroupType::VideoAmplifiers),
        hgroup_named("Amplifiers"@) == Some(HgroupType::Amplifiers),
        hgroup_named("MEMS Sensor"@) == Some(HgroupType::MemsSensor),
        hgroup_named("Processors"@) == Some(HgroupType::Processors),
        hgroup_named("Sound Terminal ICs"@) == Some(HgroupType::SoundTerminalIcs),
        hgroup_named("ADAS (Advanced Driver Assistance Systems)"@) == Some(HgroupType::Adas),
        hgroup_named("Analog and Power"@) == Some(HgroupType::AnalogAndPower),
        hgroup_named("Infotainment and Telematics"@) == Some(HgroupType::InfotainmentAndTelematics),
        hgroup_named("Logic ICs"@) == Some(HgroupType::LogicIcs),
        hgroup_named("Microcontrollers"@) == Some(HgroupType::Microcontrollers),
        hgroup_named("RTC"@) == Some(HgroupType::Rtc),
        hgroup_named("Timers"@) == Some(HgroupType::Timers),
        hgroup_named("A2D - D2A"@) == Some(HgroupType::A2dD2a),
        hgroup_named("Isolated ADCs"@) == Some(HgroupType::IsolatedAdcs),
        hgroup_named("Metering ICs"@) == Some(HgroupType::MeteringIcs),
        hgroup_named("Demodulators and Tuners"@) == Some(HgroupType::DemodulatorsAndTuners),
        hgroup_named("Set-Top-Box Processors"@) == Some(HgroupType::SetTopBoxProcessors),
        hgroup_named("Diodes"@) == Some(HgroupType::Diodes),
        hgroup_named("Rectifiers"@) == Some(HgroupType::Rectifiers),
        hgroup_named("Ambient Light Sensors"@) == Some(HgroupType::AmbientLightSensors),
        hgroup_named("Image Sensors"@) == Some(HgroupType::ImageSensors),
        hgroup_named("Imaging Processors"@) == Some(HgroupType::ImagingProcessors),
        hgroup_named("Time-of-Flight Sensors"@) == Some(HgroupType::TimeOfFlightSensors),
        hgroup_named("Interfaces"@) == Some(HgroupType::Interfaces),
        hgroup_named("I/O Expanders"@) == Some(HgroupType::IoExpanders),
        hgroup_named("Level Translators"@) == Some(HgroupType::LevelTranslators),
        hgroup_named("Transceivers"@) == Some(HgroupType::Transceivers),
        hgroup_named("EEPROM"@) == Some(HgroupType::Eeprom),
        hgroup_named("Flash"@) == Some(HgroupType::Flash),
        hgroup_named("RAM"@) == Some(HgroupType::Ram),
        hgroup_named("Environmental"@) == Some(HgroupType::Environmental),
        hgroup_named("Infrared"@) == Some(HgroupType::Infrared),
        hgroup_named("MEMS Hybrid"@) == Some(HgroupType::MemsHybrid),
        hgroup_named("MEMS Microphone"@) == Some(HgroupType::MemsMicrophone),
        hgroup_named("MEMS Motion"@) == Some(HgroupType::MemsMotion),
        hgroup_named("Proximity"@) == Some(HgroupType::Proximity),
        hgroup_named("Brushed"@) == Some(HgroupType::Brushed),
        hgroup_named("Brushless"@) == Some(HgroupType::Brushless),
        hgroup_named("Gate Drivers"@) == Some(HgroupType::GateDrivers),
        hgroup_named("Stepper"@) == Some(HgroupType::Stepper),
        hgroup_named("Secure"@) == Some(HgroupType::Secure),
        hgroup_named("Reader"@) == Some(HgroupType::Reader),
        hgroup_named("Tag"@) == Some(HgroupType::Tag),
        hgroup_named("Tag and Reader"@) == Some(HgroupType::TagAndReader),
        hgroup_named("GNSS ICs"@) == Some(HgroupType::GnssIcs),
        hgroup_named("GNSS Modules"@) == Some(HgroupType::GnssModules),
        hgroup_named("AC-DC Converters"@) == Some(HgroupType::AcDcConverters),
        hgroup_named("Battery Management ICs"@) == Some(HgroupType::BatteryManagementIcs),
        hgroup_named("DC-DC Switching Converters"@) == Some(HgroupType::DcDcSwitchingConverters),
        hgroup_named("Display Supplies and Controllers"@) == Some(HgroupType::DisplaySuppliesAndControllers),
        hgroup_named("eFuses and hot-swap ICs"@) == Some(HgroupType::EFusesAndHotSwapIcs),
        hgroup_named("Energy Harvesting"@) == Some(HgroupType::EnergyHarvesting),
        hgroup_named("GaN Power ICs"@) == Some(HgroupType::GanPowerIcs),
        hgroup_named("High-Density Power Drivers"@) == Some(HgroupType::HighDensityPowerDrivers),
        hgroup_named("Intelligent Power Switches"@) == Some(HgroupType::IntelligentPowerSwitches),
        hgroup_named("LED Drivers"@) == Some(HgroupType::LedDrivers),
        hgroup_named("Lighting ICs"@) == Some(HgroupType::LightingIcs),
        hgroup_named("Linear Voltage Regulators"@) == Some(HgroupType::LinearVoltageRegulators),
        hgroup_named("LNB Supplies"@) == Some(HgroupType::LnbSupplies),
        hgroup_named("Photovoltaic ICs"@) == Some(HgroupType::PhotovoltaicIcs),
        hgroup_named("Power Over Ethernet ICs"@) == Some(HgroupType::PowerOverEthernetIcs),
        hgroup_named("Voltage References"@) == Some(HgroupType::VoltageReferences),
        hgroup_named("Wireless Charger ICs"@) == Some(HgroupType::WirelessChargerIcs),
        hgroup_named("ACEPACK"@) == Some(HgroupType::Acepack),
        hgroup_named("SLLIMM"@) == Some(HgroupType::Sllimm),
        hgroup_named("IGBTs"@) == Some(HgroupType::Igbts),
        hgroup_named("Bipolar"@) == Some(HgroupType::Bipolar),
        hgroup_named("MOSFETs"@) == Some(HgroupType::Mosfets),
        hgroup_named("Wide Bandgap"@) == Some(HgroupType::WideBandgap),
        hgroup_named("ASIP"@) == Some(HgroupType::Asip),
        hgroup_named("EMI Filters"@) == Some(HgroupType::EmiFilters),
        hgroup_named("TSS"@) == Some(HgroupType::Tss),
        hgroup_named("TVS"@) == Some(HgroupType::Tvs),
        hgroup_named("RF DMOS"@) == Some(HgroupType::RfDmos),
        hgroup_named("RF LDMOS"@) == Some(HgroupType::RfLdmos),
        hgroup_named("Microprocessor Supervisors"@) == Some(HgroupType::MicroprocessorSupervisors),
        hgroup_named("On-Off Controllers"@) == Some(HgroupType::OnOffControllers),
        hgroup_named("Reset and Voltage Detectors"@) == Some(HgroupType::ResetAndVoltageDetectors),
        hgroup_named("Smart Reset ICs"@) == Some(HgroupType::SmartResetIcs),
        hgroup_named("Voltage Protection ICs"@) == Some(HgroupType::VoltageProtectionIcs),
        hgroup_named("Watchdog Timers"@) == Some(HgroupType::WatchdogTimers),
        hgroup_named("Authentication"@) == Some(HgroupType::Authentication),
        hgroup_named("SIM"@) == Some(HgroupType::Sim),
        hgroup_named("SiC Diodes"@) == Some(HgroupType::SicDiodes),
        hgroup_named("SiC MOSFETs"@) == Some(HgroupType::SicMosfets),
        hgroup_named("LEO Rad-Hard ICs"@) == Some(HgroupType::LeoRadHardIcs),
        hgroup_named("Rad-Hard Analog ICs"@) == Some(HgroupType::RadHardAnalogIcs),
        hgroup_named("Rad-Hard ASIC Platforms"@) == Some(HgroupType::RadHardAsicPlatforms),
        hgroup_named("Rad-Hard Discretes"@) == Some(HgroupType::RadHardDiscretes),
        hgroup_named("Rad-Hard Interfaces"@) == Some(HgroupType::RadHardInterfaces),
        hgroup_named("Rad-Hard Logic ICs"@) == Some(HgroupType::RadHardLogicIcs),
        hgroup_named("Rad-Hard Power Management"@) == Some(HgroupType::RadHardPowerManagement),
        hgroup_named("Switches"@) == Some(HgroupType::Switches),
        hgroup_named("Multiplexers"@) == Some(HgroupType::Multiplexers),
        hgroup_named("Thyristors"@) == Some(HgroupType::Thyristors),
        hgroup_named("Triacs"@) == Some(HgroupType::Triacs),
        hgroup_named("Long Range"@) == Some(HgroupType::LongRange),
        hgroup_named("RF Front-end"@) == Some(HgroupType::RfFrontEnd),
        hgroup_named("RF Solutions"@) == Some(HgroupType::RfSolutions),
        hgroup_named("Short Range"@) == Some(HgroupType::ShortRange),
{
    lemma_hgroup_named(HgroupType::Comparators);
    lemma_hgroup_named(HgroupType::CurrentSensing);
    lemma_hgroup_named(HgroupType::OpAmp);
    lemma_hgroup_named(HgroupType::PowerOpAmp);
    lemma_hgroup_named(HgroupType::VideoAmplifiers);
    lemma_hgroup_named(HgroupType::Amplifiers);
    lemma_hgroup_named(HgroupType::MemsSensor);
    lemma_hgroup_named(HgroupType::Processors);
    lemma_hgroup_named(HgroupType::SoundTerminalIcs);
    lemma_hgroup_named(HgroupType::Adas);
    lemma_hgroup_named(HgroupType::AnalogAndPower);
    lemma_hgroup_named(HgroupType::InfotainmentAndTelematics);
    lemma_hgroup_named(HgroupType::LogicIcs);
    lemma_hgroup_named(HgroupType::Microcontrollers);
    lemma_hgroup_named(HgroupType::Rtc);
    lemma_hgroup_named(HgroupType::Timers);
    lemma_hgroup_named(HgroupType::A2dD2a);
    lemma_hgroup_named(HgroupType::IsolatedAdcs);
    lemma_hgroup_named(HgroupType::MeteringIcs);
    lemma_hgroup_named(HgroupType::DemodulatorsAndTuners);
    lemma_hgroup_named(HgroupType::SetTopBoxProcessors);
    lemma_hgroup_named(HgroupType::Diodes);
    lemma_hgroup_named(HgroupType::Rectifiers);
    lemma_hgroup_named(HgroupType::AmbientLightSensors);
    lemma_hgroup_named(HgroupType::ImageSensors);
    lemma_hgroup_named(HgroupType::ImagingProcessors);
    lemma_hgroup_named(HgroupType::TimeOfFlightSensors);
    lemma_hgroup_named(HgroupType::Interfaces);
    lemma_hgroup_named(HgroupType::IoExpanders);
    lemma_hgroup_named(HgroupType::LevelTranslators);
    lemma_hgroup_named(HgroupType::Transceivers);
    lemma_hgroup_named(HgroupType::Eeprom);
    lemma_hgroup_named(HgroupType::Flash);
    lemma_hgroup_named(HgroupType::Ram);
    lemma_hgroup_named(HgroupType::Environmental);
    lemma_hgroup_named(HgroupType::Infrared);
    lemma_hgroup_named(HgroupType::MemsHybrid);
    lemma_hgroup_named(HgroupType::MemsMicrophone);
    lemma_hgroup_named(HgroupType::MemsMotion);
    lemma_hgroup_named(HgroupType::Proximity);
    lemma_hgroup_named(HgroupType::Brushed);
    lemma_hgroup_named(HgroupType::Brushless);
    lemma_hgroup_named(HgroupType::GateDrivers);
    lemma_hgroup_named(HgroupType::Stepper);
    lemma_hgroup_named(HgroupType::Secure);
    lemma_hgroup_named(HgroupType::Reader);
    lemma_hgroup_named(HgroupType::Tag);
    lemma_hgroup_named(HgroupType::TagAndReader);
    lemma_hgroup_named(HgroupType::GnssIcs);
    lemma_hgroup_named(HgroupType::GnssModules);
    lemma_hgroup_named(HgroupType::AcDcConverters);
    lemma_hgroup_named(HgroupType::BatteryManagementIcs);
    lemma_hgroup_named(HgroupType::DcDcSwitchingConverters);
    lemma_hgroup_named(HgroupType::DisplaySuppliesAndControllers);
    lemma_hgroup_named(HgroupType::EFusesAndHotSwapIcs);
    lemma_hgroup_named(HgroupType::EnergyHarvesting);
    lemma_hgroup_named(HgroupType::GanPowerIcs);
    lemma_hgroup_named(HgroupType::HighDensityPowerDrivers);
    lemma_hgroup_named(HgroupType::IntelligentPowerSwitches);
    lemma_hgroup_named(HgroupType::LedDrivers);
    lemma_hgroup_named(HgroupType::LightingIcs);
    lemma_hgroup_named(HgroupType::LinearVoltageRegulators);
    lemma_hgroup_named(HgroupType::LnbSupplies);
    lemma_hgroup_named(HgroupType::PhotovoltaicIcs);
    lemma_hgroup_named(HgroupType::PowerOverEthernetIcs);
    lemma_hgroup_named(HgroupType::VoltageReferences);
    lemma_hgroup_named(HgroupType::WirelessChargerIcs);
    lemma_hgroup_named(HgroupType::Acepack);
    lemma_hgroup_named(HgroupType::Sllimm);
    lemma_hgroup_named(HgroupType::Igbts);
    lemma_hgroup_named(HgroupType::Bipolar);
    lemma_hgroup_named(HgroupType::Mosfets);
    lemma_hgroup_named(HgroupType::WideBandgap);
    lemma_hgroup_named(HgroupType::Asip);
    lemma_hgroup_named(HgroupType::EmiFilters);
    lemma_hgroup_named(HgroupType::Tss);
    lemma_hgroup_named(HgroupType::Tvs);
    lemma_hgroup_named(HgroupType::RfDmos);
    lemma_hgroup_named(HgroupType::RfLdmos);
    lemma_hgroup_named(HgroupType::MicroprocessorSupervisors);
    lemma_hgroup_named(HgroupType::OnOffControllers);
    lemma_hgroup_named(HgroupType::ResetAndVoltageDetectors);
    lemma_hgroup_named(HgroupType::SmartResetIcs);
    lemma_hgroup_named(HgroupType::VoltageProtectionIcs);
    lemma_hgroup_named(HgroupType::WatchdogTimers);
    lemma_hgroup_named(HgroupType::Authentication);
    lemma_hgroup_named(HgroupType::Sim);
    lemma_hgroup_named(HgroupType::SicDiodes);
    lemma_hgroup_named(HgroupType::SicMosfets);
    lemma_hgroup_named(HgroupType::LeoRadHardIcs);
    lemma_hgroup_named(HgroupType::RadHardAnalogIcs);
    lemma_hgroup_named(HgroupType::RadHardAsicPlatforms);
    lemma_hgroup_named(HgroupType::RadHardDiscretes);
    lemma_hgroup_named(HgroupType::RadHardInterfaces);
    lemma_hgroup_named(HgroupType::RadHardLogicIcs);
    lemma_hgroup_named(HgroupType::RadHardPowerManagement);
    lemma_hgroup_named(HgroupType::Switches);
    lemma_hgroup_named(HgroupType::Multiplexers);
    lemma_hgroup_named(HgroupType::Thyristors);
    lemma_hgroup_named(HgroupType::Triacs);
    lemma_hgroup_named(HgroupType::LongRange);
    lemma_hgroup_named(HgroupType::RfFrontEnd);
    lemma_hgroup_named(HgroupType::RfSolutions);
    lemma_hgroup_named(HgroupType::ShortRange);
}

} // verus!
