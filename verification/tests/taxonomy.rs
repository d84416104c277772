use cmsis_pdsc_parser::part_taxonomy::{HclassType, HgroupType};
use cmsis_pdsc_parser::taxonomy::{CclassType, CgroupType};

#[test]
fn cclass_type_try_from() {

    assert_eq!(CclassType::try_from("Audio"), Ok(CclassType::Audio));
    assert_eq!(CclassType::try_from("CMSIS"), Ok(CclassType::Cmsis));
    assert_eq!(CclassType::try_from("CMSIS Driver"), Ok(CclassType::CmsisDriver));
    assert_eq!(CclassType::try_from("RTOS"), Ok(CclassType::Rtos));
    assert_eq!(CclassType::try_from("USB"), Ok(CclassType::Usb));
    assert_eq!(CclassType::try_from("IoT Client"), Ok(CclassType::IotClient));
    assert_eq!(CclassType::try_from("Unknown Class"), Err(()));

    let s = "Board Support".to_string();
    assert_eq!(CclassType::try_from(s), Ok(CclassType::BoardSupport));
}

#[test]
fn cgroup_type_try_from() {

    assert_eq!(CgroupType::try_from("CORE"), Ok(CgroupType::Core));
    assert_eq!(CgroupType::try_from("DSP"), Ok(CgroupType::Dsp));
    assert_eq!(CgroupType::try_from("NN Lib"), Ok(CgroupType::NnLib));
    assert_eq!(CgroupType::try_from("RTOS"), Ok(CgroupType::Rtos));
    assert_eq!(CgroupType::try_from("RTOS2"), Ok(CgroupType::Rtos2));
    assert_eq!(CgroupType::try_from("Startup"), Ok(CgroupType::Startup));
    assert_eq!(CgroupType::try_from("Unknown Group"), Err(()));

    let s = "NN Lib".to_string();
    assert_eq!(CgroupType::try_from(s), Ok(CgroupType::NnLib));
}

#[test]
fn hclass_type_try_from() {

    assert_eq!(HclassType::try_from("Wireless"), Ok(HclassType::Wireless));
    assert_eq!(
        HclassType::try_from("MEMS and Sensors"),
        Ok(HclassType::MemsAndSensors)
    );
    assert_eq!(HclassType::try_from("NFC"), Ok(HclassType::Nfc));
    assert_eq!(
        HclassType::try_from("SiC Devices"),
        Ok(HclassType::SicDevices)
    );
    assert_eq!(
        HclassType::try_from("Thyristors and AC Switches"),
        Ok(HclassType::ThyristorsAndAcSwitches)
    );
    assert_eq!(HclassType::try_from("Unknown Class"), Err(()));

    let s = "Secure MCUs".to_string();
    assert_eq!(HclassType::try_from(s), Ok(HclassType::SecureMcus));
}

#[test]
fn hgroup_type_try_from() {

    assert_eq!(HgroupType::try_from("A2D - D2A"), Ok(HgroupType::A2dD2a));
    assert_eq!(
        HgroupType::try_from("ADAS (Advanced Driver Assistance Systems)"),
        Ok(HgroupType::Adas)
    );
    assert_eq!(
        HgroupType::try_from("eFuses and hot-swap ICs"),
        Ok(HgroupType::EFusesAndHotSwapIcs)
    );
    assert_eq!(
        HgroupType::try_from("I/O Expanders"),
        Ok(HgroupType::IoExpanders)
    );
    assert_eq!(
        HgroupType::try_from("SiC MOSFETs"),
        Ok(HgroupType::SicMosfets)
    );
    assert_eq!(
        HgroupType::try_from("RF Front-end"),
        Ok(HgroupType::RfFrontEnd)
    );
    assert_eq!(HgroupType::try_from("Unknown Group"), Err(()));

    let s = "LEO Rad-Hard ICs".to_string();
    assert_eq!(HgroupType::try_from(s), Ok(HgroupType::LeoRadHardIcs));
}
