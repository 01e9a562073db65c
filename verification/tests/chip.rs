use hwmon::chip::AttributeEntry;
use hwmon::subfeature::{SubfeatureType, Temperature};
use hwmon::{Bus, BusType, Chip, Context, FeatureType, Ratio};

fn entry(name: &str, readable: bool, writable: bool) -> AttributeEntry {
    AttributeEntry { name: String::from(name), readable, writable }
}

fn chip_on(bus_type: BusType, bus_number: i16, prefix: &str, address: u32) -> Chip {
    let context = Context::new(Vec::new());
    let bus = Bus::new(bus_type, bus_number, context);
    Chip::new("/sys/class/hwmon/hwmon0", String::from(prefix), bus, address)
}

#[test]
fn chip_name_i2c_format() {
    let chip = chip_on(BusType::I2C, 2, "lm75", 0x48);
    assert_eq!(chip.name(), "lm75-i2C-2-48");
}

#[test]
fn chip_name_isa_pads_to_four_digits() {
    let chip = chip_on(BusType::ISA, 0, "coretemp", 0x2a);
    assert_eq!(chip.name(), "coretemp-isa-002a");
}

#[test]
fn chip_name_per_family_formats() {
    assert_eq!(chip_on(BusType::PCI, 0, "k10temp", 0xf83).name(), "k10temp-pci-0f83");
    assert_eq!(chip_on(BusType::SPI, 1, "chip", 0x2).name(), "chip-spi-1-2");
    assert_eq!(chip_on(BusType::HID, 3, "dev", 0x1f).name(), "dev-hid-3-1f");
    assert_eq!(chip_on(BusType::ACPI, 0, "atk0110", 0).name(), "atk0110-acpi-0");
    assert_eq!(chip_on(BusType::MDIO, 0, "phy", 0x10).name(), "phy-mdio-10");
    assert_eq!(chip_on(BusType::SCSI, 2, "sd", 0x12a).name(), "sd-scsi-2-12a");
    assert_eq!(chip_on(BusType::Virtual, 0, "vchip", 0).name(), "vchip-virtual-0");
}

#[test]
fn chip_name_i2c_pads_address_to_two_digits() {
    assert_eq!(chip_on(BusType::I2C, 0, "x", 0x5).name(), "x-i2C-0-05");
}

#[test]
fn chip_accessors() {
    let chip = chip_on(BusType::I2C, 2, "lm75", 0x48);
    assert_eq!(chip.prefix(), "lm75");
    assert_eq!(chip.address(), 0x48);
    assert_eq!(chip.path(), "/sys/class/hwmon/hwmon0");
    assert_eq!(chip.bus().get_type(), BusType::I2C);
    assert_eq!(chip.bus().number(), 2);
}

#[test]
fn scan_groups_subfeatures_and_skips_unrelated() {
    let mut chip = chip_on(BusType::Virtual, 0, "lm75", 0);
    let entries = vec![
        entry("temp1_input", true, false),
        entry("temp1_max", true, true),
        entry("temp1_max_hyst", true, true),
        entry("unrelated_file", true, false),
    ];
    chip.read_dynamic_chip(&entries);

    let mut features = 0;
    let mut it = chip.features_iter();
    while let Some(_) = it.next() {
        features += 1;
    }
    assert_eq!(features, 1);

    let f = chip.feature(FeatureType::Temperature, 1).unwrap();
    assert_eq!(f.number(), 1);
    assert_eq!(f.get_type(), FeatureType::Temperature);
    assert_eq!(f.name(), "temp1");

    let mut subfeatures = 0;
    let mut sit = f.subfeatures_iter();
    while let Some(_) = sit.next() {
        subfeatures += 1;
    }
    assert_eq!(subfeatures, 3);

    assert!(f.subfeature(SubfeatureType::Temperature(Temperature::Input)).is_some());
    assert!(f.subfeature(SubfeatureType::Temperature(Temperature::Max)).is_some());
    assert!(f.subfeature(SubfeatureType::Temperature(Temperature::Max_Hyst)).is_some());
    assert!(f.subfeature(SubfeatureType::Temperature(Temperature::Min)).is_none());
    assert!(chip.feature(FeatureType::Temperature, 2).is_none());
    assert!(chip.feature(FeatureType::Fan, 1).is_none());
}

#[test]
fn scan_separates_features_by_kind_and_index() {
    let mut chip = chip_on(BusType::Virtual, 0, "mixed", 0);
    let entries = vec![
        entry("temp1_input", true, false),
        entry("temp2_input", true, false),
        entry("fan1_input", true, false),
        entry("in0_input", true, false),
        entry("beep_enable", true, true),
        entry("cpu0_vid", true, false),
    ];
    chip.read_dynamic_chip(&entries);

    let mut features = 0;
    let mut it = chip.features_iter();
    while let Some(_) = it.next() {
        features += 1;
    }
    assert_eq!(features, 6);
    assert_eq!(chip.feature(FeatureType::Temperature, 1).unwrap().name(), "temp1");
    assert_eq!(chip.feature(FeatureType::Temperature, 2).unwrap().name(), "temp2");
    assert_eq!(chip.feature(FeatureType::Fan, 1).unwrap().name(), "fan1");
    assert_eq!(chip.feature(FeatureType::Voltage, 0).unwrap().name(), "in0");
    assert_eq!(chip.feature(FeatureType::BeepEnable, 0).unwrap().name(), "beep_enable");
    assert_eq!(chip.feature(FeatureType::Cpu, 0).unwrap().name(), "cpu0_vid");
}

#[test]
fn scan_drops_duplicate_subfeature_kind() {
    let mut chip = chip_on(BusType::Virtual, 0, "dup", 0);
    // `temp01_input` classifies like `temp1_input`; the duplicate kind in
    // the same feature is dropped
    let entries = vec![entry("temp1_input", true, false), entry("temp01_input", true, false)];
    chip.read_dynamic_chip(&entries);
    let f = chip.feature(FeatureType::Temperature, 1).unwrap();
    let mut subfeatures = 0;
    let mut sit = f.subfeatures_iter();
    while let Some(_) = sit.next() {
        subfeatures += 1;
    }
    assert_eq!(subfeatures, 1);
}

#[test]
fn subfeature_paths_join_the_chip_directory() {
    let mut chip = chip_on(BusType::Virtual, 0, "lm75", 0);
    chip.read_dynamic_chip(&vec![entry("temp1_input", true, false)]);
    let f = chip.feature(FeatureType::Temperature, 1).unwrap();
    let sf = f.subfeature(SubfeatureType::Temperature(Temperature::Input)).unwrap();
    assert_eq!(sf.name(), "temp1_input");
    assert_eq!(sf.path(), "/sys/class/hwmon/hwmon0/temp1_input");
    assert!(sf.is_readable());
    assert!(!sf.is_writable());
}

#[test]
fn label_falls_back_to_the_feature_name() {
    let mut chip = chip_on(BusType::Virtual, 0, "lm75", 0);
    chip.read_dynamic_chip(&vec![entry("temp1_input", true, false)]);
    let f = chip.feature(FeatureType::Temperature, 1).unwrap();
    assert_eq!(f.label(), "temp1");
    assert_eq!(f.label_attr_name(), "temp1_label");
}

#[test]
fn label_attribute_takes_precedence() {
    let mut chip = chip_on(BusType::Virtual, 0, "lm75", 0);
    chip.read_dynamic_chip(&vec![entry("temp1_input", true, false)]);
    assert!(chip.set_feature_label(FeatureType::Temperature, 1, String::from("CPU Temp")));
    assert!(!chip.set_feature_label(FeatureType::Fan, 1, String::from("nope")));
    let f = chip.feature(FeatureType::Temperature, 1).unwrap();
    assert_eq!(f.label(), "CPU Temp");
}

#[test]
fn feature_iteration_follows_discovery_order() {
    let mut chip = chip_on(BusType::Virtual, 0, "ord", 0);
    chip.read_dynamic_chip(&vec![
        entry("fan2_input", true, false),
        entry("temp1_input", true, false),
        entry("fan2_min", true, false),
    ]);
    let mut it = chip.features_iter();
    let first = it.next().unwrap();
    assert_eq!((first.get_type(), first.number()), (FeatureType::Fan, 2));
    let second = it.next().unwrap();
    assert_eq!((second.get_type(), second.number()), (FeatureType::Temperature, 1));
    assert!(it.next().is_none());
    assert!(it.next().is_none());
}

#[test]
fn ratio_holds_its_parts() {
    let r = Ratio::new_raw(3, 7);
    assert_eq!(r.numer(), 3);
    assert_eq!(r.denom(), 7);
}
