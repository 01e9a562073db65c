use hwmon::chip::{get_chip_bus_from_name, i2c_adapter_name_path, resolve_i2c_isa, BusInfo};
use hwmon::error::ChipError;
use hwmon::{Bus, BusAdapter, BusType, Context, Error};

#[test]
fn i2c_device_name_parses_bus_and_address() {
    assert_eq!(
        get_chip_bus_from_name("i2c", "1-004e"),
        Ok(BusInfo { bus_type: BusType::I2C, bus_number: 1, address: 0x4e })
    );
}

#[test]
fn i2c_device_name_9191_is_legacy_isa() {
    assert_eq!(
        get_chip_bus_from_name("i2c", "9191-0048"),
        Ok(BusInfo { bus_type: BusType::ISA, bus_number: 0, address: 0x48 })
    );
}

#[test]
fn i2c_device_name_errors() {
    assert_eq!(get_chip_bus_from_name("i2c", "abc-12"), Err(ChipError::ParseInt));
    assert_eq!(get_chip_bus_from_name("i2c", "1-zz"), Err(ChipError::ParseInt));
    // a name without a separator reports the SCSI family in its error, an
    // oddity this parser family has always had
    assert_eq!(
        get_chip_bus_from_name("i2c", "12"),
        Err(ChipError::ParseBusInfo(BusType::SCSI))
    );
}

#[test]
fn spi_device_name_parses_bus_and_address() {
    assert_eq!(
        get_chip_bus_from_name("spi", "spi1.2"),
        Ok(BusInfo { bus_type: BusType::SPI, bus_number: 1, address: 2 })
    );
    assert_eq!(
        get_chip_bus_from_name("spi", "flute"),
        Err(ChipError::ParseBusInfo(BusType::SPI))
    );
    assert_eq!(
        get_chip_bus_from_name("spi", "spi1x2"),
        Err(ChipError::ParseBusInfo(BusType::SPI))
    );
    assert_eq!(get_chip_bus_from_name("spi", "spix.2"), Err(ChipError::ParseInt));
}

#[test]
fn pci_device_name_composes_address() {
    assert_eq!(
        get_chip_bus_from_name("pci", "0000:00:1f.3"),
        Ok(BusInfo {
            bus_type: BusType::PCI,
            bus_number: 0,
            address: (0x0000 << 16) | (0x00 << 8) | (0x1f << 3) | 0x3,
        })
    );
    assert_eq!(
        get_chip_bus_from_name("pci", "0001:02:03.4"),
        Ok(BusInfo {
            bus_type: BusType::PCI,
            bus_number: 0,
            address: (1 << 16) | (2 << 8) | (3 << 3) | 4,
        })
    );
    assert_eq!(get_chip_bus_from_name("pci", "zz:00:1f.3"), Err(ChipError::ParseInt));
}

#[test]
fn scsi_device_name_composes_address() {
    assert_eq!(
        get_chip_bus_from_name("scsi", "7:1:2:a"),
        Ok(BusInfo {
            bus_type: BusType::SCSI,
            bus_number: 7,
            address: (1 << 8) | (2 << 4) | 0xa,
        })
    );
    assert_eq!(
        get_chip_bus_from_name("scsi", "7:1"),
        Err(ChipError::ParseBusInfo(BusType::SCSI))
    );
}

#[test]
fn fixed_subsystems_resolve_to_fixed_identity() {
    for (subsystem, bus_type) in [
        ("platform", BusType::ISA),
        ("of_platform", BusType::ISA),
        ("acpi", BusType::ACPI),
        ("hid", BusType::HID),
        ("mdio_bus", BusType::MDIO),
    ] {
        assert_eq!(
            get_chip_bus_from_name(subsystem, "whatever"),
            Ok(BusInfo { bus_type, bus_number: 0, address: 0 })
        );
    }
    assert_eq!(get_chip_bus_from_name("usb", "1-1"), Err(ChipError::UnknownDevice));
}

#[test]
fn i2c_isa_reclassification_needs_exact_name() {
    let info = BusInfo { bus_type: BusType::I2C, bus_number: 3, address: 0x2d };
    assert_eq!(
        resolve_i2c_isa(info, Some("ISA")),
        BusInfo { bus_type: BusType::ISA, bus_number: 0, address: 0x2d }
    );
    // the attribute content is compared as read, without trimming
    assert_eq!(resolve_i2c_isa(info, Some("ISA\n")), info);
    assert_eq!(resolve_i2c_isa(info, None), info);
    let pci = BusInfo { bus_type: BusType::PCI, bus_number: 0, address: 1 };
    assert_eq!(resolve_i2c_isa(pci, Some("ISA")), pci);
}

#[test]
fn i2c_adapter_name_path_format() {
    assert_eq!(i2c_adapter_name_path(4), "/sys/class/i2c-adapter/i2c-4/device/name");
    assert_eq!(i2c_adapter_name_path(12), "/sys/class/i2c-adapter/i2c-12/device/name");
}

#[test]
fn adapter_from_sysfs_i2c_classdev() {
    let a = BusAdapter::from_sysfs_i2c("i2c-3", Some("SMBus I801 adapter at 0400"))
        .unwrap()
        .unwrap();
    assert_eq!(a.name(), "SMBus I801 adapter at 0400");
    assert_eq!(a.bus_type(), BusType::I2C);
    assert_eq!(a.bus_number(), 3);
    // the legacy ISA bus yields no adapter
    assert!(BusAdapter::from_sysfs_i2c("i2c-9191", Some("x")).unwrap().is_none());
    assert!(matches!(
        BusAdapter::from_sysfs_i2c("hwmon0", Some("x")),
        Err(Error::ParseBusName(BusType::I2C))
    ));
    assert!(matches!(BusAdapter::from_sysfs_i2c("i2c-", Some("x")), Err(Error::ParseBusName(BusType::I2C))));
    assert!(matches!(BusAdapter::from_sysfs_i2c("i2c-abc", Some("x")), Err(Error::ParseInt)));
    assert!(matches!(BusAdapter::from_sysfs_i2c("i2c-3", None), Err(Error::Io)));
}

#[test]
fn adapter_name_fixed_per_family() {
    for (bus_type, expected) in [
        (BusType::ISA, "ISA adapter"),
        (BusType::PCI, "PCI adapter"),
        (BusType::SPI, "SPI adapter"),
        (BusType::Virtual, "Virtual device"),
        (BusType::ACPI, "ACPI interface"),
        (BusType::HID, "HID adapter"),
        (BusType::MDIO, "MDIO adapter"),
        (BusType::SCSI, "SCSI adapter"),
    ] {
        let context = Context::new(Vec::new());
        let bus = Bus::new(bus_type, 0, context);
        assert_eq!(bus.adapter_name(), Some(expected));
    }
}

#[test]
fn adapter_name_i2c_looks_up_the_snapshot() {
    let adapters = vec![
        BusAdapter::new(String::from("first"), BusType::I2C, 0),
        BusAdapter::new(String::from("second"), BusType::I2C, 2),
    ];
    let context = Context::new(adapters);
    let bus = Bus::new(BusType::I2C, 2, context.clone());
    assert_eq!(bus.adapter_name(), Some("second"));
    let missing = Bus::new(BusType::I2C, 7, context);
    assert_eq!(missing.adapter_name(), None);
}

#[test]
fn context_snapshot_is_shared() {
    let context = Context::new(vec![BusAdapter::new(String::from("a"), BusType::I2C, 1)]);
    let copy = context.clone();
    assert_eq!(copy.adapters().len(), 1);
    assert_eq!(context.adapters()[0].name(), "a");
}

#[test]
fn bus_type_display_names() {
    assert_eq!(BusType::I2C.display_name(), "I2C");
    assert_eq!(BusType::Virtual.display_name(), "Virtual");
    assert_eq!(BusType::MDIO.display_name(), "MDIO");
}

#[test]
fn error_messages() {
    assert_eq!(Error::Io.message(), "IO error");
    assert_eq!(
        Error::ParseBusName(BusType::I2C).message(),
        "Failed to parse I2C bus name"
    );
    assert_eq!(Error::Access("Subfeature not writable").message(), "Access error: Subfeature not writable");
    assert_eq!(
        ChipError::ParseBusInfo(BusType::SPI).message(),
        "Failed to read SPI bus info"
    );
    assert_eq!(ChipError::UnknownDevice.message(), "Unknown device");
    assert_eq!(
        hwmon::error::FeatureError::SubfeatureType.message(),
        "The subfeature type does not match the feature type"
    );
    assert_eq!(hwmon::error::SubfeatureError::Unknown.message(), "Unknown subfeature");
}

#[test]
fn bus_accessors() {
    let context = Context::new(Vec::new());
    let bus = Bus::new(BusType::SPI, 5, context);
    assert_eq!(bus.get_type(), BusType::SPI);
    assert_eq!(bus.number(), 5);
}
