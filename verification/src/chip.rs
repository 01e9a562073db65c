//! Chips: resolving bus identity from kernel device-path conventions,
//! synthesizing the canonical chip name, and grouping classified attribute
//! files into features.

use vstd::prelude::*;

use crate::bus::{Bus, BusType, BusView};
use crate::error::ChipError;
use crate::feature::{
    feature_name_spec, feature_type_of, Feature, FeatureType, FeatureView,
};
use crate::subfeature::{classify_spec, Subfeature, SubfeatureType, SubfeatureView};
use crate::text::{
    dec_str_signed, fmt_dec_i16, fmt_hex_u32_pad, hex_str_pad, lemma_split_len, parse_dec_i16,
    parse_dec_i16_spec, parse_dec_u32, parse_dec_u32_spec, parse_hex_u32, parse_hex_u32_spec,
    split_spec, split_str, str_eq, str_from, str_starts_with,
};
use vstd::string::StrSliceExecFns;

verus! {

// ---------------------------------------------------------------------------
// Bus resolution from device names
// ---------------------------------------------------------------------------

/// The bus identity parsed from a device's subsystem and name: its family,
/// its bus number, and the chip's address on it.
#[derive(Clone, Copy, Debug, Eq, PartialEq, Structural)]
pub struct BusInfo {
    pub bus_type: BusType,
    pub bus_number: i16,
    pub address: u32,
}

/// What parsing an `i2c` device name `<bus>-<hexaddr>` yields.  Bus number
/// 9191 is the legacy ISA bus, renumbered to 0.  A name without a `-`
/// reports, as a long-standing oddity of this parser family, the SCSI
/// family in its error.
pub open spec fn parse_i2c_dev_spec(dev: Seq<char>) -> Result<BusInfo, ChipError> {
    let args = split_spec(dev, '-');
    match parse_dec_i16_spec(args[0]) {
        None => Err(ChipError::ParseInt),
        Some(bus_number) => if args.len() < 2 {
            Err(ChipError::ParseBusInfo(BusType::SCSI))
        } else {
            match parse_hex_u32_spec(args[1]) {
                None => Err(ChipError::ParseInt),
                Some(address) => if bus_number == 9191 {
                    Ok(BusInfo { bus_type: BusType::ISA, bus_number: 0, address })
                } else {
                    Ok(BusInfo { bus_type: BusType::I2C, bus_number, address })
                },
            }
        },
    }
}

/// What parsing an `spi` device name `spi<bus>.<addr>` yields.
pub open spec fn parse_spi_dev_spec(dev: Seq<char>) -> Result<BusInfo, ChipError> {
    if !(dev.len() > 3 && dev.take(3) == "spi"@) {
        Err(ChipError::ParseBusInfo(BusType::SPI))
    } else {
        let args = split_spec(dev.skip(3), '.');
        if args.len() < 2 {
            Err(ChipError::ParseBusInfo(BusType::SPI))
        } else {
            match parse_dec_u32_spec(args[1]) {
                None => Err(ChipError::ParseInt),
                Some(address) => match parse_dec_i16_spec(args[0]) {
                    None => Err(ChipError::ParseInt),
                    Some(bus_number) => Ok(
                        BusInfo { bus_type: BusType::SPI, bus_number, address },
                    ),
                },
            }
        }
    }
}

/// What parsing a `pci` device name `<domain>:<bus>:<slot>.<function>` (all
/// hexadecimal) yields: the composite address
/// `(domain<<16) | (bus<<8) | (slot<<3) | function`.  A missing component
/// reports, as a long-standing oddity of this parser family, the SCSI
/// family in its error; a composite address over 32 bits reports the PCI
/// family.
pub open spec fn parse_pci_dev_spec(dev: Seq<char>) -> Result<BusInfo, ChipError> {
    let args = split_spec(dev, ':');
    let args_bis = split_spec(args.last(), '.');
    match parse_hex_u32_spec(args[0]) {
        None => Err(ChipError::ParseInt),
        Some(domain) => if args.len() < 2 {
            Err(ChipError::ParseBusInfo(BusType::SCSI))
        } else {
            match parse_hex_u32_spec(args[1]) {
                None => Err(ChipError::ParseInt),
                Some(bus) => match parse_hex_u32_spec(args_bis[0]) {
                    None => Err(ChipError::ParseInt),
                    Some(slot) => if args_bis.len() < 2 {
                        Err(ChipError::ParseBusInfo(BusType::SCSI))
                    } else {
                        match parse_hex_u32_spec(args_bis[1]) {
                            None => Err(ChipError::ParseInt),
                            Some(function) => if domain * 0x10000 + bus * 0x100 + slot * 8
                                + function > u32::MAX {
                                Err(ChipError::ParseBusInfo(BusType::PCI))
                            } else {
                                Ok(
                                    BusInfo {
                                        bus_type: BusType::PCI,
                                        bus_number: 0,
                                        address: (domain * 0x10000 + bus * 0x100 + slot * 8
                                            + function) as u32,
                                    },
                                )
                            },
                        }
                    },
                },
            }
        },
    }
}

/// What parsing a `scsi` device name `<host>:<bus>:<slot>:<lun>` yields:
/// the composite address `(bus<<8) | (slot<<4) | lun`, with the lun read as
/// hexadecimal, on bus number `<host>`.
pub open spec fn parse_scsi_dev_spec(dev: Seq<char>) -> Result<BusInfo, ChipError> {
    let args = split_spec(dev, ':');
    if args.len() < 2 {
        Err(ChipError::ParseBusInfo(BusType::SCSI))
    } else {
        match parse_dec_u32_spec(args[1]) {
            None => Err(ChipError::ParseInt),
            Some(bus) => if args.len() < 3 {
                Err(ChipError::ParseBusInfo(BusType::SCSI))
            } else {
                match parse_dec_u32_spec(args[2]) {
                    None => Err(ChipError::ParseInt),
                    Some(slot) => if args.len() < 4 {
                        Err(ChipError::ParseBusInfo(BusType::SCSI))
                    } else {
                        match parse_hex_u32_spec(args[3]) {
                            None => Err(ChipError::ParseInt),
                            Some(lun) => match parse_dec_i16_spec(args[0]) {
                                None => Err(ChipError::ParseInt),
                                Some(bus_number) => if bus * 0x100 + slot * 0x10 + lun
                                    > u32::MAX {
                                    Err(ChipError::ParseBusInfo(BusType::SCSI))
                                } else {
                                    Ok(
                                        BusInfo {
                                            bus_type: BusType::SCSI,
                                            bus_number,
                                            address: (bus * 0x100 + slot * 0x10 + lun) as u32,
                                        },
                                    )
                                },
                            },
                        }
                    },
                }
            },
        }
    }
}

/// What resolving a device against its subsystem yields: the bus-specific
/// parse of its name for the multi-instance families, the fixed identity
/// (bus 0, address 0) for `platform`, `of_platform`, `acpi`, `hid` and
/// `mdio_bus`, and an unknown-device failure for every other subsystem.
pub open spec fn get_chip_bus_spec(subsystem: Seq<char>, dev: Seq<char>) -> Result<
    BusInfo,
    ChipError,
> {
    if subsystem == "i2c"@ {
        parse_i2c_dev_spec(dev)
    } else if subsystem == "spi"@ {
        parse_spi_dev_spec(dev)
    } else if subsystem == "pci"@ {
        parse_pci_dev_spec(dev)
    } else if subsystem == "scsi"@ {
        parse_scsi_dev_spec(dev)
    } else if subsystem == "platform"@ || subsystem == "of_platform"@ {
        Ok(BusInfo { bus_type: BusType::ISA, bus_number: 0, address: 0 })
    } else if subsystem == "acpi"@ {
        Ok(BusInfo { bus_type: BusType::ACPI, bus_number: 0, address: 0 })
    } else if subsystem == "hid"@ {
        Ok(BusInfo { bus_type: BusType::HID, bus_number: 0, address: 0 })
    } else if subsystem == "mdio_bus"@ {
        Ok(BusInfo { bus_type: BusType::MDIO, bus_number: 0, address: 0 })
    } else {
        Err(ChipError::UnknownDevice)
    }
}

fn parse_i2c_dev(dev: &str) -> (r: Result<BusInfo, ChipError>)
    ensures
        r == parse_i2c_dev_spec(dev@),
{
    let args = split_str(dev, '-');
    proof {
        lemma_split_len(dev@, '-');
    }
    let bus_number = match parse_dec_i16(args[0].as_str()) {
        Some(n) => n,
        None => {
            return Err(ChipError::ParseInt);
        },
    };
    if args.len() < 2 {
        return Err(ChipError::ParseBusInfo(BusType::SCSI));
    }
    let address = match parse_hex_u32(args[1].as_str()) {
        Some(a) => a,
        None => {
            return Err(ChipError::ParseInt);
        },
    };
    if bus_number == 9191 {
        Ok(BusInfo { bus_type: BusType::ISA, bus_number: 0, address })
    } else {
        Ok(BusInfo { bus_type: BusType::I2C, bus_number, address })
    }
}

fn parse_spi_dev(dev: &str) -> (r: Result<BusInfo, ChipError>)
    ensures
        r == parse_spi_dev_spec(dev@),
{
    let len = dev.unicode_len();
    if !(str_starts_with(dev, "spi") && len > 3) {
        proof {
            reveal_strlit("spi");
        }
        return Err(ChipError::ParseBusInfo(BusType::SPI));
    }
    proof {
        reveal_strlit("spi");
    }
    let end = dev.substring_char(3, len);
    proof {
        assert(end@ =~= dev@.skip(3));
    }
    let args = split_str(end, '.');
    proof {
        lemma_split_len(end@, '.');
    }
    if args.len() < 2 {
        return Err(ChipError::ParseBusInfo(BusType::SPI));
    }
    let address = match parse_dec_u32(args[1].as_str()) {
        Some(a) => a,
        None => {
            return Err(ChipError::ParseInt);
        },
    };
    let bus_number = match parse_dec_i16(args[0].as_str()) {
        Some(n) => n,
        None => {
            return Err(ChipError::ParseInt);
        },
    };
    Ok(BusInfo { bus_type: BusType::SPI, bus_number, address })
}

fn parse_pci_dev(dev: &str) -> (r: Result<BusInfo, ChipError>)
    ensures
        r == parse_pci_dev_spec(dev@),
{
    let args = split_str(dev, ':');
    proof {
        lemma_split_len(dev@, ':');
    }
    let last = args.len() - 1;
    let args_bis = split_str(args[last].as_str(), '.');
    proof {
        lemma_split_len(args@[last as int]@, '.');
        assert(args@[last as int]@ == split_spec(dev@, ':').last());
    }
    let domain = match parse_hex_u32(args[0].as_str()) {
        Some(v) => v,
        None => {
            return Err(ChipError::ParseInt);
        },
    };
    if args.len() < 2 {
        return Err(ChipError::ParseBusInfo(BusType::SCSI));
    }
    let bus = match parse_hex_u32(args[1].as_str()) {
        Some(v) => v,
        None => {
            return Err(ChipError::ParseInt);
        },
    };
    let slot = match parse_hex_u32(args_bis[0].as_str()) {
        Some(v) => v,
        None => {
            return Err(ChipError::ParseInt);
        },
    };
    if args_bis.len() < 2 {
        return Err(ChipError::ParseBusInfo(BusType::SCSI));
    }
    let function = match parse_hex_u32(args_bis[1].as_str()) {
        Some(v) => v,
        None => {
            return Err(ChipError::ParseInt);
        },
    };
    let composite = (domain as u64) * 0x10000 + (bus as u64) * 0x100 + (slot as u64) * 8
        + (function as u64);
    if composite > 0xFFFF_FFFF {
        return Err(ChipError::ParseBusInfo(BusType::PCI));
    }
    Ok(BusInfo { bus_type: BusType::PCI, bus_number: 0, address: composite as u32 })
}

fn parse_scsi_dev(dev: &str) -> (r: Result<BusInfo, ChipError>)
    ensures
        r == parse_scsi_dev_spec(dev@),
{
    let args = split_str(dev, ':');
    proof {
        lemma_split_len(dev@, ':');
    }
    if args.len() < 2 {
        return Err(ChipError::ParseBusInfo(BusType::SCSI));
    }
    let bus = match parse_dec_u32(args[1].as_str()) {
        Some(v) => v,
        None => {
            return Err(ChipError::ParseInt);
        },
    };
    if args.len() < 3 {
        return Err(ChipError::ParseBusInfo(BusType::SCSI));
    }
    let slot = match parse_dec_u32(args[2].as_str()) {
        Some(v) => v,
        None => {
            return Err(ChipError::ParseInt);
        },
    };
    if args.len() < 4 {
        return Err(ChipError::ParseBusInfo(BusType::SCSI));
    }
    let lun = match parse_hex_u32(args[3].as_str()) {
        Some(v) => v,
        None => {
            return Err(ChipError::ParseInt);
        },
    };
    let bus_number = match parse_dec_i16(args[0].as_str()) {
        Some(v) => v,
        None => {
            return Err(ChipError::ParseInt);
        },
    };
    let composite = (bus as u64) * 0x100 + (slot as u64) * 0x10 + (lun as u64);
    if composite > 0xFFFF_FFFF {
        return Err(ChipError::ParseBusInfo(BusType::SCSI));
    }
    Ok(BusInfo { bus_type: BusType::SCSI, bus_number, address: composite as u32 })
}

/// Resolves the bus identity of a device from its `subsystem` symlink
/// target name and its device name, by the per-family conventions.
pub fn get_chip_bus_from_name(subsystem: &str, device_name: &str) -> (r: Result<
    BusInfo,
    ChipError,
>)
    ensures
        r == get_chip_bus_spec(subsystem@, device_name@),
{
    if str_eq(subsystem, "i2c") {
        parse_i2c_dev(device_name)
    } else if str_eq(subsystem, "spi") {
        parse_spi_dev(device_name)
    } else if str_eq(subsystem, "pci") {
        parse_pci_dev(device_name)
    } else if str_eq(subsystem, "scsi") {
        parse_scsi_dev(device_name)
    } else if str_eq(subsystem, "platform") || str_eq(subsystem, "of_platform") {
        Ok(BusInfo { bus_type: BusType::ISA, bus_number: 0, address: 0 })
    } else if str_eq(subsystem, "acpi") {
        Ok(BusInfo { bus_type: BusType::ACPI, bus_number: 0, address: 0 })
    } else if str_eq(subsystem, "hid") {
        Ok(BusInfo { bus_type: BusType::HID, bus_number: 0, address: 0 })
    } else if str_eq(subsystem, "mdio_bus") {
        Ok(BusInfo { bus_type: BusType::MDIO, bus_number: 0, address: 0 })
    } else {
        Err(ChipError::UnknownDevice)
    }
}

/// Reclassifies an i2c device as ISA bus 0 when its adapter's device name
/// attribute reads exactly `ISA`; `adapter_device_name` is that attribute's
/// content as read, untrimmed, or `None` when it could not be read.
pub fn resolve_i2c_isa(info: BusInfo, adapter_device_name: Option<&str>) -> (r: BusInfo)
    ensures
        ({
            let reclassify = info.bus_type == BusType::I2C && match adapter_device_name {
                Some(n) => n@ == "ISA"@,
                None => false,
            };
            r == if reclassify {
                BusInfo { bus_type: BusType::ISA, bus_number: 0, ..info }
            } else {
                info
            }
        }),
{
    if !matches!(info.bus_type, BusType::I2C) {
        return info;
    }
    match adapter_device_name {
        Some(n) => {
            if str_eq(n, "ISA") {
                BusInfo { bus_type: BusType::ISA, bus_number: 0, address: info.address }
            } else {
                info
            }
        },
        None => info,
    }
}

/// The sysfs path of the device name attribute of i2c adapter
/// `bus_number`, whose content decides the legacy ISA reclassification.
pub fn i2c_adapter_name_path(bus_number: i16) -> (r: String)
    ensures
        r@ == "/sys/class/i2c-adapter/i2c-"@ + dec_str_signed(bus_number as int)
            + "/device/name"@,
{
    let mut s = str_from("/sys/class/i2c-adapter/i2c-");
    s.append(fmt_dec_i16(bus_number).as_str());
    s.append("/device/name");
    s
}

// ---------------------------------------------------------------------------
// The chip entity
// ---------------------------------------------------------------------------

/// The mathematical value of a chip.
pub ghost struct ChipView {
    pub path: Seq<char>,
    pub prefix: Seq<char>,
    pub bus: BusView,
    pub address: u32,
    pub features: Seq<FeatureView>,
}

impl ChipView {
    /// The canonical display name: the prefix, the bus family's tag, the
    /// bus number for the multi-instance families, and the address, each
    /// family with its exact hexadecimal width.
    pub open spec fn name_spec(self) -> Seq<char> {
        match self.bus.bus_type {
            BusType::ISA => self.prefix + "-isa-"@ + hex_str_pad(self.address as nat, 4),
            BusType::PCI => self.prefix + "-pci-"@ + hex_str_pad(self.address as nat, 4),
            BusType::I2C => self.prefix + "-i2C-"@ + dec_str_signed(self.bus.bus_number as int)
                + "-"@ + hex_str_pad(self.address as nat, 2),
            BusType::SPI => self.prefix + "-spi-"@ + dec_str_signed(self.bus.bus_number as int)
                + "-"@ + hex_str_pad(self.address as nat, 1),
            BusType::HID => self.prefix + "-hid-"@ + dec_str_signed(self.bus.bus_number as int)
                + "-"@ + hex_str_pad(self.address as nat, 1),
            BusType::ACPI => self.prefix + "-acpi-"@ + hex_str_pad(self.address as nat, 1),
            BusType::MDIO => self.prefix + "-mdio-"@ + hex_str_pad(self.address as nat, 1),
            BusType::SCSI => self.prefix + "-scsi-"@ + dec_str_signed(self.bus.bus_number as int)
                + "-"@ + hex_str_pad(self.address as nat, 1),
            BusType::Virtual => self.prefix + "-virtual-"@ + hex_str_pad(self.address as nat, 1),
        }
    }

    /// Well-formedness: no two features share a kind and index, and each is
    /// itself well formed.
    pub open spec fn wf(self) -> bool {
        &&& forall|i: int, j: int|
            0 <= i < j < self.features.len() ==> !((#[trigger] self.features[i]).feature_type == (
            #[trigger] self.features[j]).feature_type && self.features[i].number
                == self.features[j].number)
        &&& forall|i: int| 0 <= i < self.features.len() ==> (#[trigger] self.features[i]).wf()
    }
}

/// One sensor chip: its sysfs directory, its driver prefix, its bus
/// identity, and the features discovered under it.
pub struct Chip {
    path: String,
    prefix: String,
    bus: Bus,
    address: u32,
    features: Vec<Feature>,
}

impl View for Chip {
    type V = ChipView;

    closed spec fn view(&self) -> ChipView {
        ChipView {
            path: self.path@,
            prefix: self.prefix@,
            bus: self.bus@,
            address: self.address,
            features: Seq::new(self.features@.len(), |i: int| self.features@[i]@),
        }
    }
}

/// One candidate attribute file of a chip directory: its base name and its
/// owner read and write permission bits.
#[derive(Clone, Debug)]
pub struct AttributeEntry {
    pub name: String,
    pub readable: bool,
    pub writable: bool,
}

/// The mathematical value of an attribute entry.
pub ghost struct AttributeEntryView {
    pub name: Seq<char>,
    pub readable: bool,
    pub writable: bool,
}

impl View for AttributeEntry {
    type V = AttributeEntryView;

    closed spec fn view(&self) -> AttributeEntryView {
        AttributeEntryView { name: self.name@, readable: self.readable, writable: self.writable }
    }
}

pub open spec fn attr_views(entries: Seq<AttributeEntry>) -> Seq<AttributeEntryView> {
    Seq::new(entries.len(), |i: int| entries[i]@)
}

/// The subfeature that a classified entry of the chip directory `dir`
/// contributes.
pub open spec fn subfeature_of_entry(
    dir: Seq<char>,
    e: AttributeEntryView,
    t: SubfeatureType,
) -> SubfeatureView {
    SubfeatureView {
        name: e.name,
        path: dir + "/"@ + e.name,
        subfeature_type: t,
        compute_statement: None,
        is_readable: e.readable,
        is_writable: e.writable,
    }
}

/// The index of the first feature with the given kind and number, or -1.
pub open spec fn feature_index(feats: Seq<FeatureView>, ft: FeatureType, number: u32) -> int
    decreases feats.len(),
{
    if feats.len() == 0 {
        -1
    } else if feats[0].feature_type == ft && feats[0].number == number {
        0
    } else {
        let r = feature_index(feats.skip(1), ft, number);
        if r == -1 {
            -1
        } else {
            r + 1
        }
    }
}

proof fn lemma_feature_index(feats: Seq<FeatureView>, ft: FeatureType, number: u32)
    ensures
        ({
            let idx = feature_index(feats, ft, number);
            &&& idx == -1 ==> forall|k: int|
                0 <= k < feats.len() ==> !((#[trigger] feats[k]).feature_type == ft
                    && feats[k].number == number)
            &&& idx != -1 ==> 0 <= idx < feats.len() && feats[idx].feature_type == ft
                && feats[idx].number == number && forall|k: int|
                0 <= k < idx ==> !((#[trigger] feats[k]).feature_type == ft && feats[k].number
                    == number)
        }),
    decreases feats.len(),
{
    if feats.len() > 0 {
        if !(feats[0].feature_type == ft && feats[0].number == number) {
            lemma_feature_index(feats.skip(1), ft, number);
            let sub = feature_index(feats.skip(1), ft, number);
            let idx = feature_index(feats, ft, number);
            if sub == -1 {
                assert(idx == -1);
                assert forall|k: int|
                    0 <= k < feats.len() implies !((#[trigger] feats[k]).feature_type == ft
                    && feats[k].number == number) by {
                    if k >= 1 {
                        assert(feats.skip(1)[k - 1] == feats[k]);
                    }
                }
            } else {
                assert(idx == sub + 1);
                assert(feats.skip(1)[sub] == feats[idx]);
                assert forall|k: int|
                    0 <= k < idx implies !((#[trigger] feats[k]).feature_type == ft
                    && feats[k].number == number) by {
                    if k >= 1 {
                        assert(feats.skip(1)[k - 1] == feats[k]);
                    }
                }
            }
        }
    }
}

/// How one directory entry changes the feature list: an unclassifiable
/// entry changes nothing; a classified one lands in the feature with its
/// kind and index, created at the end of the list on first sight, and is
/// dropped when that feature already has a subfeature of the same kind.
pub open spec fn scan_one(
    feats: Seq<FeatureView>,
    dir: Seq<char>,
    e: AttributeEntryView,
) -> Seq<FeatureView> {
    match classify_spec(e.name) {
        Ok((number, t)) => {
            let ft = feature_type_of(t);
            let sfv = subfeature_of_entry(dir, e, t);
            let idx = feature_index(feats, ft, number);
            if idx == -1 {
                feats.push(
                    FeatureView {
                        dir,
                        name: feature_name_spec(ft, number),
                        number,
                        feature_type: ft,
                        subfeatures: seq![sfv],
                        label: None,
                    },
                )
            } else if feats[idx].has_subfeature(t) {
                feats
            } else {
                feats.update(
                    idx,
                    FeatureView { subfeatures: feats[idx].subfeatures.push(sfv), ..feats[idx] },
                )
            }
        },
        Err(_) => feats,
    }
}

/// The feature list after a scan of the directory entries, in order.
pub open spec fn scan_spec(
    feats: Seq<FeatureView>,
    dir: Seq<char>,
    entries: Seq<AttributeEntryView>,
) -> Seq<FeatureView>
    decreases entries.len(),
{
    if entries.len() == 0 {
        feats
    } else {
        scan_spec(scan_one(feats, dir, entries[0]), dir, entries.skip(1))
    }
}

/// Well-formedness of a feature list: no two features share a kind and
/// index, and each feature is itself well formed.
pub open spec fn features_wf(feats: Seq<FeatureView>) -> bool {
    &&& forall|i: int, j: int|
        0 <= i < j < feats.len() ==> !((#[trigger] feats[i]).feature_type == (
        #[trigger] feats[j]).feature_type && feats[i].number == feats[j].number)
    &&& forall|i: int| 0 <= i < feats.len() ==> (#[trigger] feats[i]).wf()
}

proof fn lemma_scan_one_wf(feats: Seq<FeatureView>, dir: Seq<char>, e: AttributeEntryView)
    requires
        features_wf(feats),
    ensures
        features_wf(scan_one(feats, dir, e)),
{
    match classify_spec(e.name) {
        Ok((number, t)) => {
            let ft = feature_type_of(t);
            let sfv = subfeature_of_entry(dir, e, t);
            let idx = feature_index(feats, ft, number);
            lemma_feature_index(feats, ft, number);
            if idx == -1 {
                let nf = FeatureView {
                    dir,
                    name: feature_name_spec(ft, number),
                    number,
                    feature_type: ft,
                    subfeatures: seq![sfv],
                    label: None,
                };
                assert(nf.wf());
                let r = feats.push(nf);
                assert forall|i: int| 0 <= i < r.len() implies (#[trigger] r[i]).wf() by {
                    if i < feats.len() {
                        assert(r[i] == feats[i]);
                    }
                }
            } else if feats[idx].has_subfeature(t) {
            } else {
                let uf = FeatureView {
                    subfeatures: feats[idx].subfeatures.push(sfv),
                    ..feats[idx]
                };
                assert(feats[idx].wf());
                assert forall|i: int, j: int|
                    0 <= i < j < uf.subfeatures.len() implies (
                #[trigger] uf.subfeatures[i]).subfeature_type != (
                #[trigger] uf.subfeatures[j]).subfeature_type by {
                    if j < uf.subfeatures.len() - 1 {
                        assert(uf.subfeatures[i] == feats[idx].subfeatures[i]);
                        assert(uf.subfeatures[j] == feats[idx].subfeatures[j]);
                    } else {
                        assert(uf.subfeatures[i] == feats[idx].subfeatures[i]);
                        assert(uf.subfeatures[j] == sfv);
                        assert(!feats[idx].has_subfeature(t));
                    }
                }
                assert(uf.wf());
                let r = feats.update(idx, uf);
                assert forall|i: int| 0 <= i < r.len() implies (#[trigger] r[i]).wf() by {
                    if i != idx {
                        assert(r[i] == feats[i]);
                    }
                }
            }
        },
        Err(_) => {},
    }
}

/// A scan of directory entries keeps the feature list well formed: the
/// feature keys stay unique and every feature's subfeature kinds stay
/// unique and within its family.
pub proof fn lemma_scan_preserves_wf(
    feats: Seq<FeatureView>,
    dir: Seq<char>,
    entries: Seq<AttributeEntryView>,
)
    requires
        features_wf(feats),
    ensures
        features_wf(scan_spec(feats, dir, entries)),
    decreases entries.len(),
{
    if entries.len() > 0 {
        lemma_scan_one_wf(feats, dir, entries[0]);
        lemma_scan_preserves_wf(scan_one(feats, dir, entries[0]), dir, entries.skip(1));
    }
}

proof fn lemma_scan_snoc(
    feats: Seq<FeatureView>,
    dir: Seq<char>,
    entries: Seq<AttributeEntryView>,
    e: AttributeEntryView,
)
    ensures
        scan_spec(feats, dir, entries.push(e)) == scan_one(scan_spec(feats, dir, entries), dir, e),
    decreases entries.len(),
{
    if entries.len() == 0 {
        assert(entries.push(e)[0] == e);
        assert(entries.push(e).skip(1) =~= Seq::<AttributeEntryView>::empty());
        assert(scan_spec(feats, dir, entries.push(e)) == scan_spec(
            scan_one(feats, dir, e),
            dir,
            entries.push(e).skip(1),
        ));
        assert(scan_spec(scan_one(feats, dir, e), dir, entries.push(e).skip(1)) == scan_one(
            feats,
            dir,
            e,
        ));
        assert(scan_spec(feats, dir, entries) == feats);
    } else {
        assert(entries.push(e)[0] == entries[0]);
        assert(entries.push(e).skip(1) =~= entries.skip(1).push(e));
        lemma_scan_snoc(scan_one(feats, dir, entries[0]), dir, entries.skip(1), e);
        assert(scan_spec(feats, dir, entries.push(e)) == scan_spec(
            scan_one(feats, dir, entries[0]),
            dir,
            entries.skip(1).push(e),
        ));
        assert(scan_spec(feats, dir, entries) == scan_spec(
            scan_one(feats, dir, entries[0]),
            dir,
            entries.skip(1),
        ));
    }
}

fn feature_position(features: &Vec<Feature>, ft: FeatureType, number: u32) -> (r: Option<usize>)
    ensures
        ({
            let views = Seq::new(features@.len(), |i: int| features@[i]@);
            let idx = feature_index(views, ft, number);
            match r {
                Some(i) => idx == i as int && i < features@.len(),
                None => idx == -1,
            }
        }),
{
    let ghost views = Seq::new(features@.len(), |i: int| features@[i]@);
    proof {
        lemma_feature_index(views, ft, number);
    }
    let n = features.len();
    let mut i: usize = 0;
    while i < n
        invariant
            i <= n,
            n == features@.len(),
            views == Seq::new(features@.len(), |j: int| features@[j]@),
            forall|k: int|
                0 <= k < i ==> !((#[trigger] views[k]).feature_type == ft && views[k].number
                    == number),
        decreases n - i,
    {
        let f = &features[i];
        proof {
            assert(views[i as int] == features@[i as int]@);
        }
        if f.get_type() == ft && f.number() == number {
            proof {
                lemma_feature_index(views, ft, number);
            }
            return Some(i);
        }
        i = i + 1;
    }
    proof {
        lemma_feature_index(views, ft, number);
    }
    None
}

impl Chip {
    /// Builds a chip record with no features; a directory scan fills it.
    pub fn new(path: &str, prefix: String, bus: Bus, address: u32) -> (r: Chip)
        ensures
            r@ == (ChipView {
                path: path@,
                prefix: prefix@,
                bus: bus@,
                address,
                features: Seq::empty(),
            }),
    {
        let c = Chip { path: str_from(path), prefix, bus, address, features: Vec::new() };
        proof {
            assert(c@.features =~= Seq::<FeatureView>::empty());
        }
        c
    }

    /// Chip prefix: the driver name read from the chip's name attribute.
    pub fn prefix(&self) -> (r: &str)
        ensures
            r@ == self@.prefix,
    {
        self.prefix.as_str()
    }

    /// The chip address on the bus.
    pub fn address(&self) -> (r: u32)
        ensures
            r == self@.address,
    {
        self.address
    }

    /// The sysfs directory path of the chip.
    pub fn path(&self) -> (r: &str)
        ensures
            r@ == self@.path,
    {
        self.path.as_str()
    }

    /// The bus the chip is attached through.
    pub fn bus(&self) -> (r: &Bus)
        ensures
            r@ == self@.bus,
    {
        &self.bus
    }

    /// The canonical chip display name, synthesized from the prefix, the
    /// bus and the address; its exact format per bus family is part of the
    /// contract tools rely on.
    pub fn name(&self) -> (r: String)
        ensures
            r@ == self@.name_spec(),
    {
        let mut s = self.prefix.clone();
        match self.bus.get_type() {
            BusType::ISA => {
                s.append("-isa-");
                s.append(fmt_hex_u32_pad(self.address, 4).as_str());
            },
            BusType::PCI => {
                s.append("-pci-");
                s.append(fmt_hex_u32_pad(self.address, 4).as_str());
            },
            BusType::I2C => {
                s.append("-i2C-");
                s.append(fmt_dec_i16(self.bus.number()).as_str());
                s.append("-");
                s.append(fmt_hex_u32_pad(self.address, 2).as_str());
            },
            BusType::SPI => {
                s.append("-spi-");
                s.append(fmt_dec_i16(self.bus.number()).as_str());
                s.append("-");
                s.append(fmt_hex_u32_pad(self.address, 1).as_str());
            },
            BusType::HID => {
                s.append("-hid-");
                s.append(fmt_dec_i16(self.bus.number()).as_str());
                s.append("-");
                s.append(fmt_hex_u32_pad(self.address, 1).as_str());
            },
            BusType::ACPI => {
                s.append("-acpi-");
                s.append(fmt_hex_u32_pad(self.address, 1).as_str());
            },
            BusType::MDIO => {
                s.append("-mdio-");
                s.append(fmt_hex_u32_pad(self.address, 1).as_str());
            },
            BusType::SCSI => {
                s.append("-scsi-");
                s.append(fmt_dec_i16(self.bus.number()).as_str());
                s.append("-");
                s.append(fmt_hex_u32_pad(self.address, 1).as_str());
            },
            BusType::Virtual => {
                s.append("-virtual-");
                s.append(fmt_hex_u32_pad(self.address, 1).as_str());
            },
        }
        s
    }

    /// The feature of the given kind and index, if the chip has one.
    pub fn feature(&self, ftype: FeatureType, number: u32) -> (r: Option<&Feature>)
        ensures
            match r {
                Some(f) => feature_index(self@.features, ftype, number) >= 0 && f@
                    == self@.features[feature_index(self@.features, ftype, number)],
                None => feature_index(self@.features, ftype, number) == -1,
            },
    {
        match feature_position(&self.features, ftype, number) {
            Some(i) => {
                let f = &self.features[i];
                proof {
                    assert(self@.features[i as int] == self.features@[i as int]@);
                }
                Some(f)
            },
            None => None,
        }
    }

    /// An iterator visiting the features in discovery order.
    pub fn features_iter(&self) -> (r: FeatureIter)
        ensures
            r.items_spec() == self@.features,
            r.pos_spec() == 0,
    {
        FeatureIter { items: &self.features, pos: 0 }
    }

    /// Attaches a display label to the feature of the given kind and index;
    /// reports whether such a feature exists.
    pub fn set_feature_label(&mut self, ftype: FeatureType, number: u32, label: String) -> (r:
        bool)
        ensures
            ({
                let idx = feature_index(old(self)@.features, ftype, number);
                if idx == -1 {
                    r == false && *final(self) == *old(self)
                } else {
                    r == true && final(self)@ == (ChipView {
                        features: old(self)@.features.update(
                            idx,
                            FeatureView { label: Some(label@), ..old(self)@.features[idx] },
                        ),
                        ..old(self)@
                    })
                }
            }),
    {
        let ghost pre = self@;
        match feature_position(&self.features, ftype, number) {
            Some(i) => {
                let mut f = self.features.remove(i);
                f.set_label(label);
                self.features.insert(i, f);
                proof {
                    assert(self@.features =~= pre.features.update(
                        i as int,
                        FeatureView { label: Some(label@), ..pre.features[i as int] },
                    ));
                }
                true
            },
            None => false,
        }
    }

    /// Scans the candidate attribute files of the chip's directory,
    /// classifying each and grouping the recognized ones into features.
    /// Files that fail classification, and entries that would duplicate a
    /// subfeature kind within one feature, are dropped in silence.
    pub fn read_dynamic_chip(&mut self, entries: &Vec<AttributeEntry>)
        ensures
            final(self)@ == (ChipView {
                features: scan_spec(
                    old(self)@.features,
                    old(self)@.path,
                    attr_views(entries@),
                ),
                ..old(self)@
            }),
            features_wf(old(self)@.features) ==> features_wf(final(self)@.features),
    {
        proof {
            if features_wf(old(self)@.features) {
                lemma_scan_preserves_wf(old(self)@.features, old(self)@.path, attr_views(entries@));
            }
        }
        let ghost dir = old(self)@.path;
        let n = entries.len();
        let mut k: usize = 0;
        proof {
            assert(attr_views(entries@).take(0) =~= Seq::<AttributeEntryView>::empty());
        }
        while k < n
            invariant
                k <= n,
                n == entries@.len(),
                self@.path == old(self)@.path,
                self@.prefix == old(self)@.prefix,
                self@.bus == old(self)@.bus,
                self@.address == old(self)@.address,
                self@.features == scan_spec(
                    old(self)@.features,
                    old(self)@.path,
                    attr_views(entries@).take(k as int),
                ),
            decreases n - k,
        {
            let ghost dir = old(self)@.path;
            let ghost pre_feats = self@.features;
            let ghost ev = entries@[k as int]@;
            let e = &entries[k];
            match Subfeature::from_path(self.path.as_str(), e.name.as_str(), e.readable, e.writable)
            {
                Err(_) => {
                    proof {
                        assert(scan_one(pre_feats, dir, ev) == pre_feats);
                    }
                },
                Ok((number, sf)) => {
                    let ghost t = sf@.subfeature_type;
                    let ghost sfv = subfeature_of_entry(dir, ev, t);
                    proof {
                        assert(sf@.name == sfv.name);
                        assert(sf@.path == sfv.path);
                        assert(sf@.subfeature_type == sfv.subfeature_type);
                        assert(sf@.compute_statement == sfv.compute_statement);
                        assert(sf@.is_readable == sfv.is_readable);
                        assert(sf@.is_writable == sfv.is_writable);
                        assert(sf@ == sfv);
                    }
                    let ft = FeatureType::from(sf.get_type());
                    match feature_position(&self.features, ft, number) {
                        None => {
                            let mut f = Feature::new(self.path.as_str(), ft, number);
                            let pushed = f.push_subfeature(sf);
                            proof {
                                assert(pushed is Ok);
                                assert(f@.subfeatures =~= seq![sfv]);
                            }
                            self.features.push(f);
                            proof {
                                assert(self@.features =~= pre_feats.push(f@));
                                assert(self@.features =~= scan_one(pre_feats, dir, ev));
                            }
                        },
                        Some(i) => {
                            let has = self.features[i].subfeature(sf.get_type()).is_some();
                            proof {
                                assert(self.features@[i as int]@ == pre_feats[i as int]);
                                assert(has == pre_feats[i as int].has_subfeature(t));
                            }
                            if has {
                                proof {
                                    assert(scan_one(pre_feats, dir, ev) == pre_feats);
                                }
                            } else {
                                let mut f = self.features.remove(i);
                                proof {
                                    lemma_feature_index(pre_feats, ft, number);
                                    assert(f@ == pre_feats[i as int]);
                                    assert(f@.feature_type == ft);
                                }
                                let pushed = f.push_subfeature(sf);
                                proof {
                                    assert(pushed is Ok);
                                }
                                self.features.insert(i, f);
                                proof {
                                    assert(self@.features =~= pre_feats.update(
                                        i as int,
                                        FeatureView {
                                            subfeatures: pre_feats[i as int].subfeatures.push(sfv),
                                            ..pre_feats[i as int]
                                        },
                                    ));
                                    assert(self@.features =~= scan_one(pre_feats, dir, ev));
                                }
                            }
                        },
                    }
                },
            }
            proof {
                lemma_scan_snoc(
                    old(self)@.features,
                    dir,
                    attr_views(entries@).take(k as int),
                    ev,
                );
                assert(attr_views(entries@).take(k as int + 1) =~= attr_views(entries@).take(
                    k as int,
                ).push(ev));
            }
            k = k + 1;
        }
        proof {
            assert(attr_views(entries@).take(n as int) =~= attr_views(entries@));
        }
    }
}

/// An iterator over a chip's features.
pub struct FeatureIter<'a> {
    items: &'a Vec<Feature>,
    pos: usize,
}

impl<'a> FeatureIter<'a> {
    /// The features the iterator walks.
    pub closed spec fn items_spec(self) -> Seq<FeatureView> {
        Seq::new(self.items@.len(), |i: int| self.items@[i]@)
    }

    /// How many features were already handed out.
    pub closed spec fn pos_spec(self) -> int {
        self.pos as int
    }

    /// The next feature, or `None` once all were handed out.
    pub fn next(&mut self) -> (r: Option<&'a Feature>)
        ensures
            old(self).pos_spec() < old(self).items_spec().len() ==> {
                &&& final(self).items_spec() == old(self).items_spec()
                &&& final(self).pos_spec() == old(self).pos_spec() + 1
                &&& r matches Some(f) && f@ == old(self).items_spec()[old(self).pos_spec()]
            },
            old(self).pos_spec() >= old(self).items_spec().len() ==> r is None && *final(self)
                == *old(self),
    {
        if self.pos < self.items.len() {
            let r = &self.items[self.pos];
            self.pos = self.pos + 1;
            Some(r)
        } else {
            None
        }
    }
}

} // verus!
