//! Bus identity: the closed set of bus families a sensor chip can be
//! attached through, the per-chip bus record, and the discovered i2c
//! adapters.

use vstd::prelude::*;
use vstd::string::StrSliceExecFns;

use crate::context::Context;
use crate::error::Error;
use crate::text::{parse_dec_i16, parse_dec_i16_spec, str_starts_with};

verus! {

/// The bus families a hwmon chip can be attached through.
#[allow(non_snake_case)]
#[derive(Clone, Copy, Debug, Eq, PartialEq, Structural)]
pub enum BusType {
    I2C,
    ISA,
    PCI,
    SPI,
    Virtual,
    ACPI,
    HID,
    MDIO,
    SCSI,
}

impl BusType {
    /// The fixed display name of the bus family.
    pub open spec fn display_name_spec(self) -> Seq<char> {
        match self {
            BusType::I2C => "I2C"@,
            BusType::ISA => "ISA"@,
            BusType::PCI => "PCI"@,
            BusType::SPI => "SPI"@,
            BusType::Virtual => "Virtual"@,
            BusType::ACPI => "ACPI"@,
            BusType::HID => "HID"@,
            BusType::MDIO => "MDIO"@,
            BusType::SCSI => "SCSI"@,
        }
    }

    /// The fixed display name of the bus family.
    pub fn display_name(&self) -> (r: &'static str)
        ensures
            r@ == self.display_name_spec(),
    {
        match *self {
            BusType::I2C => "I2C",
            BusType::ISA => "ISA",
            BusType::PCI => "PCI",
            BusType::SPI => "SPI",
            BusType::Virtual => "Virtual",
            BusType::ACPI => "ACPI",
            BusType::HID => "HID",
            BusType::MDIO => "MDIO",
            BusType::SCSI => "SCSI",
        }
    }
}

/// The mathematical value of a discovered i2c adapter record.
pub ghost struct BusAdapterView {
    pub name: Seq<char>,
    pub bus_type: BusType,
    pub bus_number: i16,
}

/// A discovered i2c adapter: its display name and its bus number.
#[derive(Clone, Debug)]
pub struct BusAdapter {
    name: String,
    bus_type: BusType,
    bus_number: i16,
}

impl View for BusAdapter {
    type V = BusAdapterView;

    closed spec fn view(&self) -> BusAdapterView {
        BusAdapterView {
            name: self.name@,
            bus_type: self.bus_type,
            bus_number: self.bus_number,
        }
    }
}

/// What `BusAdapter::from_sysfs_i2c` returns for a class-directory entry
/// named `classdev` whose adapter name attribute read `name` (absent when
/// the attribute could not be read).
pub open spec fn from_sysfs_i2c_spec(classdev: Seq<char>, name: Option<Seq<char>>) -> Result<
    Option<BusAdapterView>,
    Error,
> {
    if !(classdev.len() > 4 && classdev.take(4) == "i2c-"@) {
        Err(Error::ParseBusName(BusType::I2C))
    } else {
        match parse_dec_i16_spec(classdev.skip(4)) {
            None => Err(Error::ParseInt),
            Some(bus_number) => if bus_number == 9191 {
                // the legacy ISA bus is not an adapter
                Ok(None)
            } else {
                match name {
                    None => Err(Error::Io),
                    Some(n) => Ok(
                        Some(
                            BusAdapterView {
                                name: n,
                                bus_type: BusType::I2C,
                                bus_number,
                            },
                        ),
                    ),
                }
            },
        }
    }
}

impl BusAdapter {
    /// Builds an adapter record directly from its parts.
    pub fn new(name: String, bus_type: BusType, bus_number: i16) -> (r: BusAdapter)
        ensures
            r@ == (BusAdapterView { name: name@, bus_type, bus_number }),
    {
        BusAdapter { name, bus_type, bus_number }
    }

    /// Classifies one entry of an i2c adapter class directory.  `classdev`
    /// is the entry's file name (`i2c-<n>`); `name` is the content of its
    /// adapter name attribute, if that could be read.  Bus number 9191
    /// stands for the legacy ISA bus and yields no adapter.
    pub fn from_sysfs_i2c(classdev: &str, name: Option<&str>) -> (r: Result<
        Option<BusAdapter>,
        Error,
    >)
        ensures
            match r {
                Ok(Some(a)) => from_sysfs_i2c_spec(classdev@, opt_str_view(name)) == Ok::<
                    Option<BusAdapterView>,
                    Error,
                >(Some(a@)),
                Ok(None) => from_sysfs_i2c_spec(classdev@, opt_str_view(name)) == Ok::<
                    Option<BusAdapterView>,
                    Error,
                >(None),
                Err(e) => from_sysfs_i2c_spec(classdev@, opt_str_view(name)) == Err::<
                    Option<BusAdapterView>,
                    Error,
                >(e),
            },
    {
        let len = classdev.unicode_len();
        if !(str_starts_with(classdev, "i2c-") && len > 4) {
            proof {
                reveal_strlit("i2c-");
            }
            return Err(Error::ParseBusName(BusType::I2C));
        }
        proof {
            reveal_strlit("i2c-");
        }
        let digits = classdev.substring_char(4, len);
        proof {
            assert(classdev@.subrange(4, len as int) =~= classdev@.skip(4));
        }
        let bus_number = match parse_dec_i16(digits) {
            Some(n) => n,
            None => {
                return Err(Error::ParseInt);
            },
        };
        if bus_number == 9191 {
            return Ok(None);
        }
        match name {
            Some(n) => Ok(
                Some(
                    BusAdapter {
                        name: n.to_owned(),
                        bus_type: BusType::I2C,
                        bus_number,
                    },
                ),
            ),
            None => Err(Error::Io),
        }
    }

    /// The adapter's display name.
    pub fn name(&self) -> (r: &str)
        ensures
            r@ == self@.name,
    {
        self.name.as_str()
    }

    /// The adapter's bus type.
    pub fn bus_type(&self) -> (r: BusType)
        ensures
            r == self@.bus_type,
    {
        self.bus_type
    }

    /// The adapter's bus number.
    pub fn bus_number(&self) -> (r: i16)
        ensures
            r == self@.bus_number,
    {
        self.bus_number
    }
}

/// The view of an optional borrowed string.
pub open spec fn opt_str_view(s: Option<&str>) -> Option<Seq<char>> {
    match s {
        Some(s) => Some(s@),
        None => None,
    }
}

/// The mathematical value of a per-chip bus record.
pub ghost struct BusView {
    pub bus_type: BusType,
    pub bus_number: i16,
    pub adapters: Seq<BusAdapterView>,
}

/// The bus one chip is attached through: its family, its number, and a
/// shared handle to the adapter snapshot used to name it.
#[derive(Clone)]
pub struct Bus {
    bus_type: BusType,
    bus_number: i16,
    context: Context,
}

impl View for Bus {
    type V = BusView;

    closed spec fn view(&self) -> BusView {
        BusView {
            bus_type: self.bus_type,
            bus_number: self.bus_number,
            adapters: self.context@,
        }
    }
}

/// The name of the first adapter of the given type and number, if any.
pub open spec fn find_adapter_name(
    adapters: Seq<BusAdapterView>,
    bus_type: BusType,
    bus_number: i16,
) -> Option<Seq<char>>
    decreases adapters.len(),
{
    if adapters.len() == 0 {
        None
    } else if adapters[0].bus_type == bus_type && adapters[0].bus_number == bus_number {
        Some(adapters[0].name)
    } else {
        find_adapter_name(adapters.skip(1), bus_type, bus_number)
    }
}

proof fn lemma_find_adapter_name_skip(
    adapters: Seq<BusAdapterView>,
    bus_type: BusType,
    bus_number: i16,
    i: int,
)
    requires
        0 <= i <= adapters.len(),
        forall|k: int|
            0 <= k < i ==> !(#[trigger] adapters[k].bus_type == bus_type && adapters[k].bus_number
                == bus_number),
    ensures
        find_adapter_name(adapters, bus_type, bus_number) == find_adapter_name(
            adapters.skip(i),
            bus_type,
            bus_number,
        ),
    decreases i,
{
    if i > 0 {
        lemma_find_adapter_name_skip(adapters, bus_type, bus_number, i - 1);
        assert(adapters.skip(i - 1)[0] == adapters[i - 1]);
        assert(adapters.skip(i - 1).skip(1) =~= adapters.skip(i));
    } else {
        assert(adapters.skip(0) =~= adapters);
    }
}

impl BusView {
    /// The adapter name the bus resolves to: a fixed name per bus family,
    /// and for i2c the name of the matching adapter in the snapshot.
    pub open spec fn adapter_name_spec(self) -> Option<Seq<char>> {
        match self.bus_type {
            BusType::ISA => Some("ISA adapter"@),
            BusType::PCI => Some("PCI adapter"@),
            BusType::SPI => Some("SPI adapter"@),
            BusType::Virtual => Some("Virtual device"@),
            BusType::ACPI => Some("ACPI interface"@),
            BusType::HID => Some("HID adapter"@),
            BusType::MDIO => Some("MDIO adapter"@),
            BusType::SCSI => Some("SCSI adapter"@),
            BusType::I2C => find_adapter_name(self.adapters, self.bus_type, self.bus_number),
        }
    }
}

impl Bus {
    /// Builds the bus record of one chip.
    pub fn new(bus_type: BusType, bus_number: i16, context: Context) -> (r: Bus)
        ensures
            r@ == (BusView { bus_type, bus_number, adapters: context@ }),
    {
        Bus { bus_type, bus_number, context }
    }

    /// The bus type.
    pub fn get_type(&self) -> (r: BusType)
        ensures
            r == self@.bus_type,
    {
        self.bus_type
    }

    /// The bus number.
    pub fn number(&self) -> (r: i16)
        ensures
            r == self@.bus_number,
    {
        self.bus_number
    }

    /// The adapter name of the bus: a fixed name for single-instance bus
    /// families, the snapshot's matching entry for i2c, and `None` when no
    /// entry matches.
    pub fn adapter_name(&self) -> (r: Option<&str>)
        ensures
            opt_str_view(r) == self@.adapter_name_spec(),
    {
        match self.bus_type {
            BusType::ISA => Some("ISA adapter"),
            BusType::PCI => Some("PCI adapter"),
            // SPI should not be here, but SPI adapters have no name, so
            // there is no other string to return.
            BusType::SPI => Some("SPI adapter"),
            BusType::Virtual => Some("Virtual device"),
            BusType::ACPI => Some("ACPI interface"),
            // Nor should HID, but where a HID bus keeps its name is unknown.
            BusType::HID => Some("HID adapter"),
            BusType::MDIO => Some("MDIO adapter"),
            BusType::SCSI => Some("SCSI adapter"),
            BusType::I2C => {
                let adapters = self.context.adapters();
                let n = adapters.len();
                let mut i: usize = 0;
                while i < n
                    invariant
                        i <= n,
                        n == adapters@.len(),
                        adapters@.map_values(|a: BusAdapter| a@) == self@.adapters,
                        self.bus_type == BusType::I2C,
                        self@.bus_type == self.bus_type,
                        self@.bus_number == self.bus_number,
                        forall|k: int|
                            0 <= k < i ==> !(#[trigger] self@.adapters[k].bus_type == self.bus_type
                                && self@.adapters[k].bus_number == self.bus_number),
                    decreases n - i,
                {
                    let a = &adapters[i];
                    proof {
                        assert(self@.adapters[i as int] == adapters@[i as int]@);
                    }
                    if a.bus_type() == self.bus_type && a.bus_number() == self.bus_number {
                        proof {
                            lemma_find_adapter_name_skip(
                                self@.adapters,
                                self.bus_type,
                                self.bus_number,
                                i as int,
                            );
                            assert(self@.adapters.skip(i as int)[0] == self@.adapters[i as int]);
                        }
                        return Some(a.name());
                    }
                    i = i + 1;
                }
                proof {
                    lemma_find_adapter_name_skip(
                        self@.adapters,
                        self.bus_type,
                        self.bus_number,
                        n as int,
                    );
                    assert(self@.adapters.skip(n as int) =~= Seq::<BusAdapterView>::empty());
                }
                None
            },
        }
    }
}

} // verus!
