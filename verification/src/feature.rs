//! Features: the measurement channels of a chip, each grouping the
//! subfeatures that share its kind and index.

use vstd::prelude::*;

use crate::error::FeatureError;
use crate::subfeature::{Subfeature, SubfeatureType, SubfeatureView};
use crate::text::{dec_str, fmt_dec_u32, str_from};

verus! {

/// The kinds of measurement channel a chip can expose, ordered for
/// deterministic presentation.
#[derive(Clone, Copy, Debug, Hash, Eq, PartialEq, Ord, PartialOrd, Structural)]
pub enum FeatureType {
    Fan,
    Pwm,
    Temperature,
    Voltage,
    Current,
    Power,
    Energy,
    Humidity,
    Cpu,
    Intrusion,
    BeepEnable,
}

/// The feature family a subfeature kind belongs to.
pub open spec fn feature_type_of(t: SubfeatureType) -> FeatureType {
    match t {
        SubfeatureType::Fan(_) => FeatureType::Fan,
        SubfeatureType::Temperature(_) => FeatureType::Temperature,
        SubfeatureType::Voltage(_) => FeatureType::Voltage,
        SubfeatureType::Current(_) => FeatureType::Current,
        SubfeatureType::Power(_) => FeatureType::Power,
        SubfeatureType::Energy(_) => FeatureType::Energy,
        SubfeatureType::Humidity(_) => FeatureType::Humidity,
        SubfeatureType::Cpu => FeatureType::Cpu,
        SubfeatureType::Intrusion(_) => FeatureType::Intrusion,
        SubfeatureType::BeepEnable => FeatureType::BeepEnable,
    }
}

impl From<SubfeatureType> for FeatureType {
    fn from(t: SubfeatureType) -> (r: FeatureType) {
        match t {
            SubfeatureType::Fan(_) => FeatureType::Fan,
            SubfeatureType::Temperature(_) => FeatureType::Temperature,
            SubfeatureType::Voltage(_) => FeatureType::Voltage,
            SubfeatureType::Current(_) => FeatureType::Current,
            SubfeatureType::Power(_) => FeatureType::Power,
            SubfeatureType::Energy(_) => FeatureType::Energy,
            SubfeatureType::Humidity(_) => FeatureType::Humidity,
            SubfeatureType::Cpu => FeatureType::Cpu,
            SubfeatureType::Intrusion(_) => FeatureType::Intrusion,
            SubfeatureType::BeepEnable => FeatureType::BeepEnable,
        }
    }
}

impl vstd::std_specs::convert::FromSpecImpl<SubfeatureType> for FeatureType {
    open spec fn obeys_from_spec() -> bool {
        true
    }

    open spec fn from_spec(t: SubfeatureType) -> FeatureType {
        feature_type_of(t)
    }
}

/// The synthesized display name of the feature of the given kind and index:
/// `temp3`, `fan2`, `cpu0_vid`, or the bare `beep_enable`.
pub open spec fn feature_name_spec(feature_type: FeatureType, number: u32) -> Seq<char> {
    match feature_type {
        FeatureType::Voltage => "in"@ + dec_str(number as nat),
        FeatureType::Fan => "fan"@ + dec_str(number as nat),
        FeatureType::Pwm => "pwm"@ + dec_str(number as nat),
        FeatureType::Temperature => "temp"@ + dec_str(number as nat),
        FeatureType::Power => "power"@ + dec_str(number as nat),
        FeatureType::Energy => "energy"@ + dec_str(number as nat),
        FeatureType::Current => "curr"@ + dec_str(number as nat),
        FeatureType::Humidity => "humidity"@ + dec_str(number as nat),
        FeatureType::Cpu => "cpu"@ + dec_str(number as nat) + "_vid"@,
        FeatureType::Intrusion => "intrusion"@ + dec_str(number as nat),
        FeatureType::BeepEnable => "beep_enable"@,
    }
}

/// The mathematical value of a feature.
pub ghost struct FeatureView {
    pub dir: Seq<char>,
    pub name: Seq<char>,
    pub number: u32,
    pub feature_type: FeatureType,
    pub subfeatures: Seq<SubfeatureView>,
    pub label: Option<Seq<char>>,
}

impl FeatureView {
    /// Well-formedness: the name is the synthesized one, every subfeature
    /// belongs to the feature's family, and no two subfeatures share a
    /// kind.
    pub open spec fn wf(self) -> bool {
        &&& self.name == feature_name_spec(self.feature_type, self.number)
        &&& forall|i: int|
            0 <= i < self.subfeatures.len() ==> feature_type_of(
                (#[trigger] self.subfeatures[i]).subfeature_type,
            ) == self.feature_type
        &&& forall|i: int, j: int|
            0 <= i < j < self.subfeatures.len() ==> (#[trigger] self.subfeatures[i]).subfeature_type
                != (#[trigger] self.subfeatures[j]).subfeature_type
    }

    /// Whether some subfeature of the feature has the given kind.
    pub open spec fn has_subfeature(self, t: SubfeatureType) -> bool {
        exists|i: int|
            0 <= i < self.subfeatures.len() && (#[trigger] self.subfeatures[i]).subfeature_type
                == t
    }
}

/// One measurement channel of a chip and its discovered subfeatures.
#[derive(Debug)]
pub struct Feature {
    dir: String,
    name: String,
    number: u32,
    feature_type: FeatureType,
    subfeatures: Vec<Subfeature>,
    label: Option<String>,
}

impl View for Feature {
    type V = FeatureView;

    closed spec fn view(&self) -> FeatureView {
        FeatureView {
            dir: self.dir@,
            name: self.name@,
            number: self.number,
            feature_type: self.feature_type,
            subfeatures: Seq::new(
                self.subfeatures@.len(),
                |i: int| self.subfeatures@[i]@,
            ),
            label: match self.label {
                Some(ref l) => Some(l@),
                None => None,
            },
        }
    }
}

impl Feature {
    /// Feature name.
    pub fn name(&self) -> (r: &str)
        ensures
            r@ == self@.name,
    {
        self.name.as_str()
    }

    /// Feature number.
    pub fn number(&self) -> (r: u32)
        ensures
            r == self@.number,
    {
        self.number
    }

    /// The feature type.
    pub fn get_type(&self) -> (r: FeatureType)
        ensures
            r == self@.feature_type,
    {
        self.feature_type
    }

    /// The display label: the label attached by discovery when one exists,
    /// the feature's own name otherwise.
    pub fn label(&self) -> (r: String)
        ensures
            match self@.label {
                Some(l) => r@ == l,
                None => r@ == self@.name,
            },
    {
        match self.label {
            Some(ref l) => l.clone(),
            None => self.name.clone(),
        }
    }

    /// Attaches the display label, normally the trimmed content of the
    /// feature's label attribute file.
    pub fn set_label(&mut self, label: String)
        ensures
            final(self)@ == (FeatureView { label: Some(label@), ..old(self)@ }),
    {
        self.label = Some(label);
    }

    /// The name of the sysfs attribute that overrides the display label.
    pub fn label_attr_name(&self) -> (r: String)
        ensures
            r@ == self@.name + "_label"@,
    {
        let mut s = self.name.clone();
        s.append("_label");
        s
    }

    /// The subfeature of the given kind, if the feature has one.
    pub fn subfeature(&self, subfeature_type: SubfeatureType) -> (r: Option<&Subfeature>)
        ensures
            (r is Some) == self@.has_subfeature(subfeature_type),
            r matches Some(sf) ==> self@.subfeatures.contains(sf@) && sf@.subfeature_type
                == subfeature_type,
    {
        let n = self.subfeatures.len();
        let mut i: usize = 0;
        while i < n
            invariant
                i <= n,
                n == self@.subfeatures.len(),
                n == self.subfeatures@.len(),
                forall|k: int|
                    0 <= k < i ==> (#[trigger] self@.subfeatures[k]).subfeature_type
                        != subfeature_type,
            decreases n - i,
        {
            let sf = &self.subfeatures[i];
            proof {
                assert(self@.subfeatures[i as int] == self.subfeatures@[i as int]@);
            }
            if sf.get_type() == subfeature_type {
                return Some(sf);
            }
            i = i + 1;
        }
        None
    }

    /// An iterator visiting the subfeatures in discovery order.
    pub fn subfeatures_iter(&self) -> (r: SubfeatureIter)
        ensures
            r.items_spec() == self@.subfeatures,
            r.pos_spec() == 0,
    {
        SubfeatureIter { items: &self.subfeatures, pos: 0 }
    }

    /// Creates the empty feature of the given kind and index for a chip
    /// directory.
    pub fn new(dir: &str, feature_type: FeatureType, number: u32) -> (r: Feature)
        ensures
            r@ == (FeatureView {
                dir: dir@,
                name: feature_name_spec(feature_type, number),
                number,
                feature_type,
                subfeatures: Seq::empty(),
                label: None,
            }),
            r@.wf(),
    {
        let name = match feature_type {
            FeatureType::Voltage => {
                let mut s = str_from("in");
                s.append(fmt_dec_u32(number).as_str());
                s
            },
            FeatureType::Fan => {
                let mut s = str_from("fan");
                s.append(fmt_dec_u32(number).as_str());
                s
            },
            FeatureType::Pwm => {
                let mut s = str_from("pwm");
                s.append(fmt_dec_u32(number).as_str());
                s
            },
            FeatureType::Temperature => {
                let mut s = str_from("temp");
                s.append(fmt_dec_u32(number).as_str());
                s
            },
            FeatureType::Power => {
                let mut s = str_from("power");
                s.append(fmt_dec_u32(number).as_str());
                s
            },
            FeatureType::Energy => {
                let mut s = str_from("energy");
                s.append(fmt_dec_u32(number).as_str());
                s
            },
            FeatureType::Current => {
                let mut s = str_from("curr");
                s.append(fmt_dec_u32(number).as_str());
                s
            },
            FeatureType::Humidity => {
                let mut s = str_from("humidity");
                s.append(fmt_dec_u32(number).as_str());
                s
            },
            FeatureType::Cpu => {
                let mut s = str_from("cpu");
                s.append(fmt_dec_u32(number).as_str());
                s.append("_vid");
                s
            },
            FeatureType::Intrusion => {
                let mut s = str_from("intrusion");
                s.append(fmt_dec_u32(number).as_str());
                s
            },
            FeatureType::BeepEnable => str_from("beep_enable"),
        };
        let f = Feature {
            dir: str_from(dir),
            name,
            number,
            feature_type,
            subfeatures: Vec::new(),
            label: None,
        };
        proof {
            assert(f@.subfeatures =~= Seq::<SubfeatureView>::empty());
        }
        f
    }

    /// Appends a subfeature; rejected when its kind belongs to another
    /// feature family than this feature's.
    pub fn push_subfeature(&mut self, subfeature: Subfeature) -> (r: Result<(), FeatureError>)
        ensures
            match r {
                Ok(()) => feature_type_of(subfeature@.subfeature_type) == old(
                    self,
                )@.feature_type && final(self)@ == (FeatureView {
                    subfeatures: old(self)@.subfeatures.push(subfeature@),
                    ..old(self)@
                }),
                Err(e) => e == FeatureError::SubfeatureType && feature_type_of(
                    subfeature@.subfeature_type,
                ) != old(self)@.feature_type && final(self)@ == old(self)@,
            },
    {
        if FeatureType::from(subfeature.get_type()) == self.feature_type {
            let ghost pre = self@;
            self.subfeatures.push(subfeature);
            proof {
                assert(self@.subfeatures =~= pre.subfeatures.push(subfeature@));
                assert(self@ == (FeatureView { subfeatures: pre.subfeatures.push(subfeature@), ..pre }));
            }
            Ok(())
        } else {
            Err(FeatureError::SubfeatureType)
        }
    }
}

/// An iterator over a feature's subfeatures.
pub struct SubfeatureIter<'a> {
    items: &'a Vec<Subfeature>,
    pos: usize,
}

impl<'a> SubfeatureIter<'a> {
    /// The subfeatures the iterator walks.
    pub closed spec fn items_spec(self) -> Seq<SubfeatureView> {
        Seq::new(self.items@.len(), |i: int| self.items@[i]@)
    }

    /// How many subfeatures were already handed out.
    pub closed spec fn pos_spec(self) -> int {
        self.pos as int
    }

    /// The next subfeature, or `None` once all were handed out.
    pub fn next(&mut self) -> (r: Option<&'a Subfeature>)
        ensures
            old(self).pos_spec() < old(self).items_spec().len() ==> {
                &&& final(self).items_spec() == old(self).items_spec()
                &&& final(self).pos_spec() == old(self).pos_spec() + 1
                &&& r matches Some(sf) && sf@ == old(self).items_spec()[old(self).pos_spec()]
            },
            old(self).pos_spec() >= old(self).items_spec().len() ==> r is None && *final(self)
                == *old(self),
    {
        if self.pos < self.items.len() {
            let r = &self.items[self.pos];
            self.pos = self.pos + 1;
            Some(r)
        } else {
            None
        }
    }
}

} // verus!
