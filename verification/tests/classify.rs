use hwmon::error::SubfeatureError;
use hwmon::subfeature::{
    get_properties_from_name, Current, Fan, Humidity, Intrusion, Power, Subfeature,
    SubfeatureType, Temperature, Voltage,
};
use hwmon::Error;

#[test]
fn classify_recognized_names() {
    assert_eq!(
        get_properties_from_name("temp3_crit_alarm"),
        Ok((3, SubfeatureType::Temperature(Temperature::Crit_Max_Alarm)))
    );
    assert_eq!(
        get_properties_from_name("in0_input"),
        Ok((0, SubfeatureType::Voltage(Voltage::Input)))
    );
    assert_eq!(
        get_properties_from_name("fan12_min"),
        Ok((12, SubfeatureType::Fan(Fan::Min)))
    );
    assert_eq!(
        get_properties_from_name("curr2_lcrit"),
        Ok((2, SubfeatureType::Current(Current::Crit_Min)))
    );
    assert_eq!(
        get_properties_from_name("power1_average_interval_max"),
        Ok((1, SubfeatureType::Power(Power::Average_Interval_Max)))
    );
    assert_eq!(
        get_properties_from_name("energy4_input"),
        Ok((4, SubfeatureType::Energy(hwmon::subfeature::Energy::Input)))
    );
    assert_eq!(
        get_properties_from_name("humidity1_input"),
        Ok((1, SubfeatureType::Humidity(Humidity::Input)))
    );
    assert_eq!(
        get_properties_from_name("intrusion0_alarm"),
        Ok((0, SubfeatureType::Intrusion(Intrusion::Alarm)))
    );
    assert_eq!(get_properties_from_name("cpu0_vid"), Ok((0, SubfeatureType::Cpu)));
    assert_eq!(
        get_properties_from_name("temp10_lcrit_hyst"),
        Ok((10, SubfeatureType::Temperature(Temperature::Crit_Min_Hyst)))
    );
}

#[test]
fn classify_beep_enable_is_special() {
    assert_eq!(
        get_properties_from_name("beep_enable"),
        Ok((0, SubfeatureType::BeepEnable))
    );
}

#[test]
fn classify_leading_zeros_in_index() {
    assert_eq!(
        get_properties_from_name("temp01_input"),
        Ok((1, SubfeatureType::Temperature(Temperature::Input)))
    );
}

#[test]
fn classify_unknown_tag_or_suffix() {
    assert_eq!(
        get_properties_from_name("temp1_frobnicate"),
        Err(SubfeatureError::Unknown)
    );
    assert_eq!(get_properties_from_name("xyz9_input"), Err(SubfeatureError::Unknown));
    assert_eq!(get_properties_from_name("fan1_"), Err(SubfeatureError::Unknown));
    // the tag is case-sensitive
    assert_eq!(get_properties_from_name("Temp1_input"), Err(SubfeatureError::Unknown));
}

#[test]
fn classify_index_overflow_is_unknown() {
    assert_eq!(
        get_properties_from_name("temp4294967295_input"),
        Ok((4294967295, SubfeatureType::Temperature(Temperature::Input)))
    );
    assert_eq!(
        get_properties_from_name("temp4294967296_input"),
        Err(SubfeatureError::Unknown)
    );
}

#[test]
fn classify_invalid_shapes() {
    // no digits at all
    assert_eq!(get_properties_from_name("temperature"), Err(SubfeatureError::Invalid));
    assert_eq!(get_properties_from_name("temp_input"), Err(SubfeatureError::Invalid));
    // no underscore after the digits
    assert_eq!(get_properties_from_name("temp3input"), Err(SubfeatureError::Invalid));
    // digits at the very end
    assert_eq!(get_properties_from_name("temp3"), Err(SubfeatureError::Invalid));
    assert_eq!(get_properties_from_name(""), Err(SubfeatureError::Invalid));
}

#[test]
fn subfeature_from_path_builds_entity() {
    let (number, sf) =
        Subfeature::from_path("/sys/class/hwmon/hwmon0", "temp1_max", true, true).unwrap();
    assert_eq!(number, 1);
    assert_eq!(sf.name(), "temp1_max");
    assert_eq!(sf.path(), "/sys/class/hwmon/hwmon0/temp1_max");
    assert_eq!(sf.get_type(), SubfeatureType::Temperature(Temperature::Max));
    assert!(sf.compute_statement().is_none());
    assert!(sf.is_readable());
    assert!(sf.is_writable());
}

#[test]
fn subfeature_from_path_propagates_classification_errors() {
    assert_eq!(
        Subfeature::from_path("/d", "unrelated_file", true, false).map(|_| ()),
        Err(SubfeatureError::Invalid)
    );
    assert_eq!(
        Subfeature::from_path("/d", "gpu1_input", true, false).map(|_| ()),
        Err(SubfeatureError::Unknown)
    );
}

#[test]
fn read_gate_follows_owner_read_bit() {
    let (_, sf) = Subfeature::from_path("/d", "temp1_input", false, false).unwrap();
    assert!(!sf.is_readable());
    match sf.check_readable() {
        Err(Error::Access(m)) => assert_eq!(m, "Subfeature not readable"),
        other => panic!("expected an access error, got {:?}", other),
    }
    let (_, sf) = Subfeature::from_path("/d", "temp1_input", true, false).unwrap();
    assert!(sf.check_readable().is_ok());
}

#[test]
fn write_gate_follows_owner_write_bit() {
    let (_, sf) = Subfeature::from_path("/d", "temp1_max", true, false).unwrap();
    assert!(!sf.is_writable());
    match sf.check_writable() {
        Err(Error::Access(m)) => assert_eq!(m, "Subfeature not writable"),
        other => panic!("expected an access error, got {:?}", other),
    }
    let (_, sf) = Subfeature::from_path("/d", "temp1_max", true, true).unwrap();
    assert!(sf.check_writable().is_ok());
}

#[test]
fn alarm_table_matches_convention() {
    assert!(SubfeatureType::Fan(Fan::Alarm).is_alarm());
    assert!(SubfeatureType::Fan(Fan::Min_Alarm).is_alarm());
    assert!(!SubfeatureType::Fan(Fan::Fault).is_alarm());
    assert!(!SubfeatureType::Fan(Fan::Beep).is_alarm());
    assert!(SubfeatureType::Temperature(Temperature::Emergency_Alarm).is_alarm());
    assert!(!SubfeatureType::Temperature(Temperature::Input).is_alarm());
    assert!(SubfeatureType::Voltage(Voltage::Crit_Min_Alarm).is_alarm());
    assert!(SubfeatureType::Power(Power::Cap_Alarm).is_alarm());
    assert!(!SubfeatureType::Power(Power::Accuracy).is_alarm());
    // intrusion alarms are not flagged as alarms by the fixed table
    assert!(!SubfeatureType::Intrusion(Intrusion::Alarm).is_alarm());
    assert!(!SubfeatureType::Cpu.is_alarm());
    assert!(!SubfeatureType::BeepEnable.is_alarm());
}

#[test]
fn scale_table_matches_convention() {
    let unity = SubfeatureType::Fan(Fan::Input).scale();
    assert_eq!((unity.numer(), unity.denom()), (1, 1));
    let milli = SubfeatureType::Temperature(Temperature::Input).scale();
    assert_eq!((milli.numer(), milli.denom()), (1, 1000));
    let type_scale = SubfeatureType::Temperature(Temperature::Type).scale();
    assert_eq!((type_scale.numer(), type_scale.denom()), (1, 1));
    let micro = SubfeatureType::Power(Power::Input).scale();
    assert_eq!((micro.numer(), micro.denom()), (1, 1000000));
    let interval = SubfeatureType::Power(Power::Average_Interval).scale();
    assert_eq!((interval.numer(), interval.denom()), (1, 1000));
    let cpu = SubfeatureType::Cpu.scale();
    assert_eq!((cpu.numer(), cpu.denom()), (1, 1000));
    let intrusion = SubfeatureType::Intrusion(Intrusion::Beep).scale();
    assert_eq!((intrusion.numer(), intrusion.denom()), (1, 1000000));
}

#[test]
fn raw_round_trip_within_one_unit() {
    // mirror of the value conversion a caller performs: raw -> engineering
    // units by the reciprocal of the scale factor, and back with rounding
    for sft in [
        SubfeatureType::Temperature(Temperature::Input),
        SubfeatureType::Fan(Fan::Input),
        SubfeatureType::Power(Power::Input),
        SubfeatureType::Cpu,
    ] {
        let ratio = sft.scale();
        let scale = ratio.denom() as f64 / ratio.numer() as f64;
        for raw in [-1500000i64, -1001, -1, 0, 1, 999, 1000, 123456789] {
            let unity = raw as f64 / scale;
            let back = (unity * scale).round() as i64;
            assert!((back - raw).abs() <= 1, "{:?} {}", sft, raw);
        }
    }
}
