use csv_projection::{CsvValue, DefaultTarget, Japanese, SampleValue};

#[test]
fn new_wraps_the_scalar() {
    let value: CsvValue<i64, SampleValue, DefaultTarget> = CsvValue::new(10);
    assert_eq!(value.value(), &10);
    assert_eq!(value.into_value(), 10);

    let text: CsvValue<String, SampleValue, Japanese> = CsvValue::new("サンプルA".to_string());
    assert_eq!(text.value(), "サンプルA");
    assert_eq!(text.into_value(), "サンプルA".to_string());
}

#[test]
fn new_does_not_check_the_scalar() {
    let value: CsvValue<i64, SampleValue, DefaultTarget> = CsvValue::new(2);
    assert_eq!(value.value(), &2);
}

#[test]
fn from_wraps_the_scalar() {
    let value: CsvValue<i64, SampleValue, DefaultTarget> = CsvValue::from(10);
    assert_eq!(value.value(), &10);
    assert_eq!(value, CsvValue::new(10));

    let absent: CsvValue<Option<String>, SampleValue, DefaultTarget> = None.into();
    assert_eq!(absent.value(), &None);
}

#[test]
fn clone_keeps_the_scalar() {
    let text: CsvValue<String, SampleValue, DefaultTarget> = CsvValue::new("xyz".to_string());
    let copy = text.clone();
    assert_eq!(copy, text);
    assert_eq!(copy.value(), "xyz");
}

#[test]
fn values_compare_by_their_scalars() {
    let one: CsvValue<i64, SampleValue, DefaultTarget> = CsvValue::new(1);
    let two: CsvValue<i64, SampleValue, DefaultTarget> = CsvValue::new(2);
    assert_ne!(one, two);
    assert_eq!(one, CsvValue::new(1));
}

#[test]
fn only_the_scalar_is_written() {
    let code: CsvValue<i64, SampleValue, DefaultTarget> = CsvValue::new(999);
    assert_eq!(serde_json::to_string(code.value()).unwrap(), "999");

    let text: CsvValue<String, SampleValue, Japanese> = CsvValue::new("サンプルA".to_string());
    assert_eq!(
        serde_json::to_string(text.value()).unwrap(),
        "\"サンプルA\""
    );

    let absent: CsvValue<Option<i64>, SampleValue, DefaultTarget> = CsvValue::new(None);
    assert_eq!(serde_json::to_string(absent.value()).unwrap(), "null");
}

#[test]
fn a_raw_scalar_is_read_without_validation() {
    let raw: i64 = serde_json::from_str("2").unwrap();
    let value: CsvValue<i64, SampleValue, DefaultTarget> = CsvValue::new(raw);
    assert_eq!(value.into_value(), 2);
}

#[test]
fn a_record_is_written_in_field_order() {
    let column_a: CsvValue<String, SampleValue, DefaultTarget> =
        CsvValue::new("SampleValueA".to_string());
    let column_b: CsvValue<i64, SampleValue, DefaultTarget> = CsvValue::new(10);
    let column_c: CsvValue<Option<String>, SampleValue, DefaultTarget> = CsvValue::new(None);
    let column_d: CsvValue<Option<String>, SampleValue, DefaultTarget> =
        CsvValue::new(Some("SampleValueA".to_string()));

    let mut writer = csv::Writer::from_writer(Vec::new());
    writer
        .serialize((
            column_a.value(),
            column_b.value(),
            column_c.value(),
            column_d.value(),
        ))
        .unwrap();
    let written = String::from_utf8(writer.into_inner().unwrap()).unwrap();
    assert_eq!(written, "SampleValueA,10,,SampleValueA\n");
}
