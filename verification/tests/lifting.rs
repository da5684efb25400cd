use csv_projection::{CsvValue, DefaultTarget, Japanese, SampleValue, ToCsv};

#[test]
fn absence_is_projected_onto_absence() {
    let missing: Option<SampleValue> = None;

    let code: CsvValue<Option<i64>, SampleValue, DefaultTarget> = missing.to_csv();
    assert_eq!(code.value(), &None);

    let text: CsvValue<Option<String>, SampleValue, DefaultTarget> = missing.to_csv();
    assert_eq!(text.value(), &None);

    let japanese: CsvValue<Option<String>, SampleValue, Japanese> = missing.to_csv();
    assert_eq!(japanese.value(), &None);
}

#[test]
fn presence_is_projected_onto_the_inner_projection() {
    let code: CsvValue<Option<i64>, SampleValue, DefaultTarget> =
        Some(SampleValue::SampleA).to_csv();
    assert_eq!(code.value(), &Some(0));

    let code: CsvValue<Option<i64>, SampleValue, DefaultTarget> =
        Some(SampleValue::SampleB).to_csv();
    assert_eq!(code.into_value(), Some(1));

    let code: CsvValue<Option<i64>, SampleValue, DefaultTarget> =
        Some(SampleValue::Other("xyz".to_string())).to_csv();
    assert_eq!(code.into_value(), Some(999));

    let text: CsvValue<Option<String>, SampleValue, DefaultTarget> =
        Some(SampleValue::Other("xyz".to_string())).to_csv();
    assert_eq!(text.into_value(), Some("xyz".to_string()));

    let japanese: CsvValue<Option<String>, SampleValue, Japanese> =
        Some(SampleValue::Other("xyz".to_string())).to_csv();
    assert_eq!(japanese.into_value(), Some("その他: xyz".to_string()));
}

#[test]
fn lifting_agrees_with_the_inner_projection() {
    for value in [
        SampleValue::SampleA,
        SampleValue::SampleB,
        SampleValue::Other("xyz".to_string()),
    ] {
        let inner: CsvValue<String, SampleValue, Japanese> = value.to_csv();
        let lifted: CsvValue<Option<String>, SampleValue, Japanese> = Some(value).to_csv();
        assert_eq!(lifted.into_value(), Some(inner.into_value()));
    }
}
