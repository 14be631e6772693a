use datadog_cli::output::{format_value, CellValue, Format};

#[test]
fn format_names() {
    assert_eq!(Format::from_str("json"), Ok(Format::Json));
    assert_eq!(Format::from_str("JSON"), Ok(Format::Json));
    assert_eq!(Format::from_str("jsonl"), Ok(Format::JsonLines));
    assert_eq!(Format::from_str("JsonLines"), Ok(Format::JsonLines));
    assert_eq!(Format::from_str("Table"), Ok(Format::Table));
}

#[test]
fn unknown_format_is_named_in_error() {
    assert_eq!(Format::from_str("Yaml"), Err("Invalid format: Yaml".to_string()));
    assert_eq!(Format::from_str(""), Err("Invalid format: ".to_string()));
}

#[test]
fn table_cells() {
    assert_eq!(format_value(&CellValue::Missing), "-");
    assert_eq!(format_value(&CellValue::Null), "-");
    assert_eq!(format_value(&CellValue::Text("web-1".to_string())), "web-1");
    assert_eq!(format_value(&CellValue::Number("3.5".to_string())), "3.5");
    assert_eq!(format_value(&CellValue::Bool(true)), "true");
    assert_eq!(format_value(&CellValue::Bool(false)), "false");
    assert_eq!(format_value(&CellValue::Array(0)), "[]");
    assert_eq!(format_value(&CellValue::Array(12)), "[12 items]");
    assert_eq!(format_value(&CellValue::Object), "{...}");
}

#[test]
fn lower_case_names() {
    assert_eq!(Format::from_name("json"), Some(Format::Json));
    assert_eq!(Format::from_name("jsonlines"), Some(Format::JsonLines));
    assert_eq!(Format::from_name("JSON"), None);
    assert_eq!(Format::from_name("csv"), None);
}
