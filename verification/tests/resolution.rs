use omni::cli::{get_format, Args};
use omni::error::{ConvError, Side};
use omni::format::Format;

#[test]
fn parse_token_canonical_names() {
    assert_eq!(Format::parse_token("json"), Ok(Format::JSON));
    assert_eq!(Format::parse_token("yaml"), Ok(Format::YAML));
    assert_eq!(Format::parse_token("toml"), Ok(Format::TOML));
}

#[test]
fn parse_token_alias_yml() {
    assert_eq!(Format::parse_token("yml"), Ok(Format::YAML));
}

#[test]
fn parse_token_case_insensitive() {
    assert_eq!(Format::parse_token("JSON"), Ok(Format::JSON));
    assert_eq!(Format::parse_token("Yaml"), Ok(Format::YAML));
    assert_eq!(Format::parse_token("YML"), Ok(Format::YAML));
    assert_eq!(Format::parse_token("tOmL"), Ok(Format::TOML));
}

#[test]
fn parse_token_unrecognized() {
    let r = Format::parse_token("xml");
    assert_eq!(r, Err(ConvError::UnrecognizedFormat(String::from("xml"))));
}

#[test]
fn canonical_names() {
    assert_eq!(Format::JSON.canonical_name(), "json");
    assert_eq!(Format::YAML.canonical_name(), "yaml");
    assert_eq!(Format::TOML.canonical_name(), "toml");
}

#[test]
fn explicit_override_ignores_extension() {
    let path = String::from("data.json");
    let r = get_format(Some(&path), Some(&Format::YAML));
    assert_eq!(r, Some(Format::YAML));
}

#[test]
fn yml_extension_resolves_yaml() {
    let path = String::from("report.yml");
    assert_eq!(get_format(Some(&path), None), Some(Format::YAML));
    let upper = String::from("REPORT.YML");
    assert_eq!(get_format(Some(&upper), None), Some(Format::YAML));
}

#[test]
fn extension_resolution_per_format() {
    assert_eq!(get_format(Some(&String::from("a.json")), None), Some(Format::JSON));
    assert_eq!(get_format(Some(&String::from("a.yaml")), None), Some(Format::YAML));
    assert_eq!(get_format(Some(&String::from("a.toml")), None), Some(Format::TOML));
}

#[test]
fn no_extension_resolves_nothing() {
    assert_eq!(get_format(Some(&String::from("noextension")), None), None);
    assert_eq!(get_format(None, None), None);
}

#[test]
fn only_last_extension_component_counts() {
    assert_eq!(get_format(Some(&String::from("file.json.bak")), None), None);
    assert_eq!(get_format(Some(&String::from("file.bak.json")), None), Some(Format::JSON));
}

#[test]
fn hidden_file_has_no_extension() {
    assert_eq!(get_format(Some(&String::from(".gitignore")), None), None);
}

#[test]
fn dot_in_directory_is_not_an_extension() {
    assert_eq!(get_format(Some(&String::from("dir.d/file")), None), None);
    assert_eq!(get_format(Some(&String::from("dir.d/file.toml")), None), Some(Format::TOML));
}

#[test]
fn validate_missing_input_source() {
    let a = Args { in_path: None, out_path: None, in_format: None, out_format: Some(Format::JSON) };
    assert_eq!(a.validate(true), Err(ConvError::MissingFormatSource(Side::Input)));
}

#[test]
fn validate_missing_output_source() {
    let a = Args { in_path: None, out_path: None, in_format: Some(Format::JSON), out_format: None };
    assert_eq!(a.validate(true), Err(ConvError::MissingFormatSource(Side::Output)));
}

#[test]
fn validate_input_path_invalid() {
    let a = Args {
        in_path: Some(String::from("missing.json")),
        out_path: None,
        in_format: None,
        out_format: Some(Format::JSON),
    };
    assert_eq!(a.validate(false), Err(ConvError::InputPathInvalid));
}

#[test]
fn validate_unresolvable_input() {
    let a = Args {
        in_path: Some(String::from("noextension")),
        out_path: None,
        in_format: None,
        out_format: Some(Format::JSON),
    };
    assert_eq!(a.validate(true), Err(ConvError::UnresolvableFormat(Side::Input)));
}

#[test]
fn validate_unresolvable_output() {
    let a = Args {
        in_path: Some(String::from("in.json")),
        out_path: Some(String::from("out.data")),
        in_format: None,
        out_format: None,
    };
    assert_eq!(a.validate(true), Err(ConvError::UnresolvableFormat(Side::Output)));
}

#[test]
fn validate_resolves_both_sides() {
    let a = Args {
        in_path: Some(String::from("in.json")),
        out_path: Some(String::from("out.yml")),
        in_format: None,
        out_format: None,
    };
    assert_eq!(a.validate(true), Ok((Format::JSON, Format::YAML)));
}

#[test]
fn validate_override_beats_extension() {
    let a = Args {
        in_path: Some(String::from("data.json")),
        out_path: None,
        in_format: Some(Format::YAML),
        out_format: Some(Format::TOML),
    };
    assert_eq!(a.validate(true), Ok((Format::YAML, Format::TOML)));
}
