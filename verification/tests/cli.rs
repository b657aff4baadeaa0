use cwe_api_cli::cli::{Format, VersionArgs};

#[test]
fn format_words() {
    assert_eq!(Format::Json.as_str(), "json");
    assert_eq!(Format::Human.as_str(), "human");
}

#[test]
fn format_defaults_to_json() {
    assert_eq!(Format::default(), Format::Json);
}

#[test]
fn version_reports_the_cli_alone_by_default() {
    let args = VersionArgs::default();
    assert!(args.cli_version);
    assert!(!args.api_version);
}
