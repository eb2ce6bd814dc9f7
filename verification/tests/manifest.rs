use freight::config::Manifest;
use freight::errors::BuildError;
use freight::rustc::Edition;

#[test]
fn can_parse_good_manifest() {
    assert!(Manifest::parse("name = \"demo\"\nedition = \"2021\"\n").is_ok());
}

#[test]
fn will_fail_bad_manifest() {
    let err = Manifest::parse("bad_field = \"oops\"\n").unwrap_err();
    assert_eq!(err.message(), "Field bad_field is unsupported");
}

#[test]
fn parses_name_and_edition() {
    let manifest = Manifest::parse("name = \"demo\"\nedition = \"2018\"").unwrap();
    assert_eq!(manifest.crate_name, "demo");
    assert_eq!(manifest.edition, Edition::E2018);
}

#[test]
fn unrecognized_key_error_names_the_key() {
    let err = Manifest::parse("name = \"demo\"\nfoo = \"bar\"\n").unwrap_err();
    assert!(matches!(err, BuildError::UnsupportedKey { ref key } if key == "foo"));
    assert_eq!(err.message(), "Field foo is unsupported");
}

#[test]
fn missing_name_is_an_error() {
    let err = Manifest::parse("edition = \"2021\"\n").unwrap_err();
    assert!(matches!(err, BuildError::MissingName));
    assert_eq!(err.message(), "name is a required field");
}

#[test]
fn missing_edition_is_an_error() {
    let err = Manifest::parse("name = \"demo\"\n").unwrap_err();
    assert!(matches!(err, BuildError::MissingEdition));
    assert_eq!(err.message(), "edition is a required field");
}

#[test]
fn empty_manifest_misses_name_first() {
    let err = Manifest::parse("").unwrap_err();
    assert!(matches!(err, BuildError::MissingName));
}

#[test]
fn unsupported_edition_value_is_an_error() {
    let err = Manifest::parse("name = \"demo\"\nedition = \"2024\"\n").unwrap_err();
    assert!(matches!(err, BuildError::UnsupportedEdition { ref input } if input == "2024"));
    assert_eq!(err.message(), "Edition 2024 is not supported");
}

#[test]
fn line_without_separator_is_an_error() {
    let err = Manifest::parse("name\n").unwrap_err();
    assert!(matches!(err, BuildError::MissingSeparator { ref line } if line == "name"));
}

#[test]
fn quotes_are_stripped_from_values() {
    let manifest = Manifest::parse("name = \"de\"mo\"\nedition = \"2015\"\n").unwrap();
    assert_eq!(manifest.crate_name, "demo");
    assert_eq!(manifest.edition, Edition::E2015);
}

#[test]
fn later_assignment_overwrites_earlier() {
    let manifest =
        Manifest::parse("name = \"first\"\nname = \"second\"\nedition = \"2021\"\n").unwrap();
    assert_eq!(manifest.crate_name, "second");
}

#[test]
fn whitespace_around_key_and_value_is_trimmed() {
    let manifest = Manifest::parse("  name   =   \"demo\"  \nedition = \"2021\"").unwrap();
    assert_eq!(manifest.crate_name, "demo");
}
