//! The public API, exercised end to end.

use link2aws::{Arn, ArnOwned, ArnParts, Error, arn_to_link};

// A valid ARN and the corresponding link.
const TEST_ARN: &str = "arn:aws:s3:::abc123";
const TEST_LINK: &str = "https://s3.console.aws.amazon.com/s3/buckets/abc123";

#[test]
fn test_simple_api_with_owned_string() {
    let input = String::from(TEST_ARN);
    let link = arn_to_link(&input).unwrap();
    assert_eq!(link, TEST_LINK);
}

#[test]
fn test_simple_api_with_borrowed_str() {
    let link: String = arn_to_link(TEST_ARN).unwrap();
    assert_eq!(link, TEST_LINK);
}

#[test]
fn test_arn_with_borrowed_str() {
    // Arn can be constructed from a borrowed str.
    let arn = Arn::new(TEST_ARN).unwrap();

    // Fields can be borrowed.
    let _region1 = &arn.region;

    // The same field can be accessed via the getter.
    let _region2: &str = arn.region();

    // Methods can be called on the Arn.
    let link = arn.link().unwrap();
    assert_eq!(link, TEST_LINK);
}

#[test]
fn test_arn_with_owned_string() {
    // Arn can be constructed from an owned String.
    let input = String::from(TEST_ARN);
    let arn = Arn::new(&input).unwrap();

    // .to_owned() produces an independent Arn.
    let owned_arn: ArnOwned = arn.to_owned();

    // Fields can be borrowed.
    let _region1 = &owned_arn.region;

    // The same field can be accessed via the getter.
    let _region2: &str = owned_arn.region();

    // Methods can be called on the new Arn.
    let link: String = owned_arn.link().unwrap();
    assert_eq!(link, TEST_LINK);
}

#[test]
fn single_case() {
    // Parses, yields the expected console link, and rebuilds the input.
    let arn = Arn::new("arn:aws:s3:::abc123").unwrap();
    let link = arn.link().unwrap();
    assert_eq!(link, "https://s3.console.aws.amazon.com/s3/buckets/abc123");
    assert_eq!(arn.build(), "arn:aws:s3:::abc123");
}

#[test]
fn unknown_service_parses_but_has_no_link() {
    let arn = Arn::new("arn:aws:does-not-exist:::example").unwrap();
    assert_eq!(arn.service(), "does-not-exist");
    assert!(arn.link().is_none());
    assert_eq!(
        arn_to_link("arn:aws:does-not-exist:::example").unwrap_err(),
        Error::NoLink
    );
}

#[test]
fn malformed_input_is_a_parse_error() {
    assert_eq!(
        arn_to_link("this-is-not-an-arn").unwrap_err(),
        Error::ParseError
    );
    assert_eq!(Arn::new("this-is-not-an-arn").unwrap_err(), Error::ParseError);
}

#[test]
fn error_messages() {
    assert_eq!(Error::TooLong.message(), "ARN is too long");
    assert_eq!(Error::BadCharacters.message(), "ARN contains bad characters");
    assert_eq!(Error::ParseError.message(), "ARN is malformed");
    assert_eq!(Error::NoLink.message(), "No link available");
}

#[test]
fn owned_copy_is_equal_field_for_field() {
    let arn = Arn::new("arn:aws:rds:us-east-1:12345:snapshot:rds:db").unwrap();
    let owned = arn.to_owned();
    assert_eq!(arn.partition, owned.partition);
    assert_eq!(arn.service, owned.service);
    assert_eq!(arn.region, owned.region);
    assert_eq!(arn.account, owned.account);
    assert_eq!(arn.resource_type, owned.resource_type);
    assert_eq!(arn.resource_id, owned.resource_id);
    assert_eq!(arn.resource_revision, owned.resource_revision);
    assert_eq!(arn.has_path, owned.has_path);
    assert_eq!(arn.build(), owned.build());
    assert_eq!(arn.link(), owned.link());
}
