//! The parser: field extraction, rejection rules, boundaries, and the
//! round trip between parsing and rebuilding.

use link2aws::{Arn, ArnParts, Error};

#[test]
fn rds_snapshot_fields() {
    // A resource id that itself contains a colon: the id is the rest of
    // the string, not delimiter-stopped.
    let arn = Arn::new("arn:aws:rds:us-east-1:12345:snapshot:rds:db").unwrap();
    assert_eq!(arn.partition, "aws");
    assert_eq!(arn.service, "rds");
    assert_eq!(arn.region, "us-east-1");
    assert_eq!(arn.account, "12345");
    assert_eq!(arn.resource_type, "snapshot");
    assert_eq!(arn.resource_id, "rds:db");
    assert_eq!(arn.resource_revision, "");
    assert!(!arn.has_path);
}

#[test]
fn slash_delimited_fields() {
    let arn = Arn::new("arn:aws:ec2:us-east-1:123:instance/i-0123456789").unwrap();
    assert_eq!(arn.resource_type, "instance");
    assert_eq!(arn.resource_id, "i-0123456789");
    assert!(arn.has_path);
    assert_eq!(arn.resource_revision, "");
}

#[test]
fn revision_form_fields() {
    // type/id:revision, the form with the highest priority.
    let arn = Arn::new("arn:aws:ecs:us-east-1:123:task-definition/my-task:7").unwrap();
    assert_eq!(arn.resource_type, "task-definition");
    assert_eq!(arn.resource_id, "my-task");
    assert_eq!(arn.resource_revision, "7");
    assert!(arn.has_path);
}

#[test]
fn bare_id_fields() {
    let arn = Arn::new("arn:aws:sns:us-east-1:123:mytopic").unwrap();
    assert_eq!(arn.resource_type, "");
    assert_eq!(arn.resource_id, "mytopic");
    assert!(!arn.has_path);
}

#[test]
fn leading_slash_form_fields() {
    // The apigateway-style variant with a slash before the type.
    let arn = Arn::new("arn:aws:apigateway:us-east-1::/restapis/api123").unwrap();
    assert_eq!(arn.resource_type, "restapis");
    assert_eq!(arn.resource_id, "api123");
    assert!(arn.has_path);
}

#[test]
fn empty_region_and_account_parse() {
    let arn = Arn::new("arn:aws:s3:::abc123").unwrap();
    assert_eq!(arn.region, "");
    assert_eq!(arn.account, "");
}

#[test]
fn whitespace_is_trimmed() {
    let padded = Arn::new("  arn:aws:s3:::abc123  ").unwrap();
    let plain = Arn::new("arn:aws:s3:::abc123").unwrap();
    assert_eq!(padded, plain);
    assert_eq!(Arn::new("\tarn:aws:s3:::abc123\n").unwrap(), plain);
    // Unicode whitespace is trimmed too.
    assert_eq!(Arn::new("\u{a0}arn:aws:s3:::abc123\u{3000}").unwrap(), plain);
}

#[test]
fn minimal_arn_with_all_fields_empty() {
    let arn = Arn::new("arn:::::").unwrap();
    assert_eq!(arn.partition, "");
    assert_eq!(arn.service, "");
    assert_eq!(arn.region, "");
    assert_eq!(arn.account, "");
    assert_eq!(arn.resource_type, "");
    assert_eq!(arn.resource_id, "");
    assert!(!arn.has_path);
    assert_eq!(arn.build(), "arn:::::");
}

#[test]
fn length_boundary() {
    // 2048 characters parse structurally; 2049 always fail as too long.
    let arn_2048 = format!("arn:aws:s3:::{}", "a".repeat(2035));
    assert_eq!(arn_2048.len(), 2048);
    assert!(Arn::new(&arn_2048).is_ok());

    let arn_2049 = format!("arn:aws:s3:::{}", "a".repeat(2036));
    assert_eq!(arn_2049.len(), 2049);
    assert_eq!(Arn::new(&arn_2049).unwrap_err(), Error::TooLong);

    // Too long wins over any other defect in the content.
    let garbage_2049 = "!".repeat(2049);
    assert_eq!(Arn::new(&garbage_2049).unwrap_err(), Error::TooLong);
}

#[test]
fn character_boundary() {
    // A single character outside the allowed set poisons the whole input.
    assert_eq!(
        Arn::new("arn:aws:s3:::abc!123").unwrap_err(),
        Error::BadCharacters
    );
    assert_eq!(
        Arn::new("arn:aws:s3:::abc 123").unwrap_err(),
        Error::BadCharacters
    );
    assert_eq!(Arn::new("arn:aws:s3:::abc€").unwrap_err(), Error::BadCharacters);
    // All the allowed punctuation passes.
    assert!(Arn::new("arn:aws:s3:::a:/+=,.@_*#-b").is_ok());
}

#[test]
fn region_injection_guard() {
    // A region with a dot or slash would become a forged subdomain; it
    // must fail as bad characters, not parse.
    assert_eq!(
        Arn::new("arn:aws:s3:evil.example:123:abc").unwrap_err(),
        Error::BadCharacters
    );
    assert_eq!(
        Arn::new("arn:aws:ec2:us-east-1@:123:instance/i-1").unwrap_err(),
        Error::BadCharacters
    );
    assert!(Arn::new("arn:aws:ec2:us-east-1:123:instance/i-1").is_ok());
}

#[test]
fn parse_error_cases() {
    assert_eq!(Arn::new("").unwrap_err(), Error::ParseError);
    assert_eq!(Arn::new("arn").unwrap_err(), Error::ParseError);
    assert_eq!(Arn::new("arn:aws:s3").unwrap_err(), Error::ParseError);
    assert_eq!(Arn::new("arn:aws:s3::").unwrap_err(), Error::ParseError);
    assert_eq!(Arn::new("arnx:aws:s3:::abc").unwrap_err(), Error::ParseError);
    // Four colons after the prefix are the minimum.
    assert!(Arn::new("arn:aws:s3:::").is_ok());
}

#[test]
fn round_trip_rebuilds_the_input() {
    for input in [
        "arn:aws:s3:::abc123",
        "arn:aws:rds:us-east-1:12345:snapshot:rds:db",
        "arn:aws:ec2:us-east-1:123:instance/i-0123456789",
        "arn:aws:ecs:us-east-1:123:task-definition/my-task:7",
        "arn:aws:apigateway:us-east-1::/restapis/api123",
        "arn:aws:iam::123:role/service-role/MyRole",
        "arn:aws:sns:us-east-1:123:mytopic",
    ] {
        let arn = Arn::new(input).unwrap();
        assert_eq!(arn.build(), input);
        let again = Arn::new(&arn.build()).unwrap();
        assert_eq!(again, arn);
    }
}

#[test]
fn ambiguous_shapes_do_not_round_trip() {
    // The grammar's ordered alternatives are deliberately ambiguous; these
    // adversarial shapes rebuild into strings that re-parse differently.
    // A slash-delimited id with an empty type loses the account boundary.
    let arn = Arn::new("arn:a:b:c:d://x").unwrap();
    assert_eq!(arn.resource_type, "");
    assert!(arn.has_path);
    assert!(Arn::new(&arn.build()).is_err());

    // An id that starts with a colon re-parses with a shorter id, so even
    // rebuilding twice gives two different strings.
    let arn = Arn::new("arn:a:b:c:d:::x").unwrap();
    assert_eq!(arn.resource_id, ":x");
    let again = Arn::new(&arn.build()).unwrap();
    assert_ne!(again, arn);
    assert_ne!(again.build(), arn.build());

    // A colon inside a slash-delimited id is captured as a revision on the
    // second parse.
    let arn = Arn::new("arn:a:b:c:d:/t/a:b").unwrap();
    assert_eq!(arn.resource_id, "a:b");
    assert_eq!(arn.resource_revision, "");
    let again = Arn::new(&arn.build()).unwrap();
    assert_eq!(again.resource_revision, "b");
    assert_ne!(again, arn);
}

#[test]
fn build_idempotence() {
    for input in [
        "arn:aws:s3:::abc123",
        "arn:aws:logs:us-east-1:123:log-group:/aws/lambda/my-fn:*",
        "arn:aws:ecs:us-east-1:123:service/my-cluster/my-svc",
    ] {
        let built = Arn::new(input).unwrap().build();
        let rebuilt = Arn::new(&built).unwrap().build();
        assert_eq!(rebuilt, built);
    }
}
