//! Parses AWS ARN strings into their component parts and turns the parts
//! into direct links to the AWS console.
//!
//! The library consists of an ARN parser and a console link generator,
//! which may be used separately:
//!
//! * [`Arn::new`] parses an ARN string.
//! * [`ArnParts`] generates a link, or rebuilds the ARN string, for any
//!   type that hands out the parts.
//! * [`arn_to_link`] composes the two.

pub mod arn;
pub mod laws;
pub mod links;
pub mod parts;
pub mod text;

use vstd::prelude::*;

pub use arn::Arn;
pub use arn::ArnOwned;
pub use parts::ArnParts;

verus! {

/// Error returned when parsing failed or no link could be generated.
#[non_exhaustive]
#[derive(Debug, PartialEq, Eq, Structural, Clone, Copy)]
pub enum Error {
    /// The ARN string was not parsed because it is too long.
    TooLong,
    /// The ARN string was not parsed because it contains unexpected characters.
    BadCharacters,
    /// The ARN string was not parsed because it is malformed.
    ParseError,
    /// No link could be generated for the ARN. The ARN may still be valid.
    NoLink,
}

impl Error {
    /// A human-readable description of the error.
    pub fn message(&self) -> (r: &'static str)
        ensures
            r@ == match *self {
                Error::TooLong => "ARN is too long"@,
                Error::BadCharacters => "ARN contains bad characters"@,
                Error::ParseError => "ARN is malformed"@,
                Error::NoLink => "No link available"@,
            },
    {
        match self {
            Error::TooLong => "ARN is too long",
            Error::BadCharacters => "ARN contains bad characters",
            Error::ParseError => "ARN is malformed",
            Error::NoLink => "No link available",
        }
    }
}

/// Converts an ARN string to an AWS console link: the ARN is parsed, and
/// the link for it is generated. An ARN that parses but has no known link
/// rule gives [`Error::NoLink`].
pub fn arn_to_link(arn: &str) -> (r: Result<String, Error>)
    ensures
        match r {
            Ok(l) => arn::parse_spec(arn@) is Ok && links::link_spec(arn::parse_spec(arn@)->Ok_0)
                == Some(l@),
            Err(e) => if e == Error::NoLink {
                arn::parse_spec(arn@) is Ok && links::link_spec(
                    arn::parse_spec(arn@)->Ok_0,
                ) is None
            } else {
                arn::parse_spec(arn@) == Err::<parts::ArnView, Error>(e)
            },
        },
{
    match Arn::new(arn) {
        Ok(a) => match a.link() {
            Some(l) => Ok(l),
            None => Err(Error::NoLink),
        },
        Err(e) => Err(e),
    }
}

} // verus!
