//! The ARN grammar and its parser.

use vstd::prelude::*;

use crate::Error;
use crate::parts::{ArnParts, ArnView};
use crate::text::{
    all_allowed, all_region, exec_all_allowed, exec_all_region, exec_find_ch, exec_find_stop,
    exec_trim, find_ch, find_stop, trim_spec,
};

verus! {

broadcast use {crate::text::lemma_find_ch_props, crate::text::lemma_find_stop_props};

// ---------------------------------------------------------------------------
// The grammar, as spec functions
// ---------------------------------------------------------------------------

/// Splits `s` at its first colon: the part before it and the part after it.
/// `None` when `s` has no colon.
pub open spec fn split_colon(s: Seq<char>) -> Option<(Seq<char>, Seq<char>)> {
    match find_ch(s, ':') {
        Some(i) => Some((s.take(i), s.skip(i + 1))),
        None => None,
    }
}

/// Trailing form `type/id:revision`: the first delimiter of the tail is a
/// slash, and the first delimiter after it is a colon. The revision is
/// everything behind that colon.
pub open spec fn tail_form_a(t: Seq<char>) -> Option<(Seq<char>, Seq<char>, Seq<char>)> {
    match find_stop(t) {
        Some(i) => if t[i] == '/' {
            let rest = t.skip(i + 1);
            match find_stop(rest) {
                Some(j) => if rest[j] == ':' {
                    Some((t.take(i), rest.take(j), rest.skip(j + 1)))
                } else {
                    None
                },
                None => None,
            }
        } else {
            None
        },
        None => None,
    }
}

/// Trailing form `type:id`: the first delimiter of the tail is a colon. The
/// id is everything behind it and may itself contain colons and slashes.
pub open spec fn tail_form_b(t: Seq<char>) -> Option<(Seq<char>, Seq<char>)> {
    match find_stop(t) {
        Some(i) => if t[i] == ':' {
            Some((t.take(i), t.skip(i + 1)))
        } else {
            None
        },
        None => None,
    }
}

/// Trailing form `type/id`, with an optional leading slash before the type:
/// after dropping one leading slash, the first delimiter is a slash. The id
/// is everything behind it.
pub open spec fn tail_form_c(t: Seq<char>) -> Option<(Seq<char>, Seq<char>)> {
    let t1 = if t.len() > 0 && t[0] == '/' {
        t.skip(1)
    } else {
        t
    };
    match find_stop(t1) {
        Some(i) => if t1[i] == '/' {
            Some((t1.take(i), t1.skip(i + 1)))
        } else {
            None
        },
        None => None,
    }
}

/// The tail of an ARN (everything behind the account field's colon), read
/// as (resource_type, resource_id, resource_revision, has_path). The four
/// forms are tried in order and the first match wins; the last form always
/// matches and takes the whole tail as the resource id.
pub open spec fn parse_tail(t: Seq<char>) -> (Seq<char>, Seq<char>, Seq<char>, bool) {
    if tail_form_a(t) is Some {
        let (rt, id, rev) = tail_form_a(t)->0;
        (rt, id, rev, true)
    } else if tail_form_b(t) is Some {
        let (rt, id) = tail_form_b(t)->0;
        (rt, id, Seq::<char>::empty(), false)
    } else if tail_form_c(t) is Some {
        let (rt, id) = tail_form_c(t)->0;
        (rt, id, Seq::<char>::empty(), true)
    } else {
        (Seq::<char>::empty(), t, Seq::<char>::empty(), false)
    }
}

/// The structural ARN grammar: the literal prefix `arn:`, four
/// colon-terminated fields, then the tail. `None` on any input that does
/// not carry the prefix and four more colons.
pub open spec fn parse_structural(s: Seq<char>) -> Option<ArnView> {
    if s.len() >= 4 && s[0] == 'a' && s[1] == 'r' && s[2] == 'n' && s[3] == ':' {
        match split_colon(s.skip(4)) {
            Some((partition, r1)) => match split_colon(r1) {
                Some((service, r2)) => match split_colon(r2) {
                    Some((region, r3)) => match split_colon(r3) {
                        Some((account, tail)) => {
                            let (rt, id, rev, hp) = parse_tail(tail);
                            Some(
                                ArnView {
                                    partition,
                                    service,
                                    region,
                                    account,
                                    resource_type: rt,
                                    resource_id: id,
                                    resource_revision: rev,
                                    has_path: hp,
                                },
                            )
                        },
                        None => None,
                    },
                    None => None,
                },
                None => None,
            },
            None => None,
        }
    } else {
        None
    }
}

/// What parsing an ARN string returns: the input is trimmed, rejected when
/// longer than 2048 characters, rejected when it carries a character
/// outside the allowed set, parsed structurally, and finally rejected when
/// the region field carries anything but letters, digits and hyphens.
pub open spec fn parse_spec(raw: Seq<char>) -> Result<ArnView, Error> {
    let t = trim_spec(raw);
    if t.len() > 2048 {
        Err(Error::TooLong)
    } else if !all_allowed(t) {
        Err(Error::BadCharacters)
    } else {
        match parse_structural(t) {
            None => Err(Error::ParseError),
            Some(v) => if all_region(v.region) {
                Ok(v)
            } else {
                Err(Error::BadCharacters)
            },
        }
    }
}

// ---------------------------------------------------------------------------
// The parsed ARN and its owned copy
// ---------------------------------------------------------------------------

/// An ARN, separated into its component parts: partition, service, region,
/// account, resource type, resource id, and resource revision.
#[derive(Debug, Clone, PartialEq)]
pub struct Arn {
    /// `"aws"`, `"aws-cn"`, `"aws-us-gov"`, etc.
    pub partition: String,
    /// `"s3"`, `"ec2"`, `"iam"`, etc.
    pub service: String,
    /// `"us-east-1"`, `"us-west-2"`, etc., or `""`.
    pub region: String,
    /// Usually like `"12345"`, or `""`.
    pub account: String,
    /// `"snapshot"`, `"image"`, `"instance"`, etc.
    pub resource_type: String,
    /// Typically chosen by the user. May contain colons and/or slashes.
    pub resource_id: String,
    /// Resource revision (often empty).
    pub resource_revision: String,
    /// True if there is a `/` before the resource id instead of a `:`.
    pub has_path: bool,
}

/// Like [`Arn`], but an independent copy with no tie to the value it was
/// made from.
#[derive(Debug, Clone, PartialEq)]
pub struct ArnOwned {
    pub partition: String,
    pub service: String,
    pub region: String,
    pub account: String,
    pub resource_type: String,
    pub resource_id: String,
    pub resource_revision: String,
    pub has_path: bool,
}

impl ArnParts for Arn {
    open spec fn arn_view(&self) -> ArnView {
        ArnView {
            partition: self.partition@,
            service: self.service@,
            region: self.region@,
            account: self.account@,
            resource_type: self.resource_type@,
            resource_id: self.resource_id@,
            resource_revision: self.resource_revision@,
            has_path: self.has_path,
        }
    }

    fn partition(&self) -> (r: &str) {
        self.partition.as_str()
    }

    fn service(&self) -> (r: &str) {
        self.service.as_str()
    }

    fn region(&self) -> (r: &str) {
        self.region.as_str()
    }

    fn account(&self) -> (r: &str) {
        self.account.as_str()
    }

    fn resource_revision(&self) -> (r: &str) {
        self.resource_revision.as_str()
    }

    fn resource_type(&self) -> (r: &str) {
        self.resource_type.as_str()
    }

    fn resource_id(&self) -> (r: &str) {
        self.resource_id.as_str()
    }

    fn has_path(&self) -> (r: bool) {
        self.has_path
    }

    fn build(&self) -> (r: String) {
        crate::parts::build_of(
            self.partition.as_str(),
            self.service.as_str(),
            self.region.as_str(),
            self.account.as_str(),
            self.resource_type.as_str(),
            self.resource_id.as_str(),
            self.resource_revision.as_str(),
            self.has_path,
        )
    }

    fn link(&self) -> (r: Option<String>) {
        crate::links::link_of(
            self.partition.as_str(),
            self.service.as_str(),
            self.region.as_str(),
            self.account.as_str(),
            self.resource_type.as_str(),
            self.resource_id.as_str(),
            self.resource_revision.as_str(),
            self.has_path,
        )
    }
}

impl ArnParts for ArnOwned {
    open spec fn arn_view(&self) -> ArnView {
        ArnView {
            partition: self.partition@,
            service: self.service@,
            region: self.region@,
            account: self.account@,
            resource_type: self.resource_type@,
            resource_id: self.resource_id@,
            resource_revision: self.resource_revision@,
            has_path: self.has_path,
        }
    }

    fn partition(&self) -> (r: &str) {
        self.partition.as_str()
    }

    fn service(&self) -> (r: &str) {
        self.service.as_str()
    }

    fn region(&self) -> (r: &str) {
        self.region.as_str()
    }

    fn account(&self) -> (r: &str) {
        self.account.as_str()
    }

    fn resource_revision(&self) -> (r: &str) {
        self.resource_revision.as_str()
    }

    fn resource_type(&self) -> (r: &str) {
        self.resource_type.as_str()
    }

    fn resource_id(&self) -> (r: &str) {
        self.resource_id.as_str()
    }

    fn has_path(&self) -> (r: bool) {
        self.has_path
    }

    fn build(&self) -> (r: String) {
        crate::parts::build_of(
            self.partition.as_str(),
            self.service.as_str(),
            self.region.as_str(),
            self.account.as_str(),
            self.resource_type.as_str(),
            self.resource_id.as_str(),
            self.resource_revision.as_str(),
            self.has_path,
        )
    }

    fn link(&self) -> (r: Option<String>) {
        crate::links::link_of(
            self.partition.as_str(),
            self.service.as_str(),
            self.region.as_str(),
            self.account.as_str(),
            self.resource_type.as_str(),
            self.resource_id.as_str(),
            self.resource_revision.as_str(),
            self.has_path,
        )
    }
}

// ---------------------------------------------------------------------------
// The executable parser
// ---------------------------------------------------------------------------

fn split_colon_exec<'a>(s: &'a str) -> (r: Option<(&'a str, &'a str)>)
    ensures
        match r {
            Some(p) => split_colon(s@) == Some((p.0@, p.1@)),
            None => split_colon(s@) is None,
        },
{
    let n = s.unicode_len();
    match exec_find_ch(s, ':') {
        Some(i) => Some((s.substring_char(0, i), s.substring_char(i + 1, n))),
        None => None,
    }
}

fn parse_tail_exec<'a>(t: &'a str) -> (r: (&'a str, &'a str, &'a str, bool))
    ensures
        parse_tail(t@) == (r.0@, r.1@, r.2@, r.3),
{
    proof {
        reveal_strlit("");
        assert(""@ =~= Seq::<char>::empty());
    }
    let n = t.unicode_len();
    // Form `type/id:revision`.
    if let Some(i) = exec_find_stop(t) {
        if t.get_char(i) == '/' {
            let rest = t.substring_char(i + 1, n);
            let nr = rest.unicode_len();
            if let Some(j) = exec_find_stop(rest) {
                if rest.get_char(j) == ':' {
                    return (
                        t.substring_char(0, i),
                        rest.substring_char(0, j),
                        rest.substring_char(j + 1, nr),
                        true,
                    );
                }
            }
        }
    }
    // Form `type:id`.
    if let Some(i) = exec_find_stop(t) {
        if t.get_char(i) == ':' {
            return (t.substring_char(0, i), t.substring_char(i + 1, n), "", false);
        }
    }
    // Form `type/id`, with an optional leading slash.
    let t1 = if n > 0 && t.get_char(0) == '/' {
        t.substring_char(1, n)
    } else {
        t
    };
    let n1 = t1.unicode_len();
    if let Some(i) = exec_find_stop(t1) {
        if t1.get_char(i) == '/' {
            return (t1.substring_char(0, i), t1.substring_char(i + 1, n1), "", true);
        }
    }
    // Fallback: the whole tail is the resource id.
    ("", t, "", false)
}

fn parse_structural_exec(s: &str) -> (r: Option<Arn>)
    ensures
        match r {
            Some(arn) => parse_structural(s@) == Some(arn.arn_view()),
            None => parse_structural(s@) is None,
        },
{
    let n = s.unicode_len();
    if n < 4 || s.get_char(0) != 'a' || s.get_char(1) != 'r' || s.get_char(2) != 'n' || s.get_char(
        3,
    ) != ':' {
        return None;
    }
    let rest = s.substring_char(4, n);
    let (partition, r1) = match split_colon_exec(rest) {
        Some(p) => p,
        None => {
            return None;
        },
    };
    let (service, r2) = match split_colon_exec(r1) {
        Some(p) => p,
        None => {
            return None;
        },
    };
    let (region, r3) = match split_colon_exec(r2) {
        Some(p) => p,
        None => {
            return None;
        },
    };
    let (account, tail) = match split_colon_exec(r3) {
        Some(p) => p,
        None => {
            return None;
        },
    };
    let (resource_type, resource_id, resource_revision, has_path) = parse_tail_exec(tail);
    Some(
        Arn {
            partition: String::from_str(partition),
            service: String::from_str(service),
            region: String::from_str(region),
            account: String::from_str(account),
            resource_type: String::from_str(resource_type),
            resource_id: String::from_str(resource_id),
            resource_revision: String::from_str(resource_revision),
            has_path,
        },
    )
}

impl Arn {
    /// Parse an ARN string into its components.
    pub fn new(arn_str: &str) -> (r: Result<Arn, Error>)
        ensures
            match r {
                Ok(arn) => parse_spec(arn_str@) == Ok::<ArnView, Error>(arn.arn_view()),
                Err(e) => parse_spec(arn_str@) == Err::<ArnView, Error>(e),
            },
    {
        // Remove leading/trailing whitespace for user convenience.
        let trimmed = exec_trim(arn_str);

        // Length limit, matching the documented limit for IAM user ARNs;
        // no general limit is documented.
        if trimmed.unicode_len() > 2048 {
            return Err(Error::TooLong);
        }
        // Check for invalid characters. This is meant to catch malicious
        // inputs, not every invalid ARN.
        if !exec_all_allowed(trimmed) {
            return Err(Error::BadCharacters);
        }
        // Parse components of the ARN.
        let arn = match parse_structural_exec(trimmed) {
            Some(arn) => arn,
            None => {
                return Err(Error::ParseError);
            },
        };
        // The region must have a valid format. This is security relevant,
        // as the region is used as a subdomain before the console domain.
        if !exec_all_region(arn.region.as_str()) {
            return Err(Error::BadCharacters);
        }
        Ok(arn)
    }

    /// Convert all parts into an independent owned copy.
    pub fn to_owned(&self) -> (r: ArnOwned)
        ensures
            r.arn_view() == self.arn_view(),
    {
        ArnOwned {
            partition: self.partition.clone(),
            service: self.service.clone(),
            region: self.region.clone(),
            account: self.account.clone(),
            resource_type: self.resource_type.clone(),
            resource_id: self.resource_id.clone(),
            resource_revision: self.resource_revision.clone(),
            has_path: self.has_path,
        }
    }
}

} // verus!
