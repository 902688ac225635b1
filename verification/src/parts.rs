//! The capability interface over the parts of an ARN, and the
//! reconstruction of the canonical ARN string from them.

use vstd::prelude::*;

use crate::text::{find_last_ch, str_eq};

verus! {

broadcast use crate::text::lemma_find_last_ch_props;

/// The mathematical value of a parsed ARN: the eight fields as plain
/// character sequences, plus the flag that records whether the resource id
/// was introduced by a slash rather than a colon.
pub struct ArnView {
    pub partition: Seq<char>,
    pub service: Seq<char>,
    pub region: Seq<char>,
    pub account: Seq<char>,
    pub resource_type: Seq<char>,
    pub resource_id: Seq<char>,
    pub resource_revision: Seq<char>,
    pub has_path: bool,
}

/// The eight parts, gathered into one value.
pub open spec fn view_of(
    partition: Seq<char>,
    service: Seq<char>,
    region: Seq<char>,
    account: Seq<char>,
    resource_type: Seq<char>,
    resource_id: Seq<char>,
    resource_revision: Seq<char>,
    has_path: bool,
) -> ArnView {
    ArnView {
        partition,
        service,
        region,
        account,
        resource_type,
        resource_id,
        resource_revision,
        has_path,
    }
}

/// The canonical string for a set of ARN parts: the literal `arn`, the four
/// head fields each preceded by a colon, a colon before the resource type
/// only when one is present, additionally a slash before it for the
/// `apigateway` service, then the resource id behind a slash (when
/// `has_path`) or a colon, and finally the revision behind a colon when one
/// is present.
pub open spec fn build_spec(v: ArnView) -> Seq<char> {
    "arn:"@ + v.partition + ":"@ + v.service + ":"@ + v.region + ":"@ + v.account + (if v
        .resource_type.len() > 0 {
        ":"@
    } else {
        Seq::<char>::empty()
    }) + (if v.service == "apigateway"@ {
        "/"@
    } else {
        Seq::<char>::empty()
    }) + v.resource_type + (if v.has_path {
        "/"@
    } else {
        ":"@
    }) + v.resource_id + (if v.resource_revision.len() > 0 {
        ":"@ + v.resource_revision
    } else {
        Seq::<char>::empty()
    })
}

/// The console host for a partition; unknown partitions have none.
pub open spec fn domain_spec(partition: Seq<char>) -> Option<Seq<char>> {
    if partition == "aws"@ {
        Some("console.aws.amazon.com"@)
    } else if partition == "aws-cn"@ {
        Some("console.amazonaws.cn"@)
    } else if partition == "aws-us-gov"@ {
        Some("console.amazonaws-us-gov.com"@)
    } else {
        None
    }
}

/// The last slash-delimited component of the resource id when the id is a
/// path, else the whole resource id.
pub open spec fn path_last_spec(resource_id: Seq<char>, has_path: bool) -> Seq<char> {
    if has_path {
        match find_last_ch(resource_id, '/') {
            Some(i) => resource_id.skip(i + 1),
            None => resource_id,
        }
    } else {
        resource_id
    }
}

/// The character sequence carried by an optional string.
pub open spec fn opt_str_view(r: Option<String>) -> Option<Seq<char>> {
    match r {
        Some(s) => Some(s@),
        None => None,
    }
}

/// Read access to the eight parts of an ARN. Any type that can hand the
/// parts out carries `build` and `link`, each a one-line delegation to the
/// shared [`build_of`] and [`crate::links::link_of`].
pub trait ArnParts: Sized {
    /// The parts as one mathematical value.
    spec fn arn_view(&self) -> ArnView;

    fn partition(&self) -> (r: &str)
        ensures
            r@ == self.arn_view().partition,
    ;

    fn service(&self) -> (r: &str)
        ensures
            r@ == self.arn_view().service,
    ;

    fn region(&self) -> (r: &str)
        ensures
            r@ == self.arn_view().region,
    ;

    fn account(&self) -> (r: &str)
        ensures
            r@ == self.arn_view().account,
    ;

    fn resource_revision(&self) -> (r: &str)
        ensures
            r@ == self.arn_view().resource_revision,
    ;

    fn resource_type(&self) -> (r: &str)
        ensures
            r@ == self.arn_view().resource_type,
    ;

    fn resource_id(&self) -> (r: &str)
        ensures
            r@ == self.arn_view().resource_id,
    ;

    fn has_path(&self) -> (r: bool)
        ensures
            r == self.arn_view().has_path,
    ;

    /// Convert the ARN parts back into the canonical ARN string.
    fn build(&self) -> (r: String)
        ensures
            r@ == build_spec(self.arn_view()),
    ;

    /// A link to the AWS console for this ARN, or `None` when no rule for
    /// its service and resource type is known. `None` does not mean that
    /// the ARN itself is invalid.
    fn link(&self) -> (r: Option<String>)
        ensures
            opt_str_view(r) == crate::links::link_spec(self.arn_view()),
    ;
}

/// Assembles the canonical ARN string from the eight parts.
pub fn build_of(
    partition: &str,
    service: &str,
    region: &str,
    account: &str,
    resource_type: &str,
    resource_id: &str,
    resource_revision: &str,
    has_path: bool,
) -> (r: String)
    ensures
        r@ == build_spec(
            view_of(
                partition@,
                service@,
                region@,
                account@,
                resource_type@,
                resource_id@,
                resource_revision@,
                has_path,
            ),
        ),
{
    let ghost v = view_of(
        partition@,
        service@,
        region@,
        account@,
        resource_type@,
        resource_id@,
        resource_revision@,
        has_path,
    );
    let mut s = String::new();
    s.append("arn:");
    s.append(partition);
    s.append(":");
    s.append(service);
    s.append(":");
    s.append(region);
    s.append(":");
    s.append(account);
    if !resource_type.is_empty() {
        s.append(":");
    }
    if str_eq(service, "apigateway") {
        s.append("/");
    }
    s.append(resource_type);
    if has_path {
        s.append("/");
    } else {
        s.append(":");
    }
    s.append(resource_id);
    if !resource_revision.is_empty() {
        s.append(":");
        s.append(resource_revision);
    }
    proof {
        assert(s@ =~= build_spec(v));
    }
    s
}

/// The console host for a partition, or `None` for an unknown partition.
pub(crate) fn domain_of(partition: &str) -> (r: Option<&'static str>)
    ensures
        match r {
            Some(d) => domain_spec(partition@) == Some(d@),
            None => domain_spec(partition@) is None,
        },
{
    if str_eq(partition, "aws") {
        Some("console.aws.amazon.com")
    } else if str_eq(partition, "aws-cn") {
        Some("console.amazonaws.cn")
    } else if str_eq(partition, "aws-us-gov") {
        Some("console.amazonaws-us-gov.com")
    } else {
        None
    }
}

/// The last slash-delimited component of a path-shaped resource id, else
/// the whole resource id.
pub(crate) fn path_last_of<'a>(resource_id: &'a str, has_path: bool) -> (r: &'a str)
    ensures
        r@ == path_last_spec(resource_id@, has_path),
{
    if has_path {
        match crate::text::exec_find_last_ch(resource_id, '/') {
            Some(i) => {
                let n = resource_id.unicode_len();
                resource_id.substring_char(i + 1, n)
            },
            None => resource_id,
        }
    } else {
        resource_id
    }
}

} // verus!
