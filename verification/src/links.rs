//! The dispatch table from (service, resource type) to a console URL.
//!
//! Each entry is an independent formatting rule. An ARN whose service and
//! resource type match no entry has no link; that is a normal outcome, not
//! an error.

use vstd::prelude::*;

use crate::parts::{
    ArnView, build_of, build_spec, domain_of, domain_spec, opt_str_view, path_last_of,
    path_last_spec, view_of,
};
use crate::text::{
    contains_seq, escape_log_group, exec_contains, exec_escape_log_group, exec_find_ch,
    exec_find_last_ch, exec_remove_all_sub, exec_skip_zeros, exec_split_ch, find_ch, find_last_ch,
    remove_all_sub, skip_zeros, split_ch, str_eq,
};

verus! {

broadcast use {crate::text::lemma_find_ch_props, crate::text::lemma_find_last_ch_props};

/// One URL shape many rules share: the scheme, the region as a subdomain of
/// the console host, a path that names the region once more, and one
/// resource-dependent value at the end.
fn url_region_host(rg: &str, d: &str, m1: &str, m2: &str, x: &str) -> (r: String)
    ensures
        r@ == "https://"@ + rg@ + "."@ + d@ + m1@ + rg@ + m2@ + x@,
{
    let mut s = String::new();
    s.append("https://");
    s.append(rg);
    s.append(".");
    s.append(d);
    s.append(m1);
    s.append(rg);
    s.append(m2);
    s.append(x);
    proof {
        assert(s@ =~= "https://"@ + rg@ + "."@ + d@ + m1@ + rg@ + m2@ + x@);
    }
    s
}

// ---------------------------------------------------------------------------
// IAM Access Analyzer
// ---------------------------------------------------------------------------

pub open spec fn link_access_analyzer_spec(v: ArnView) -> Option<Seq<char>> {
    if v.resource_type == "analyzer"@ {
        match domain_spec(v.partition) {
            Some(d) => Some(
                "https://"@ + v.region + "."@ + d + "/access-analyzer/home?region="@ + v.region
                    + "#/analyzer/"@ + v.resource_id,
            ),
            None => None,
        }
    } else {
        None
    }
}

fn link_access_analyzer(p: &str, svc: &str, rg: &str, ac: &str, rt: &str, id: &str, rv: &str, hp: bool) -> (r:
    Option<String>)
    ensures
        opt_str_view(r) == link_access_analyzer_spec(view_of(p@, svc@, rg@, ac@, rt@, id@, rv@, hp)),
{
    let ghost v = view_of(p@, svc@, rg@, ac@, rt@, id@, rv@, hp);
    if str_eq(rt, "analyzer") {
        let d = match domain_of(p) {
            Some(d) => d,
            None => {
                return None;
            },
        };
        let mut s = String::new();
        s.append("https://");
        s.append(rg);
        s.append(".");
        s.append(d);
        s.append("/access-analyzer/home?region=");
        s.append(rg);
        s.append("#/analyzer/");
        s.append(id);
        proof {
            assert(s@ =~= "https://"@ + v.region + "."@ + d@ + "/access-analyzer/home?region="@
                + v.region + "#/analyzer/"@ + v.resource_id);
        }
        Some(s)
    } else {
        None
    }
}

// ---------------------------------------------------------------------------
// AWS Certificate Manager
// ---------------------------------------------------------------------------

pub open spec fn link_acm_spec(v: ArnView) -> Option<Seq<char>> {
    if v.resource_type == "certificate"@ {
        match domain_spec(v.partition) {
            Some(d) => Some(
                "https://"@ + d + "/acm/home?region="@ + v.region + "#/?id="@ + v.resource_id,
            ),
            None => None,
        }
    } else {
        None
    }
}

fn link_acm(p: &str, svc: &str, rg: &str, ac: &str, rt: &str, id: &str, rv: &str, hp: bool) -> (r:
    Option<String>)
    ensures
        opt_str_view(r) == link_acm_spec(view_of(p@, svc@, rg@, ac@, rt@, id@, rv@, hp)),
{
    let ghost v = view_of(p@, svc@, rg@, ac@, rt@, id@, rv@, hp);
    if str_eq(rt, "certificate") {
        let d = match domain_of(p) {
            Some(d) => d,
            None => {
                return None;
            },
        };
        let mut s = String::new();
        s.append("https://");
        s.append(d);
        s.append("/acm/home?region=");
        s.append(rg);
        s.append("#/?id=");
        s.append(id);
        proof {
            assert(s@ =~= "https://"@ + d@ + "/acm/home?region="@ + v.region + "#/?id="@
                + v.resource_id);
        }
        Some(s)
    } else {
        None
    }
}

// ---------------------------------------------------------------------------
// Amazon API Gateway
// ---------------------------------------------------------------------------

pub open spec fn link_apigateway_spec(v: ArnView) -> Option<Seq<char>> {
    if v.resource_type == "restapis"@ {
        match domain_spec(v.partition) {
            Some(d) => Some(
                "https://"@ + v.region + "."@ + d + "/apigateway/main/apis/"@ + v.resource_id
                    + "/resources?api="@ + v.resource_id + "&region="@ + v.region,
            ),
            None => None,
        }
    } else {
        None
    }
}

fn link_apigateway(p: &str, svc: &str, rg: &str, ac: &str, rt: &str, id: &str, rv: &str, hp: bool) -> (r:
    Option<String>)
    ensures
        opt_str_view(r) == link_apigateway_spec(view_of(p@, svc@, rg@, ac@, rt@, id@, rv@, hp)),
{
    let ghost v = view_of(p@, svc@, rg@, ac@, rt@, id@, rv@, hp);
    if str_eq(rt, "restapis") {
        let d = match domain_of(p) {
            Some(d) => d,
            None => {
                return None;
            },
        };
        let mut s = String::new();
        s.append("https://");
        s.append(rg);
        s.append(".");
        s.append(d);
        s.append("/apigateway/main/apis/");
        s.append(id);
        s.append("/resources?api=");
        s.append(id);
        s.append("&region=");
        s.append(rg);
        proof {
            assert(s@ =~= "https://"@ + v.region + "."@ + d@ + "/apigateway/main/apis/"@
                + v.resource_id + "/resources?api="@ + v.resource_id + "&region="@ + v.region);
        }
        Some(s)
    } else {
        None
    }
}

// ---------------------------------------------------------------------------
// AWS Backup
// ---------------------------------------------------------------------------

pub open spec fn link_backup_spec(v: ArnView) -> Option<Seq<char>> {
    if v.resource_type == "backup-vault"@ {
        match domain_spec(v.partition) {
            Some(d) => Some(
                "https://"@ + d + "/backup/home?region="@ + v.region + "#/backupvaults/details/"@
                    + v.resource_id,
            ),
            None => None,
        }
    } else {
        None
    }
}

fn link_backup(p: &str, svc: &str, rg: &str, ac: &str, rt: &str, id: &str, rv: &str, hp: bool) -> (r:
    Option<String>)
    ensures
        opt_str_view(r) == link_backup_spec(view_of(p@, svc@, rg@, ac@, rt@, id@, rv@, hp)),
{
    let ghost v = view_of(p@, svc@, rg@, ac@, rt@, id@, rv@, hp);
    if str_eq(rt, "backup-vault") {
        let d = match domain_of(p) {
            Some(d) => d,
            None => {
                return None;
            },
        };
        let mut s = String::new();
        s.append("https://");
        s.append(d);
        s.append("/backup/home?region=");
        s.append(rg);
        s.append("#/backupvaults/details/");
        s.append(id);
        proof {
            assert(s@ =~= "https://"@ + d@ + "/backup/home?region="@ + v.region
                + "#/backupvaults/details/"@ + v.resource_id);
        }
        Some(s)
    } else {
        None
    }
}

// ---------------------------------------------------------------------------
// Amazon CloudFront
// ---------------------------------------------------------------------------

pub open spec fn link_cloudfront_spec(v: ArnView) -> Option<Seq<char>> {
    if v.resource_type == "distribution"@ {
        match domain_spec(v.partition) {
            Some(d) => Some("https://"@ + d + "/cloudfront/v4/home#/distributions/"@
                + v.resource_id),
            None => None,
        }
    } else {
        None
    }
}

fn link_cloudfront(p: &str, svc: &str, rg: &str, ac: &str, rt: &str, id: &str, rv: &str, hp: bool) -> (r:
    Option<String>)
    ensures
        opt_str_view(r) == link_cloudfront_spec(view_of(p@, svc@, rg@, ac@, rt@, id@, rv@, hp)),
{
    let ghost v = view_of(p@, svc@, rg@, ac@, rt@, id@, rv@, hp);
    if str_eq(rt, "distribution") {
        let d = match domain_of(p) {
            Some(d) => d,
            None => {
                return None;
            },
        };
        let mut s = String::new();
        s.append("https://");
        s.append(d);
        s.append("/cloudfront/v4/home#/distributions/");
        s.append(id);
        proof {
            assert(s@ =~= "https://"@ + d@ + "/cloudfront/v4/home#/distributions/"@
                + v.resource_id);
        }
        Some(s)
    } else {
        None
    }
}

// ---------------------------------------------------------------------------
// AWS CodeConnections and AWS CodeStar Connections, which share a template
// ---------------------------------------------------------------------------

pub open spec fn link_code_connection_spec(v: ArnView) -> Option<Seq<char>> {
    if v.resource_type == "connection"@ {
        match domain_spec(v.partition) {
            Some(d) => Some(
                "https://"@ + v.region + "."@ + d + "/codesuite/settings/"@ + v.account + "/"@
                    + v.region + "/"@ + v.service + "/"@ + v.resource_type + "s/"@ + v.resource_id,
            ),
            None => None,
        }
    } else {
        None
    }
}

fn link_code_connection(p: &str, svc: &str, rg: &str, ac: &str, rt: &str, id: &str, rv: &str, hp: bool) -> (r:
    Option<String>)
    ensures
        opt_str_view(r) == link_code_connection_spec(view_of(p@, svc@, rg@, ac@, rt@, id@, rv@, hp)),
{
    let ghost v = view_of(p@, svc@, rg@, ac@, rt@, id@, rv@, hp);
    if str_eq(rt, "connection") {
        let d = match domain_of(p) {
            Some(d) => d,
            None => {
                return None;
            },
        };
        let mut s = String::new();
        s.append("https://");
        s.append(rg);
        s.append(".");
        s.append(d);
        s.append("/codesuite/settings/");
        s.append(ac);
        s.append("/");
        s.append(rg);
        s.append("/");
        s.append(svc);
        s.append("/");
        s.append(rt);
        s.append("s/");
        s.append(id);
        proof {
            assert(s@ =~= "https://"@ + v.region + "."@ + d@ + "/codesuite/settings/"@ + v.account
                + "/"@ + v.region + "/"@ + v.service + "/"@ + v.resource_type + "s/"@
                + v.resource_id);
        }
        Some(s)
    } else {
        None
    }
}

// ---------------------------------------------------------------------------
// AWS CodePipeline
// ---------------------------------------------------------------------------

pub open spec fn link_codepipeline_spec(v: ArnView) -> Option<Seq<char>> {
    if v.resource_type.len() == 0 {
        match domain_spec(v.partition) {
            Some(d) => Some(
                "https://"@ + v.region + "."@ + d + "/codesuite/codepipeline/pipelines/"@
                    + v.resource_id + "/view?region="@ + v.region,
            ),
            None => None,
        }
    } else {
        None
    }
}

fn link_codepipeline(p: &str, svc: &str, rg: &str, ac: &str, rt: &str, id: &str, rv: &str, hp: bool) -> (r:
    Option<String>)
    ensures
        opt_str_view(r) == link_codepipeline_spec(view_of(p@, svc@, rg@, ac@, rt@, id@, rv@, hp)),
{
    let ghost v = view_of(p@, svc@, rg@, ac@, rt@, id@, rv@, hp);
    if rt.is_empty() {
        let d = match domain_of(p) {
            Some(d) => d,
            None => {
                return None;
            },
        };
        let mut s = String::new();
        s.append("https://");
        s.append(rg);
        s.append(".");
        s.append(d);
        s.append("/codesuite/codepipeline/pipelines/");
        s.append(id);
        s.append("/view?region=");
        s.append(rg);
        proof {
            assert(s@ =~= "https://"@ + v.region + "."@ + d@
                + "/codesuite/codepipeline/pipelines/"@ + v.resource_id + "/view?region="@
                + v.region);
        }
        Some(s)
    } else {
        None
    }
}

// ---------------------------------------------------------------------------
// Amazon DynamoDB
// ---------------------------------------------------------------------------

pub open spec fn link_dynamodb_spec(v: ArnView) -> Option<Seq<char>> {
    if v.resource_type == "table"@ {
        match domain_spec(v.partition) {
            Some(d) => Some(
                "https://"@ + v.region + "."@ + d + "/dynamodbv2/home?region="@ + v.region
                    + "#table?name="@ + v.resource_id,
            ),
            None => None,
        }
    } else {
        None
    }
}

fn link_dynamodb(p: &str, svc: &str, rg: &str, ac: &str, rt: &str, id: &str, rv: &str, hp: bool) -> (r:
    Option<String>)
    ensures
        opt_str_view(r) == link_dynamodb_spec(view_of(p@, svc@, rg@, ac@, rt@, id@, rv@, hp)),
{
    let ghost v = view_of(p@, svc@, rg@, ac@, rt@, id@, rv@, hp);
    if str_eq(rt, "table") {
        let d = match domain_of(p) {
            Some(d) => d,
            None => {
                return None;
            },
        };
        let mut s = String::new();
        s.append("https://");
        s.append(rg);
        s.append(".");
        s.append(d);
        s.append("/dynamodbv2/home?region=");
        s.append(rg);
        s.append("#table?name=");
        s.append(id);
        proof {
            assert(s@ =~= "https://"@ + v.region + "."@ + d@ + "/dynamodbv2/home?region="@
                + v.region + "#table?name="@ + v.resource_id);
        }
        Some(s)
    } else {
        None
    }
}

// ---------------------------------------------------------------------------
// Amazon Kinesis Firehose
// ---------------------------------------------------------------------------

pub open spec fn link_firehose_spec(v: ArnView) -> Option<Seq<char>> {
    if v.resource_type == "deliverystream"@ {
        match domain_spec(v.partition) {
            Some(d) => Some(
                "https://"@ + d + "/firehose/home?region="@ + v.region + "#/details/"@
                    + v.resource_id + "/monitoring"@,
            ),
            None => None,
        }
    } else {
        None
    }
}

fn link_firehose(p: &str, svc: &str, rg: &str, ac: &str, rt: &str, id: &str, rv: &str, hp: bool) -> (r:
    Option<String>)
    ensures
        opt_str_view(r) == link_firehose_spec(view_of(p@, svc@, rg@, ac@, rt@, id@, rv@, hp)),
{
    let ghost v = view_of(p@, svc@, rg@, ac@, rt@, id@, rv@, hp);
    if str_eq(rt, "deliverystream") {
        let d = match domain_of(p) {
            Some(d) => d,
            None => {
                return None;
            },
        };
        let mut s = String::new();
        s.append("https://");
        s.append(d);
        s.append("/firehose/home?region=");
        s.append(rg);
        s.append("#/details/");
        s.append(id);
        s.append("/monitoring");
        proof {
            assert(s@ =~= "https://"@ + d@ + "/firehose/home?region="@ + v.region + "#/details/"@
                + v.resource_id + "/monitoring"@);
        }
        Some(s)
    } else {
        None
    }
}

// ---------------------------------------------------------------------------
// AWS Identity and Access Management
// ---------------------------------------------------------------------------

pub open spec fn link_iam_spec(v: ArnView) -> Option<Seq<char>> {
    match domain_spec(v.partition) {
        Some(d) => if v.resource_type == "group"@ {
            Some(
                "https://"@ + d + "/iamv2/home#/groups/details/"@ + path_last_spec(
                    v.resource_id,
                    v.has_path,
                ),
            )
        } else if v.resource_type == "oidc-provider"@ {
            Some("https://"@ + d + "/iam/home?#/providers/"@ + build_spec(v))
        } else if v.resource_type == "policy"@ {
            Some("https://"@ + d + "/iam/home?#/policies/"@ + build_spec(v))
        } else if v.resource_type == "role"@ {
            Some(
                "https://"@ + d + "/iam/home?#/roles/"@ + path_last_spec(
                    v.resource_id,
                    v.has_path,
                ),
            )
        } else if v.resource_type == "user"@ {
            Some("https://"@ + d + "/iam/home?#/users/"@ + v.resource_id)
        } else {
            None
        },
        None => None,
    }
}

fn link_iam(p: &str, svc: &str, rg: &str, ac: &str, rt: &str, id: &str, rv: &str, hp: bool) -> (r:
    Option<String>)
    ensures
        opt_str_view(r) == link_iam_spec(view_of(p@, svc@, rg@, ac@, rt@, id@, rv@, hp)),
{
    let ghost v = view_of(p@, svc@, rg@, ac@, rt@, id@, rv@, hp);
    if str_eq(rt, "group") {
        let d = match domain_of(p) {
            Some(d) => d,
            None => {
                return None;
            },
        };
        let mut s = String::new();
        s.append("https://");
        s.append(d);
        s.append("/iamv2/home#/groups/details/");
        s.append(path_last_of(id, hp));
        proof {
            assert(s@ =~= "https://"@ + d@ + "/iamv2/home#/groups/details/"@ + path_last_spec(
                v.resource_id,
                v.has_path,
            ));
        }
        Some(s)
    } else if str_eq(rt, "oidc-provider") {
        let d = match domain_of(p) {
            Some(d) => d,
            None => {
                return None;
            },
        };
        let built = build_of(p, svc, rg, ac, rt, id, rv, hp);
        let mut s = String::new();
        s.append("https://");
        s.append(d);
        s.append("/iam/home?#/providers/");
        s.append(built.as_str());
        proof {
            assert(s@ =~= "https://"@ + d@ + "/iam/home?#/providers/"@ + build_spec(v));
        }
        Some(s)
    } else if str_eq(rt, "policy") {
        let d = match domain_of(p) {
            Some(d) => d,
            None => {
                return None;
            },
        };
        let built = build_of(p, svc, rg, ac, rt, id, rv, hp);
        let mut s = String::new();
        s.append("https://");
        s.append(d);
        s.append("/iam/home?#/policies/");
        s.append(built.as_str());
        proof {
            assert(s@ =~= "https://"@ + d@ + "/iam/home?#/policies/"@ + build_spec(v));
        }
        Some(s)
    } else if str_eq(rt, "role") {
        let d = match domain_of(p) {
            Some(d) => d,
            None => {
                return None;
            },
        };
        let mut s = String::new();
        s.append("https://");
        s.append(d);
        s.append("/iam/home?#/roles/");
        s.append(path_last_of(id, hp));
        proof {
            assert(s@ =~= "https://"@ + d@ + "/iam/home?#/roles/"@ + path_last_spec(
                v.resource_id,
                v.has_path,
            ));
        }
        Some(s)
    } else if str_eq(rt, "user") {
        let d = match domain_of(p) {
            Some(d) => d,
            None => {
                return None;
            },
        };
        let mut s = String::new();
        s.append("https://");
        s.append(d);
        s.append("/iam/home?#/users/");
        s.append(id);
        proof {
            assert(s@ =~= "https://"@ + d@ + "/iam/home?#/users/"@ + v.resource_id);
        }
        Some(s)
    } else {
        None
    }
}

// ---------------------------------------------------------------------------
// AWS Key Management Service
// ---------------------------------------------------------------------------

pub open spec fn link_kms_spec(v: ArnView) -> Option<Seq<char>> {
    if v.resource_type == "key"@ {
        match domain_spec(v.partition) {
            Some(d) => Some(
                "https://"@ + d + "/kms/home?region="@ + v.region + "#/kms/keys/"@ + v.resource_id,
            ),
            None => None,
        }
    } else {
        None
    }
}

fn link_kms(p: &str, svc: &str, rg: &str, ac: &str, rt: &str, id: &str, rv: &str, hp: bool) -> (r:
    Option<String>)
    ensures
        opt_str_view(r) == link_kms_spec(view_of(p@, svc@, rg@, ac@, rt@, id@, rv@, hp)),
{
    let ghost v = view_of(p@, svc@, rg@, ac@, rt@, id@, rv@, hp);
    if str_eq(rt, "key") {
        let d = match domain_of(p) {
            Some(d) => d,
            None => {
                return None;
            },
        };
        let mut s = String::new();
        s.append("https://");
        s.append(d);
        s.append("/kms/home?region=");
        s.append(rg);
        s.append("#/kms/keys/");
        s.append(id);
        proof {
            assert(s@ =~= "https://"@ + d@ + "/kms/home?region="@ + v.region + "#/kms/keys/"@
                + v.resource_id);
        }
        Some(s)
    } else {
        None
    }
}

// ---------------------------------------------------------------------------
// AWS Elemental MediaLive
// ---------------------------------------------------------------------------

pub open spec fn link_medialive_spec(v: ArnView) -> Option<Seq<char>> {
    if v.resource_type == "channel"@ {
        match domain_spec(v.partition) {
            Some(d) => Some(
                "https://"@ + v.region + "."@ + d + "/medialive/home?region="@ + v.region
                    + "#/channels/"@ + v.resource_id,
            ),
            None => None,
        }
    } else {
        None
    }
}

fn link_medialive(p: &str, svc: &str, rg: &str, ac: &str, rt: &str, id: &str, rv: &str, hp: bool) -> (r:
    Option<String>)
    ensures
        opt_str_view(r) == link_medialive_spec(view_of(p@, svc@, rg@, ac@, rt@, id@, rv@, hp)),
{
    let ghost v = view_of(p@, svc@, rg@, ac@, rt@, id@, rv@, hp);
    if str_eq(rt, "channel") {
        let d = match domain_of(p) {
            Some(d) => d,
            None => {
                return None;
            },
        };
        let mut s = String::new();
        s.append("https://");
        s.append(rg);
        s.append(".");
        s.append(d);
        s.append("/medialive/home?region=");
        s.append(rg);
        s.append("#/channels/");
        s.append(id);
        proof {
            assert(s@ =~= "https://"@ + v.region + "."@ + d@ + "/medialive/home?region="@
                + v.region + "#/channels/"@ + v.resource_id);
        }
        Some(s)
    } else {
        None
    }
}

// ---------------------------------------------------------------------------
// Amazon RDS
// ---------------------------------------------------------------------------

pub open spec fn link_rds_spec(v: ArnView) -> Option<Seq<char>> {
    match domain_spec(v.partition) {
        Some(d) => if v.resource_type == "cluster"@ {
            Some(
                "https://"@ + d + "/rds/home?region="@ + v.region + "#database:id="@
                    + v.resource_id + ";is-cluster=true"@,
            )
        } else if v.resource_type == "db"@ {
            Some("https://"@ + d + "/rds/home?region="@ + v.region + "#database:id="@
                + v.resource_id)
        } else if v.resource_type == "og"@ {
            Some(
                "https://"@ + d + "/rds/home?region="@ + v.region
                    + "#option-group-details:option-group-name="@ + v.resource_id,
            )
        } else if v.resource_type == "snapshot"@ {
            Some("https://"@ + d + "/rds/home?region="@ + v.region + "#db-snapshot:id="@
                + v.resource_id)
        } else if v.resource_type == "subgrp"@ {
            Some("https://"@ + d + "/rds/home?region="@ + v.region + "#db-subnet-group:id="@
                + v.resource_id)
        } else {
            None
        },
        None => None,
    }
}

fn link_rds(p: &str, svc: &str, rg: &str, ac: &str, rt: &str, id: &str, rv: &str, hp: bool) -> (r:
    Option<String>)
    ensures
        opt_str_view(r) == link_rds_spec(view_of(p@, svc@, rg@, ac@, rt@, id@, rv@, hp)),
{
    let ghost v = view_of(p@, svc@, rg@, ac@, rt@, id@, rv@, hp);
    if str_eq(rt, "cluster") {
        let d = match domain_of(p) {
            Some(d) => d,
            None => {
                return None;
            },
        };
        let mut s = String::new();
        s.append("https://");
        s.append(d);
        s.append("/rds/home?region=");
        s.append(rg);
        s.append("#database:id=");
        s.append(id);
        s.append(";is-cluster=true");
        proof {
            assert(s@ =~= "https://"@ + d@ + "/rds/home?region="@ + v.region + "#database:id="@
                + v.resource_id + ";is-cluster=true"@);
        }
        Some(s)
    } else if str_eq(rt, "db") {
        let d = match domain_of(p) {
            Some(d) => d,
            None => {
                return None;
            },
        };
        let mut s = String::new();
        s.append("https://");
        s.append(d);
        s.append("/rds/home?region=");
        s.append(rg);
        s.append("#database:id=");
        s.append(id);
        proof {
            assert(s@ =~= "https://"@ + d@ + "/rds/home?region="@ + v.region + "#database:id="@
                + v.resource_id);
        }
        Some(s)
    } else if str_eq(rt, "og") {
        let d = match domain_of(p) {
            Some(d) => d,
            None => {
                return None;
            },
        };
        let mut s = String::new();
        s.append("https://");
        s.append(d);
        s.append("/rds/home?region=");
        s.append(rg);
        s.append("#option-group-details:option-group-name=");
        s.append(id);
        proof {
            assert(s@ =~= "https://"@ + d@ + "/rds/home?region="@ + v.region
                + "#option-group-details:option-group-name="@ + v.resource_id);
        }
        Some(s)
    } else if str_eq(rt, "snapshot") {
        let d = match domain_of(p) {
            Some(d) => d,
            None => {
                return None;
            },
        };
        let mut s = String::new();
        s.append("https://");
        s.append(d);
        s.append("/rds/home?region=");
        s.append(rg);
        s.append("#db-snapshot:id=");
        s.append(id);
        proof {
            assert(s@ =~= "https://"@ + d@ + "/rds/home?region="@ + v.region + "#db-snapshot:id="@
                + v.resource_id);
        }
        Some(s)
    } else if str_eq(rt, "subgrp") {
        let d = match domain_of(p) {
            Some(d) => d,
            None => {
                return None;
            },
        };
        let mut s = String::new();
        s.append("https://");
        s.append(d);
        s.append("/rds/home?region=");
        s.append(rg);
        s.append("#db-subnet-group:id=");
        s.append(id);
        proof {
            assert(s@ =~= "https://"@ + d@ + "/rds/home?region="@ + v.region
                + "#db-subnet-group:id="@ + v.resource_id);
        }
        Some(s)
    } else {
        None
    }
}

// ---------------------------------------------------------------------------
// Amazon Route 53
// ---------------------------------------------------------------------------

pub open spec fn link_route53_spec(v: ArnView) -> Option<Seq<char>> {
    match domain_spec(v.partition) {
        Some(d) => if v.resource_type == "healthcheck"@ {
            Some("https://"@ + d + "/route53/healthchecks/home"@)
        } else if v.resource_type == "hostedzone"@ {
            Some("https://"@ + d + "/route53/home?#resource-record-sets:"@ + v.resource_id)
        } else if v.resource_type == "trafficpolicy"@ {
            Some("https://"@ + d + "/route53/trafficflow/home#/policy/"@ + v.resource_id)
        } else if v.resource_type == "trafficpolicyinstance"@ {
            Some("https://"@ + d + "/route53/trafficflow/home#/modify-records/edit/"@
                + v.resource_id)
        } else {
            None
        },
        None => None,
    }
}

fn link_route53(p: &str, svc: &str, rg: &str, ac: &str, rt: &str, id: &str, rv: &str, hp: bool) -> (r:
    Option<String>)
    ensures
        opt_str_view(r) == link_route53_spec(view_of(p@, svc@, rg@, ac@, rt@, id@, rv@, hp)),
{
    let ghost v = view_of(p@, svc@, rg@, ac@, rt@, id@, rv@, hp);
    if str_eq(rt, "healthcheck") {
        let d = match domain_of(p) {
            Some(d) => d,
            None => {
                return None;
            },
        };
        let mut s = String::new();
        s.append("https://");
        s.append(d);
        s.append("/route53/healthchecks/home");
        proof {
            assert(s@ =~= "https://"@ + d@ + "/route53/healthchecks/home"@);
        }
        Some(s)
    } else if str_eq(rt, "hostedzone") {
        let d = match domain_of(p) {
            Some(d) => d,
            None => {
                return None;
            },
        };
        let mut s = String::new();
        s.append("https://");
        s.append(d);
        s.append("/route53/home?#resource-record-sets:");
        s.append(id);
        proof {
            assert(s@ =~= "https://"@ + d@ + "/route53/home?#resource-record-sets:"@
                + v.resource_id);
        }
        Some(s)
    } else if str_eq(rt, "trafficpolicy") {
        let d = match domain_of(p) {
            Some(d) => d,
            None => {
                return None;
            },
        };
        let mut s = String::new();
        s.append("https://");
        s.append(d);
        s.append("/route53/trafficflow/home#/policy/");
        s.append(id);
        proof {
            assert(s@ =~= "https://"@ + d@ + "/route53/trafficflow/home#/policy/"@
                + v.resource_id);
        }
        Some(s)
    } else if str_eq(rt, "trafficpolicyinstance") {
        let d = match domain_of(p) {
            Some(d) => d,
            None => {
                return None;
            },
        };
        let mut s = String::new();
        s.append("https://");
        s.append(d);
        s.append("/route53/trafficflow/home#/modify-records/edit/");
        s.append(id);
        proof {
            assert(s@ =~= "https://"@ + d@ + "/route53/trafficflow/home#/modify-records/edit/"@
                + v.resource_id);
        }
        Some(s)
    } else {
        None
    }
}

// ---------------------------------------------------------------------------
// Amazon S3
// ---------------------------------------------------------------------------

pub open spec fn link_s3_spec(v: ArnView) -> Option<Seq<char>> {
    if v.resource_type.len() == 0 {
        match domain_spec(v.partition) {
            Some(d) => Some("https://s3."@ + d + "/s3/buckets/"@ + v.resource_id),
            None => None,
        }
    } else {
        None
    }
}

fn link_s3(p: &str, svc: &str, rg: &str, ac: &str, rt: &str, id: &str, rv: &str, hp: bool) -> (r:
    Option<String>)
    ensures
        opt_str_view(r) == link_s3_spec(view_of(p@, svc@, rg@, ac@, rt@, id@, rv@, hp)),
{
    let ghost v = view_of(p@, svc@, rg@, ac@, rt@, id@, rv@, hp);
    if rt.is_empty() {
        let d = match domain_of(p) {
            Some(d) => d,
            None => {
                return None;
            },
        };
        let mut s = String::new();
        s.append("https://s3.");
        s.append(d);
        s.append("/s3/buckets/");
        s.append(id);
        proof {
            assert(s@ =~= "https://s3."@ + d@ + "/s3/buckets/"@ + v.resource_id);
        }
        Some(s)
    } else {
        None
    }
}

// ---------------------------------------------------------------------------
// Amazon SNS
// ---------------------------------------------------------------------------

pub open spec fn link_sns_spec(v: ArnView) -> Option<Seq<char>> {
    if v.resource_type.len() == 0 {
        match domain_spec(v.partition) {
            Some(d) => Some(
                "https://"@ + d + "/sns/v3/home?region="@ + v.region + "#/topic/"@ + build_spec(v),
            ),
            None => None,
        }
    } else {
        None
    }
}

fn link_sns(p: &str, svc: &str, rg: &str, ac: &str, rt: &str, id: &str, rv: &str, hp: bool) -> (r:
    Option<String>)
    ensures
        opt_str_view(r) == link_sns_spec(view_of(p@, svc@, rg@, ac@, rt@, id@, rv@, hp)),
{
    let ghost v = view_of(p@, svc@, rg@, ac@, rt@, id@, rv@, hp);
    if rt.is_empty() {
        let d = match domain_of(p) {
            Some(d) => d,
            None => {
                return None;
            },
        };
        let built = build_of(p, svc, rg, ac, rt, id, rv, hp);
        let mut s = String::new();
        s.append("https://");
        s.append(d);
        s.append("/sns/v3/home?region=");
        s.append(rg);
        s.append("#/topic/");
        s.append(built.as_str());
        proof {
            assert(s@ =~= "https://"@ + d@ + "/sns/v3/home?region="@ + v.region + "#/topic/"@
                + build_spec(v));
        }
        Some(s)
    } else {
        None
    }
}

// ---------------------------------------------------------------------------
// Amazon SQS
// ---------------------------------------------------------------------------

pub open spec fn link_sqs_spec(v: ArnView) -> Option<Seq<char>> {
    if v.resource_type.len() == 0 {
        match domain_spec(v.partition) {
            Some(d) => Some(
                "https://"@ + v.region + "."@ + d + "/sqs/v2/home?region="@ + v.region
                    + "#/queues/https%3A%2F%2Fsqs."@ + v.region + ".amazonaws.com%2F"@ + v.account
                    + "%2F"@ + v.resource_id,
            ),
            None => None,
        }
    } else {
        None
    }
}

fn link_sqs(p: &str, svc: &str, rg: &str, ac: &str, rt: &str, id: &str, rv: &str, hp: bool) -> (r:
    Option<String>)
    ensures
        opt_str_view(r) == link_sqs_spec(view_of(p@, svc@, rg@, ac@, rt@, id@, rv@, hp)),
{
    let ghost v = view_of(p@, svc@, rg@, ac@, rt@, id@, rv@, hp);
    if rt.is_empty() {
        let d = match domain_of(p) {
            Some(d) => d,
            None => {
                return None;
            },
        };
        let mut s = String::new();
        s.append("https://");
        s.append(rg);
        s.append(".");
        s.append(d);
        s.append("/sqs/v2/home?region=");
        s.append(rg);
        s.append("#/queues/https%3A%2F%2Fsqs.");
        s.append(rg);
        s.append(".amazonaws.com%2F");
        s.append(ac);
        s.append("%2F");
        s.append(id);
        proof {
            assert(s@ =~= "https://"@ + v.region + "."@ + d@ + "/sqs/v2/home?region="@ + v.region
                + "#/queues/https%3A%2F%2Fsqs."@ + v.region + ".amazonaws.com%2F"@ + v.account
                + "%2F"@ + v.resource_id);
        }
        Some(s)
    } else {
        None
    }
}

// ---------------------------------------------------------------------------
// AWS Step Functions
// ---------------------------------------------------------------------------

pub open spec fn link_states_spec(v: ArnView) -> Option<Seq<char>> {
    match domain_spec(v.partition) {
        Some(d) => if v.resource_type == "execution"@ {
            Some(
                "https://"@ + v.region + "."@ + d + "/states/home?region="@ + v.region
                    + "#/v2/executions/details/"@ + build_spec(v),
            )
        } else if v.resource_type == "stateMachine"@ {
            Some(
                "https://"@ + v.region + "."@ + d + "/states/home?region="@ + v.region
                    + "#/statemachines/view/"@ + build_spec(v),
            )
        } else {
            None
        },
        None => None,
    }
}

fn link_states(p: &str, svc: &str, rg: &str, ac: &str, rt: &str, id: &str, rv: &str, hp: bool) -> (r:
    Option<String>)
    ensures
        opt_str_view(r) == link_states_spec(view_of(p@, svc@, rg@, ac@, rt@, id@, rv@, hp)),
{
    let ghost v = view_of(p@, svc@, rg@, ac@, rt@, id@, rv@, hp);
    if str_eq(rt, "execution") {
        let d = match domain_of(p) {
            Some(d) => d,
            None => {
                return None;
            },
        };
        let built = build_of(p, svc, rg, ac, rt, id, rv, hp);
        let mut s = String::new();
        s.append("https://");
        s.append(rg);
        s.append(".");
        s.append(d);
        s.append("/states/home?region=");
        s.append(rg);
        s.append("#/v2/executions/details/");
        s.append(built.as_str());
        proof {
            assert(s@ =~= "https://"@ + v.region + "."@ + d@ + "/states/home?region="@ + v.region
                + "#/v2/executions/details/"@ + build_spec(v));
        }
        Some(s)
    } else if str_eq(rt, "stateMachine") {
        let d = match domain_of(p) {
            Some(d) => d,
            None => {
                return None;
            },
        };
        let built = build_of(p, svc, rg, ac, rt, id, rv, hp);
        let mut s = String::new();
        s.append("https://");
        s.append(rg);
        s.append(".");
        s.append(d);
        s.append("/states/home?region=");
        s.append(rg);
        s.append("#/statemachines/view/");
        s.append(built.as_str());
        proof {
            assert(s@ =~= "https://"@ + v.region + "."@ + d@ + "/states/home?region="@ + v.region
                + "#/statemachines/view/"@ + build_spec(v));
        }
        Some(s)
    } else {
        None
    }
}

// ---------------------------------------------------------------------------
// AWS Amplify
// ---------------------------------------------------------------------------

pub open spec fn link_amplify_spec(v: ArnView) -> Option<Seq<char>> {
    if v.resource_type == "apps"@ {
        if contains_seq(v.resource_id, "/jobs/"@) && split_ch(v.resource_id, '/').len() >= 4 {
            match domain_spec(v.partition) {
                Some(d) => Some(
                    "https://"@ + v.region + "."@ + d + "/amplify/home?region="@ + v.region + "#/"@
                        + split_ch(v.resource_id, '/')[0] + "/"@ + split_ch(v.resource_id, '/')[2]
                        + "/"@ + skip_zeros(split_ch(v.resource_id, '/').last()),
                ),
                None => None,
            }
        } else {
            None
        }
    } else {
        None
    }
}

fn link_amplify(p: &str, svc: &str, rg: &str, ac: &str, rt: &str, id: &str, rv: &str, hp: bool) -> (r:
    Option<String>)
    ensures
        opt_str_view(r) == link_amplify_spec(view_of(p@, svc@, rg@, ac@, rt@, id@, rv@, hp)),
{
    let ghost v = view_of(p@, svc@, rg@, ac@, rt@, id@, rv@, hp);
    if str_eq(rt, "apps") {
        if exec_contains(id, "/jobs/") {
            let parts = exec_split_ch(id, '/');
            let ghost dv = split_ch(id@, '/');
            if parts.len() >= 4 {
                let d = match domain_of(p) {
                    Some(d) => d,
                    None => {
                        return None;
                    },
                };
                let app_id = parts[0].as_str();
                let branch = parts[2].as_str();
                // Remove leading zeros from the job number.
                let job = exec_skip_zeros(parts[parts.len() - 1].as_str());
                proof {
                    assert(app_id@ == dv[0]);
                    assert(branch@ == dv[2]);
                    assert(job@ == skip_zeros(dv.last()));
                }
                let mut s = String::new();
                s.append("https://");
                s.append(rg);
                s.append(".");
                s.append(d);
                s.append("/amplify/home?region=");
                s.append(rg);
                s.append("#/");
                s.append(app_id);
                s.append("/");
                s.append(branch);
                s.append("/");
                s.append(job);
                proof {
                    assert(s@ =~= "https://"@ + v.region + "."@ + d@ + "/amplify/home?region="@
                        + v.region + "#/"@ + dv[0] + "/"@ + dv[2] + "/"@ + skip_zeros(dv.last()));
                }
                Some(s)
            } else {
                None
            }
        } else {
            None
        }
    } else {
        None
    }
}

// ---------------------------------------------------------------------------
// Amazon EC2 Auto Scaling
// ---------------------------------------------------------------------------

pub open spec fn link_autoscaling_spec(v: ArnView) -> Option<Seq<char>> {
    if v.resource_type == "autoScalingGroup"@ {
        match domain_spec(v.partition) {
            Some(d) => Some(
                "https://"@ + v.region + "."@ + d + "/ec2/home?region="@ + v.region
                    + "#AutoScalingGroupDetails:id="@ + (match find_ch(v.resource_id, '/') {
                    Some(i) => v.resource_id.skip(i + 1),
                    None => Seq::<char>::empty(),
                }) + ";view=details"@,
            ),
            None => None,
        }
    } else {
        None
    }
}

fn link_autoscaling(p: &str, svc: &str, rg: &str, ac: &str, rt: &str, id: &str, rv: &str, hp: bool) -> (r:
    Option<String>)
    ensures
        opt_str_view(r) == link_autoscaling_spec(view_of(p@, svc@, rg@, ac@, rt@, id@, rv@, hp)),
{
    let ghost v = view_of(p@, svc@, rg@, ac@, rt@, id@, rv@, hp);
    if str_eq(rt, "autoScalingGroup") {
        let d = match domain_of(p) {
            Some(d) => d,
            None => {
                return None;
            },
        };
        // The group name is everything behind the first slash.
        let n = id.unicode_len();
        let group = match exec_find_ch(id, '/') {
            Some(i) => id.substring_char(i + 1, n),
            None => "",
        };
        proof {
            reveal_strlit("");
            assert(""@ =~= Seq::<char>::empty());
        }
        let mut s = String::new();
        s.append("https://");
        s.append(rg);
        s.append(".");
        s.append(d);
        s.append("/ec2/home?region=");
        s.append(rg);
        s.append("#AutoScalingGroupDetails:id=");
        s.append(group);
        s.append(";view=details");
        proof {
            assert(s@ =~= "https://"@ + v.region + "."@ + d@ + "/ec2/home?region="@ + v.region
                + "#AutoScalingGroupDetails:id="@ + (match find_ch(v.resource_id, '/') {
                Some(i) => v.resource_id.skip(i + 1),
                None => Seq::<char>::empty(),
            }) + ";view=details"@);
        }
        Some(s)
    } else {
        None
    }
}

// ---------------------------------------------------------------------------
// Amazon EC2
// ---------------------------------------------------------------------------

pub open spec fn link_ec2_spec(v: ArnView) -> Option<Seq<char>> {
    match domain_spec(v.partition) {
        Some(d) => if v.resource_type == "image"@ {
            Some(
                "https://"@ + v.region + "."@ + d + "/ec2/home?region="@ + v.region
                    + "#ImageDetails:imageId="@ + v.resource_id,
            )
        } else if v.resource_type == "instance"@ {
            Some(
                "https://"@ + v.region + "."@ + d + "/ec2/home?region="@ + v.region
                    + "#InstanceDetails:instanceId="@ + v.resource_id,
            )
        } else if v.resource_type == "launch-template"@ {
            Some(
                "https://"@ + v.region + "."@ + d + "/ec2/home?region="@ + v.region
                    + "#LaunchTemplateDetails:launchTemplateId="@ + v.resource_id,
            )
        } else if v.resource_type == "natgateway"@ {
            Some(
                "https://"@ + v.region + "."@ + d + "/vpcconsole/home?region="@ + v.region
                    + "#NatGatewayDetails:natGatewayId="@ + v.resource_id,
            )
        } else if v.resource_type == "security-group"@ {
            Some(
                "https://"@ + v.region + "."@ + d + "/vpc/home?region="@ + v.region
                    + "#SecurityGroup:groupId="@ + v.resource_id,
            )
        } else if v.resource_type == "snapshot"@ {
            Some(
                "https://"@ + v.region + "."@ + d + "/ec2/home?region="@ + v.region
                    + "#SnapshotDetails:snapshotId="@ + v.resource_id,
            )
        } else if v.resource_type == "subnet"@ {
            Some(
                "https://"@ + v.region + "."@ + d + "/vpc/home?region="@ + v.region
                    + "#SubnetDetails:subnetId="@ + v.resource_id,
            )
        } else if v.resource_type == "volume"@ {
            Some(
                "https://"@ + v.region + "."@ + d + "/ec2/home?region="@ + v.region
                    + "#VolumeDetails:volumeId="@ + v.resource_id,
            )
        } else if v.resource_type == "vpc"@ {
            Some(
                "https://"@ + v.region + "."@ + d + "/vpc/home?region="@ + v.region
                    + "#VpcDetails:VpcId="@ + v.resource_id,
            )
        } else if v.resource_type == "vpc-endpoint"@ {
            Some(
                "https://"@ + v.region + "."@ + d + "/vpcconsole/home?region="@ + v.region
                    + "#EndpointDetails:vpcEndpointId="@ + v.resource_id,
            )
        } else {
            None
        },
        None => None,
    }
}

fn link_ec2(p: &str, svc: &str, rg: &str, ac: &str, rt: &str, id: &str, rv: &str, hp: bool) -> (r:
    Option<String>)
    ensures
        opt_str_view(r) == link_ec2_spec(view_of(p@, svc@, rg@, ac@, rt@, id@, rv@, hp)),
{
    if str_eq(rt, "image") {
        let d = match domain_of(p) {
            Some(d) => d,
            None => {
                return None;
            },
        };
        Some(url_region_host(rg, d, "/ec2/home?region=", "#ImageDetails:imageId=", id))
    } else if str_eq(rt, "instance") {
        let d = match domain_of(p) {
            Some(d) => d,
            None => {
                return None;
            },
        };
        Some(url_region_host(rg, d, "/ec2/home?region=", "#InstanceDetails:instanceId=", id))
    } else if str_eq(rt, "launch-template") {
        let d = match domain_of(p) {
            Some(d) => d,
            None => {
                return None;
            },
        };
        Some(
            url_region_host(
                rg,
                d,
                "/ec2/home?region=",
                "#LaunchTemplateDetails:launchTemplateId=",
                id,
            ),
        )
    } else if str_eq(rt, "natgateway") {
        let d = match domain_of(p) {
            Some(d) => d,
            None => {
                return None;
            },
        };
        Some(
            url_region_host(rg, d, "/vpcconsole/home?region=", "#NatGatewayDetails:natGatewayId=", id),
        )
    } else if str_eq(rt, "security-group") {
        let d = match domain_of(p) {
            Some(d) => d,
            None => {
                return None;
            },
        };
        Some(url_region_host(rg, d, "/vpc/home?region=", "#SecurityGroup:groupId=", id))
    } else if str_eq(rt, "snapshot") {
        let d = match domain_of(p) {
            Some(d) => d,
            None => {
                return None;
            },
        };
        Some(url_region_host(rg, d, "/ec2/home?region=", "#SnapshotDetails:snapshotId=", id))
    } else if str_eq(rt, "subnet") {
        let d = match domain_of(p) {
            Some(d) => d,
            None => {
                return None;
            },
        };
        Some(url_region_host(rg, d, "/vpc/home?region=", "#SubnetDetails:subnetId=", id))
    } else if str_eq(rt, "volume") {
        let d = match domain_of(p) {
            Some(d) => d,
            None => {
                return None;
            },
        };
        Some(url_region_host(rg, d, "/ec2/home?region=", "#VolumeDetails:volumeId=", id))
    } else if str_eq(rt, "vpc") {
        let d = match domain_of(p) {
            Some(d) => d,
            None => {
                return None;
            },
        };
        Some(url_region_host(rg, d, "/vpc/home?region=", "#VpcDetails:VpcId=", id))
    } else if str_eq(rt, "vpc-endpoint") {
        let d = match domain_of(p) {
            Some(d) => d,
            None => {
                return None;
            },
        };
        Some(
            url_region_host(rg, d, "/vpcconsole/home?region=", "#EndpointDetails:vpcEndpointId=", id),
        )
    } else {
        None
    }
}

// ---------------------------------------------------------------------------
// Amazon Elastic Container Service
// ---------------------------------------------------------------------------

/// The resource id cut at its last slash: the part before it and the part
/// behind it, or two empty parts when there is no slash.
pub open spec fn rsplit_slash(id: Seq<char>) -> (Seq<char>, Seq<char>) {
    match find_last_ch(id, '/') {
        Some(i) => (id.take(i), id.skip(i + 1)),
        None => (Seq::<char>::empty(), Seq::<char>::empty()),
    }
}

pub open spec fn link_ecs_spec(v: ArnView) -> Option<Seq<char>> {
    match domain_spec(v.partition) {
        Some(d) => if v.resource_type == "cluster"@ {
            Some(
                "https://"@ + v.region + "."@ + d + "/ecs/v2/clusters/"@ + v.resource_id
                    + "?region="@ + v.region,
            )
        } else if v.resource_type == "service"@ {
            Some(
                "https://"@ + v.region + "."@ + d + "/ecs/v2/clusters/"@ + rsplit_slash(
                    v.resource_id,
                ).0 + "/services/"@ + rsplit_slash(v.resource_id).1 + "?region="@ + v.region,
            )
        } else if v.resource_type == "task"@ {
            Some(
                "https://"@ + v.region + "."@ + d + "/ecs/v2/clusters/"@ + rsplit_slash(
                    v.resource_id,
                ).0 + "/tasks/"@ + rsplit_slash(v.resource_id).1 + "?region="@ + v.region,
            )
        } else if v.resource_type == "task-definition"@ {
            Some(
                "https://"@ + v.region + "."@ + d + "/ecs/v2/task-definitions/"@ + v.resource_id
                    + "/"@ + v.resource_revision + "?region="@ + v.region,
            )
        } else {
            None
        },
        None => None,
    }
}

fn link_ecs(p: &str, svc: &str, rg: &str, ac: &str, rt: &str, id: &str, rv: &str, hp: bool) -> (r:
    Option<String>)
    ensures
        opt_str_view(r) == link_ecs_spec(view_of(p@, svc@, rg@, ac@, rt@, id@, rv@, hp)),
{
    let ghost v = view_of(p@, svc@, rg@, ac@, rt@, id@, rv@, hp);
    if str_eq(rt, "cluster") {
        let d = match domain_of(p) {
            Some(d) => d,
            None => {
                return None;
            },
        };
        let mut s = String::new();
        s.append("https://");
        s.append(rg);
        s.append(".");
        s.append(d);
        s.append("/ecs/v2/clusters/");
        s.append(id);
        s.append("?region=");
        s.append(rg);
        proof {
            assert(s@ =~= "https://"@ + v.region + "."@ + d@ + "/ecs/v2/clusters/"@
                + v.resource_id + "?region="@ + v.region);
        }
        Some(s)
    } else if str_eq(rt, "service") {
        let d = match domain_of(p) {
            Some(d) => d,
            None => {
                return None;
            },
        };
        let n = id.unicode_len();
        let (before, last): (&str, &str) = match exec_find_last_ch(id, '/') {
            Some(i) => (id.substring_char(0, i), id.substring_char(i + 1, n)),
            None => ("", ""),
        };
        proof {
            reveal_strlit("");
            assert(""@ =~= Seq::<char>::empty());
            assert(before@ == rsplit_slash(v.resource_id).0);
            assert(last@ == rsplit_slash(v.resource_id).1);
        }
        let mut s = String::new();
        s.append("https://");
        s.append(rg);
        s.append(".");
        s.append(d);
        s.append("/ecs/v2/clusters/");
        s.append(before);
        s.append("/services/");
        s.append(last);
        s.append("?region=");
        s.append(rg);
        proof {
            assert(s@ =~= "https://"@ + v.region + "."@ + d@ + "/ecs/v2/clusters/"@ + rsplit_slash(
                v.resource_id,
            ).0 + "/services/"@ + rsplit_slash(v.resource_id).1 + "?region="@ + v.region);
        }
        Some(s)
    } else if str_eq(rt, "task") {
        let d = match domain_of(p) {
            Some(d) => d,
            None => {
                return None;
            },
        };
        let n = id.unicode_len();
        let (before, last): (&str, &str) = match exec_find_last_ch(id, '/') {
            Some(i) => (id.substring_char(0, i), id.substring_char(i + 1, n)),
            None => ("", ""),
        };
        proof {
            reveal_strlit("");
            assert(""@ =~= Seq::<char>::empty());
            assert(before@ == rsplit_slash(v.resource_id).0);
            assert(last@ == rsplit_slash(v.resource_id).1);
        }
        let mut s = String::new();
        s.append("https://");
        s.append(rg);
        s.append(".");
        s.append(d);
        s.append("/ecs/v2/clusters/");
        s.append(before);
        s.append("/tasks/");
        s.append(last);
        s.append("?region=");
        s.append(rg);
        proof {
            assert(s@ =~= "https://"@ + v.region + "."@ + d@ + "/ecs/v2/clusters/"@ + rsplit_slash(
                v.resource_id,
            ).0 + "/tasks/"@ + rsplit_slash(v.resource_id).1 + "?region="@ + v.region);
        }
        Some(s)
    } else if str_eq(rt, "task-definition") {
        let d = match domain_of(p) {
            Some(d) => d,
            None => {
                return None;
            },
        };
        let mut s = String::new();
        s.append("https://");
        s.append(rg);
        s.append(".");
        s.append(d);
        s.append("/ecs/v2/task-definitions/");
        s.append(id);
        s.append("/");
        s.append(rv);
        s.append("?region=");
        s.append(rg);
        proof {
            assert(s@ =~= "https://"@ + v.region + "."@ + d@ + "/ecs/v2/task-definitions/"@
                + v.resource_id + "/"@ + v.resource_revision + "?region="@ + v.region);
        }
        Some(s)
    } else {
        None
    }
}

// ---------------------------------------------------------------------------
// Amazon Elastic Kubernetes Service
// ---------------------------------------------------------------------------

pub open spec fn link_eks_spec(v: ArnView) -> Option<Seq<char>> {
    match domain_spec(v.partition) {
        Some(d) => if v.resource_type == "cluster"@ {
            Some("https://"@ + d + "/eks/home?region="@ + v.region + "#/clusters/"@
                + v.resource_id)
        } else if v.resource_type == "nodegroup"@ {
            match find_ch(v.resource_id, '/') {
                Some(i) => Some(
                    "https://"@ + d + "/eks/home?region="@ + v.region + "#/clusters/"@
                        + v.resource_id.take(i) + "/nodegroups/"@ + (match find_ch(
                        v.resource_id.skip(i + 1),
                        '/',
                    ) {
                        Some(j) => v.resource_id.skip(i + 1).take(j),
                        None => v.resource_id.skip(i + 1),
                    }),
                ),
                None => None,
            }
        } else {
            None
        },
        None => None,
    }
}

fn link_eks(p: &str, svc: &str, rg: &str, ac: &str, rt: &str, id: &str, rv: &str, hp: bool) -> (r:
    Option<String>)
    ensures
        opt_str_view(r) == link_eks_spec(view_of(p@, svc@, rg@, ac@, rt@, id@, rv@, hp)),
{
    let ghost v = view_of(p@, svc@, rg@, ac@, rt@, id@, rv@, hp);
    if str_eq(rt, "cluster") {
        let d = match domain_of(p) {
            Some(d) => d,
            None => {
                return None;
            },
        };
        let mut s = String::new();
        s.append("https://");
        s.append(d);
        s.append("/eks/home?region=");
        s.append(rg);
        s.append("#/clusters/");
        s.append(id);
        proof {
            assert(s@ =~= "https://"@ + d@ + "/eks/home?region="@ + v.region + "#/clusters/"@
                + v.resource_id);
        }
        Some(s)
    } else if str_eq(rt, "nodegroup") {
        let d = match domain_of(p) {
            Some(d) => d,
            None => {
                return None;
            },
        };
        // The id's first slash-delimited segment names the cluster, the
        // second names the node group.
        let n = id.unicode_len();
        let i = match exec_find_ch(id, '/') {
            Some(i) => i,
            None => {
                return None;
            },
        };
        let cluster = id.substring_char(0, i);
        let rest = id.substring_char(i + 1, n);
        let nr = rest.unicode_len();
        let node = match exec_find_ch(rest, '/') {
            Some(j) => rest.substring_char(0, j),
            None => rest,
        };
        proof {
            assert(rest@ =~= v.resource_id.skip(i + 1));
        }
        let mut s = String::new();
        s.append("https://");
        s.append(d);
        s.append("/eks/home?region=");
        s.append(rg);
        s.append("#/clusters/");
        s.append(cluster);
        s.append("/nodegroups/");
        s.append(node);
        proof {
            assert(s@ =~= "https://"@ + d@ + "/eks/home?region="@ + v.region + "#/clusters/"@
                + v.resource_id.take(i as int) + "/nodegroups/"@ + (match find_ch(
                v.resource_id.skip(i + 1),
                '/',
            ) {
                Some(j) => v.resource_id.skip(i + 1).take(j),
                None => v.resource_id.skip(i + 1),
            }));
        }
        Some(s)
    } else {
        None
    }
}

// ---------------------------------------------------------------------------
// Elastic Load Balancing
// ---------------------------------------------------------------------------

pub open spec fn link_elasticloadbalancing_spec(v: ArnView) -> Option<Seq<char>> {
    if v.resource_type == "loadbalancer"@ {
        match domain_spec(v.partition) {
            Some(d) => Some(
                "https://"@ + v.region + "."@ + d + "/ec2/home?region="@ + v.region
                    + "#LoadBalancer:loadBalancerArn="@ + build_spec(v),
            ),
            None => None,
        }
    } else {
        None
    }
}

fn link_elasticloadbalancing(p: &str, svc: &str, rg: &str, ac: &str, rt: &str, id: &str, rv: &str, hp: bool) -> (r:
    Option<String>)
    ensures
        opt_str_view(r) == link_elasticloadbalancing_spec(
            view_of(p@, svc@, rg@, ac@, rt@, id@, rv@, hp),
        ),
{
    if str_eq(rt, "loadbalancer") {
        let d = match domain_of(p) {
            Some(d) => d,
            None => {
                return None;
            },
        };
        let built = build_of(p, svc, rg, ac, rt, id, rv, hp);
        Some(
            url_region_host(
                rg,
                d,
                "/ec2/home?region=",
                "#LoadBalancer:loadBalancerArn=",
                built.as_str(),
            ),
        )
    } else {
        None
    }
}

// ---------------------------------------------------------------------------
// AWS Lambda
// ---------------------------------------------------------------------------

/// The layer name and version of a layer resource id: the id cut at its
/// first colon, with `1` for a missing or empty version.
pub open spec fn layer_parts(id: Seq<char>) -> (Seq<char>, Seq<char>) {
    match find_ch(id, ':') {
        Some(i) => if id.skip(i + 1).len() == 0 {
            (id.take(i), "1"@)
        } else {
            (id.take(i), id.skip(i + 1))
        },
        None => (id, "1"@),
    }
}

pub open spec fn link_lambda_spec(v: ArnView) -> Option<Seq<char>> {
    match domain_spec(v.partition) {
        Some(d) => if v.resource_type == "function"@ {
            Some(
                "https://"@ + v.region + "."@ + d + "/lambda/home?region="@ + v.region
                    + "#/functions/"@ + v.resource_id,
            )
        } else if v.resource_type == "layer"@ {
            Some(
                "https://"@ + v.region + "."@ + d + "/lambda/home?region="@ + v.region
                    + "#/layers/"@ + layer_parts(v.resource_id).0 + "/versions/"@ + layer_parts(
                    v.resource_id,
                ).1,
            )
        } else {
            None
        },
        None => None,
    }
}

fn link_lambda(p: &str, svc: &str, rg: &str, ac: &str, rt: &str, id: &str, rv: &str, hp: bool) -> (r:
    Option<String>)
    ensures
        opt_str_view(r) == link_lambda_spec(view_of(p@, svc@, rg@, ac@, rt@, id@, rv@, hp)),
{
    let ghost v = view_of(p@, svc@, rg@, ac@, rt@, id@, rv@, hp);
    if str_eq(rt, "function") {
        let d = match domain_of(p) {
            Some(d) => d,
            None => {
                return None;
            },
        };
        Some(url_region_host(rg, d, "/lambda/home?region=", "#/functions/", id))
    } else if str_eq(rt, "layer") {
        let d = match domain_of(p) {
            Some(d) => d,
            None => {
                return None;
            },
        };
        let n = id.unicode_len();
        let (q0, q1): (&str, &str) = match exec_find_ch(id, ':') {
            Some(i) => {
                let b = id.substring_char(i + 1, n);
                if b.is_empty() {
                    (id.substring_char(0, i), "1")
                } else {
                    (id.substring_char(0, i), b)
                }
            },
            None => (id, "1"),
        };
        proof {
            assert(q0@ == layer_parts(v.resource_id).0);
            assert(q1@ == layer_parts(v.resource_id).1);
        }
        let mut s = String::new();
        s.append("https://");
        s.append(rg);
        s.append(".");
        s.append(d);
        s.append("/lambda/home?region=");
        s.append(rg);
        s.append("#/layers/");
        s.append(q0);
        s.append("/versions/");
        s.append(q1);
        proof {
            assert(s@ =~= "https://"@ + v.region + "."@ + d@ + "/lambda/home?region="@ + v.region
                + "#/layers/"@ + layer_parts(v.resource_id).0 + "/versions/"@ + layer_parts(
                v.resource_id,
            ).1);
        }
        Some(s)
    } else {
        None
    }
}

// ---------------------------------------------------------------------------
// Amazon CloudWatch Logs
// ---------------------------------------------------------------------------

pub open spec fn link_logs_spec(v: ArnView) -> Option<Seq<char>> {
    if v.resource_type == "log-group"@ {
        match domain_spec(v.partition) {
            Some(d) => if v.resource_id.len() >= 2 && v.resource_id[v.resource_id.len() - 2] == ':'
                && v.resource_id[v.resource_id.len() - 1] == '*' {
                Some(
                    "https://"@ + v.region + "."@ + d + "/cloudwatch/home?region="@ + v.region
                        + "#logsV2:log-groups/log-group/"@ + escape_log_group(
                        v.resource_id.take(v.resource_id.len() - 2),
                    ),
                )
            } else {
                None
            },
            None => None,
        }
    } else {
        None
    }
}

fn link_logs(p: &str, svc: &str, rg: &str, ac: &str, rt: &str, id: &str, rv: &str, hp: bool) -> (r:
    Option<String>)
    ensures
        opt_str_view(r) == link_logs_spec(view_of(p@, svc@, rg@, ac@, rt@, id@, rv@, hp)),
{
    let ghost v = view_of(p@, svc@, rg@, ac@, rt@, id@, rv@, hp);
    if str_eq(rt, "log-group") {
        let d = match domain_of(p) {
            Some(d) => d,
            None => {
                return None;
            },
        };
        // The rule fires only for an id with the `:*` suffix, which is
        // stripped, and the rest is escaped for the URL fragment.
        let n = id.unicode_len();
        if n >= 2 && id.get_char(n - 2) == ':' && id.get_char(n - 1) == '*' {
            let escaped = exec_escape_log_group(id.substring_char(0, n - 2));
            proof {
                assert(v.resource_id.subrange(0, n - 2) =~= v.resource_id.take(
                    v.resource_id.len() - 2,
                ));
            }
            let mut s = String::new();
            s.append("https://");
            s.append(rg);
            s.append(".");
            s.append(d);
            s.append("/cloudwatch/home?region=");
            s.append(rg);
            s.append("#logsV2:log-groups/log-group/");
            s.append(escaped.as_str());
            proof {
                assert(s@ =~= "https://"@ + v.region + "."@ + d@ + "/cloudwatch/home?region="@
                    + v.region + "#logsV2:log-groups/log-group/"@ + escape_log_group(
                    v.resource_id.take(v.resource_id.len() - 2),
                ));
            }
            Some(s)
        } else {
            None
        }
    } else {
        None
    }
}

// ---------------------------------------------------------------------------
// AWS Secrets Manager
// ---------------------------------------------------------------------------

pub open spec fn link_secretsmanager_spec(v: ArnView) -> Option<Seq<char>> {
    if v.resource_type == "secret"@ {
        match find_last_ch(v.resource_id, '-') {
            Some(i) => if v.resource_id.len() - (i + 1) == 6 {
                match domain_spec(v.partition) {
                    Some(d) => Some(
                        "https://"@ + v.region + "."@ + d + "/"@ + v.service + "/secret?name="@
                            + v.resource_id.take(i),
                    ),
                    None => None,
                }
            } else {
                None
            },
            None => None,
        }
    } else {
        None
    }
}

fn link_secretsmanager(p: &str, svc: &str, rg: &str, ac: &str, rt: &str, id: &str, rv: &str, hp: bool) -> (r:
    Option<String>)
    ensures
        opt_str_view(r) == link_secretsmanager_spec(view_of(p@, svc@, rg@, ac@, rt@, id@, rv@, hp)),
{
    let ghost v = view_of(p@, svc@, rg@, ac@, rt@, id@, rv@, hp);
    if str_eq(rt, "secret") {
        // The name is the id without its trailing `-XXXXXX`: a hyphen and
        // exactly six characters. Any other shape has no link.
        let n = id.unicode_len();
        let i = match exec_find_last_ch(id, '-') {
            Some(i) => i,
            None => {
                return None;
            },
        };
        if n - (i + 1) != 6 {
            return None;
        }
        let d = match domain_of(p) {
            Some(d) => d,
            None => {
                return None;
            },
        };
        let name = id.substring_char(0, i);
        let mut s = String::new();
        s.append("https://");
        s.append(rg);
        s.append(".");
        s.append(d);
        s.append("/");
        s.append(svc);
        s.append("/secret?name=");
        s.append(name);
        proof {
            assert(s@ =~= "https://"@ + v.region + "."@ + d@ + "/"@ + v.service + "/secret?name="@
                + v.resource_id.take(i as int));
        }
        Some(s)
    } else {
        None
    }
}

// ---------------------------------------------------------------------------
// AWS WAF V2
// ---------------------------------------------------------------------------

pub open spec fn link_wafv2_spec(v: ArnView) -> Option<Seq<char>> {
    match domain_spec(v.partition) {
        Some(d) => if v.resource_type == "global"@ {
            Some(
                "https://"@ + d + "/wafv2/homev2/web-acl/"@ + remove_all_sub(
                    v.resource_id,
                    "webacl/"@,
                ) + "/overview?region=global"@,
            )
        } else if v.resource_type == "regional"@ {
            Some(
                "https://"@ + d + "/wafv2/homev2/web-acl/"@ + remove_all_sub(
                    v.resource_id,
                    "webacl/"@,
                ) + "/overview?region="@ + v.region,
            )
        } else {
            None
        },
        None => None,
    }
}

fn link_wafv2(p: &str, svc: &str, rg: &str, ac: &str, rt: &str, id: &str, rv: &str, hp: bool) -> (r:
    Option<String>)
    ensures
        opt_str_view(r) == link_wafv2_spec(view_of(p@, svc@, rg@, ac@, rt@, id@, rv@, hp)),
{
    let ghost v = view_of(p@, svc@, rg@, ac@, rt@, id@, rv@, hp);
    if str_eq(rt, "global") {
        let d = match domain_of(p) {
            Some(d) => d,
            None => {
                return None;
            },
        };
        let cleaned = exec_remove_all_sub(id, "webacl/");
        let mut s = String::new();
        s.append("https://");
        s.append(d);
        s.append("/wafv2/homev2/web-acl/");
        s.append(cleaned.as_str());
        s.append("/overview?region=global");
        proof {
            assert(s@ =~= "https://"@ + d@ + "/wafv2/homev2/web-acl/"@ + remove_all_sub(
                v.resource_id,
                "webacl/"@,
            ) + "/overview?region=global"@);
        }
        Some(s)
    } else if str_eq(rt, "regional") {
        let d = match domain_of(p) {
            Some(d) => d,
            None => {
                return None;
            },
        };
        let cleaned = exec_remove_all_sub(id, "webacl/");
        let mut s = String::new();
        s.append("https://");
        s.append(d);
        s.append("/wafv2/homev2/web-acl/");
        s.append(cleaned.as_str());
        s.append("/overview?region=");
        s.append(rg);
        proof {
            assert(s@ =~= "https://"@ + d@ + "/wafv2/homev2/web-acl/"@ + remove_all_sub(
                v.resource_id,
                "webacl/"@,
            ) + "/overview?region="@ + v.region);
        }
        Some(s)
    } else {
        None
    }
}

// ---------------------------------------------------------------------------
// The dispatch itself
// ---------------------------------------------------------------------------

/// The console link for a set of ARN parts, or `None` when no rule matches
/// the service and resource type, or when a matching rule's own
/// sub-condition fails (an unknown partition, a resource id without the
/// shape the rule needs).
pub open spec fn link_spec(v: ArnView) -> Option<Seq<char>> {
    if v.service == "access-analyzer"@ {
        link_access_analyzer_spec(v)
    } else if v.service == "acm"@ {
        link_acm_spec(v)
    } else if v.service == "amplify"@ {
        link_amplify_spec(v)
    } else if v.service == "apigateway"@ {
        link_apigateway_spec(v)
    } else if v.service == "autoscaling"@ {
        link_autoscaling_spec(v)
    } else if v.service == "backup"@ {
        link_backup_spec(v)
    } else if v.service == "cloudfront"@ {
        link_cloudfront_spec(v)
    } else if v.service == "codeconnections"@ {
        link_code_connection_spec(v)
    } else if v.service == "codepipeline"@ {
        link_codepipeline_spec(v)
    } else if v.service == "codestar-connections"@ {
        link_code_connection_spec(v)
    } else if v.service == "dynamodb"@ {
        link_dynamodb_spec(v)
    } else if v.service == "ec2"@ {
        link_ec2_spec(v)
    } else if v.service == "ecs"@ {
        link_ecs_spec(v)
    } else if v.service == "eks"@ {
        link_eks_spec(v)
    } else if v.service == "elasticloadbalancing"@ {
        link_elasticloadbalancing_spec(v)
    } else if v.service == "firehose"@ {
        link_firehose_spec(v)
    } else if v.service == "iam"@ {
        link_iam_spec(v)
    } else if v.service == "kms"@ {
        link_kms_spec(v)
    } else if v.service == "lambda"@ {
        link_lambda_spec(v)
    } else if v.service == "logs"@ {
        link_logs_spec(v)
    } else if v.service == "medialive"@ {
        link_medialive_spec(v)
    } else if v.service == "rds"@ {
        link_rds_spec(v)
    } else if v.service == "route53"@ {
        link_route53_spec(v)
    } else if v.service == "s3"@ {
        link_s3_spec(v)
    } else if v.service == "secretsmanager"@ {
        link_secretsmanager_spec(v)
    } else if v.service == "sns"@ {
        link_sns_spec(v)
    } else if v.service == "sqs"@ {
        link_sqs_spec(v)
    } else if v.service == "states"@ {
        link_states_spec(v)
    } else if v.service == "wafv2"@ {
        link_wafv2_spec(v)
    } else {
        None
    }
}

/// Looks up the (service, resource type) pair and formats the matching
/// rule's URL from the eight parts.
pub fn link_of(p: &str, svc: &str, rg: &str, ac: &str, rt: &str, id: &str, rv: &str, hp: bool) -> (r:
    Option<String>)
    ensures
        opt_str_view(r) == link_spec(view_of(p@, svc@, rg@, ac@, rt@, id@, rv@, hp)),
{
    if str_eq(svc, "access-analyzer") {
        link_access_analyzer(p, svc, rg, ac, rt, id, rv, hp)
    } else if str_eq(svc, "acm") {
        link_acm(p, svc, rg, ac, rt, id, rv, hp)
    } else if str_eq(svc, "amplify") {
        link_amplify(p, svc, rg, ac, rt, id, rv, hp)
    } else if str_eq(svc, "apigateway") {
        link_apigateway(p, svc, rg, ac, rt, id, rv, hp)
    } else if str_eq(svc, "autoscaling") {
        link_autoscaling(p, svc, rg, ac, rt, id, rv, hp)
    } else if str_eq(svc, "backup") {
        link_backup(p, svc, rg, ac, rt, id, rv, hp)
    } else if str_eq(svc, "cloudfront") {
        link_cloudfront(p, svc, rg, ac, rt, id, rv, hp)
    } else if str_eq(svc, "codeconnections") {
        link_code_connection(p, svc, rg, ac, rt, id, rv, hp)
    } else if str_eq(svc, "codepipeline") {
        link_codepipeline(p, svc, rg, ac, rt, id, rv, hp)
    } else if str_eq(svc, "codestar-connections") {
        link_code_connection(p, svc, rg, ac, rt, id, rv, hp)
    } else if str_eq(svc, "dynamodb") {
        link_dynamodb(p, svc, rg, ac, rt, id, rv, hp)
    } else if str_eq(svc, "ec2") {
        link_ec2(p, svc, rg, ac, rt, id, rv, hp)
    } else if str_eq(svc, "ecs") {
        link_ecs(p, svc, rg, ac, rt, id, rv, hp)
    } else if str_eq(svc, "eks") {
        link_eks(p, svc, rg, ac, rt, id, rv, hp)
    } else if str_eq(svc, "elasticloadbalancing") {
        link_elasticloadbalancing(p, svc, rg, ac, rt, id, rv, hp)
    } else if str_eq(svc, "firehose") {
        link_firehose(p, svc, rg, ac, rt, id, rv, hp)
    } else if str_eq(svc, "iam") {
        link_iam(p, svc, rg, ac, rt, id, rv, hp)
    } else if str_eq(svc, "kms") {
        link_kms(p, svc, rg, ac, rt, id, rv, hp)
    } else if str_eq(svc, "lambda") {
        link_lambda(p, svc, rg, ac, rt, id, rv, hp)
    } else if str_eq(svc, "logs") {
        link_logs(p, svc, rg, ac, rt, id, rv, hp)
    } else if str_eq(svc, "medialive") {
        link_medialive(p, svc, rg, ac, rt, id, rv, hp)
    } else if str_eq(svc, "rds") {
        link_rds(p, svc, rg, ac, rt, id, rv, hp)
    } else if str_eq(svc, "route53") {
        link_route53(p, svc, rg, ac, rt, id, rv, hp)
    } else if str_eq(svc, "s3") {
        link_s3(p, svc, rg, ac, rt, id, rv, hp)
    } else if str_eq(svc, "secretsmanager") {
        link_secretsmanager(p, svc, rg, ac, rt, id, rv, hp)
    } else if str_eq(svc, "sns") {
        link_sns(p, svc, rg, ac, rt, id, rv, hp)
    } else if str_eq(svc, "sqs") {
        link_sqs(p, svc, rg, ac, rt, id, rv, hp)
    } else if str_eq(svc, "states") {
        link_states(p, svc, rg, ac, rt, id, rv, hp)
    } else if str_eq(svc, "wafv2") {
        link_wafv2(p, svc, rg, ac, rt, id, rv, hp)
    } else {
        None
    }
}

} // verus!
