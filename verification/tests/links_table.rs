//! The dispatch table: one exact expected URL per rule family, and the
//! per-rule sub-conditions that withhold a link.

use link2aws::{Arn, ArnParts};

fn link_of(arn: &str) -> Option<String> {
    Arn::new(arn).unwrap().link()
}

#[test]
fn s3_bucket_link() {
    assert_eq!(
        link_of("arn:aws:s3:::abc123").unwrap(),
        "https://s3.console.aws.amazon.com/s3/buckets/abc123"
    );
}

#[test]
fn partition_domains() {
    assert_eq!(
        link_of("arn:aws-cn:s3:::bucket").unwrap(),
        "https://s3.console.amazonaws.cn/s3/buckets/bucket"
    );
    assert_eq!(
        link_of("arn:aws-us-gov:s3:::bucket").unwrap(),
        "https://s3.console.amazonaws-us-gov.com/s3/buckets/bucket"
    );
    // An unknown partition has no console host, hence no link.
    assert!(link_of("arn:aws-iso:s3:::bucket").is_none());
}

#[test]
fn rds_snapshot_link() {
    assert_eq!(
        link_of("arn:aws:rds:us-east-1:12345:snapshot:rds:db").unwrap(),
        "https://console.aws.amazon.com/rds/home?region=us-east-1#db-snapshot:id=rds:db"
    );
}

#[test]
fn ec2_instance_link() {
    assert_eq!(
        link_of("arn:aws:ec2:us-east-1:123:instance/i-0123456789").unwrap(),
        "https://us-east-1.console.aws.amazon.com/ec2/home?region=us-east-1#InstanceDetails:instanceId=i-0123456789"
    );
}

#[test]
fn ecs_task_splits_on_last_slash() {
    // A two-level id splits on its last slash only: everything before it
    // is the cluster path, the rest the task id.
    assert_eq!(
        link_of("arn:aws:ecs:us-east-1:123:task/cluster-name/task-id").unwrap(),
        "https://us-east-1.console.aws.amazon.com/ecs/v2/clusters/cluster-name/tasks/task-id?region=us-east-1"
    );
    assert_eq!(
        link_of("arn:aws:ecs:us-east-1:123:task/a/b/task-id").unwrap(),
        "https://us-east-1.console.aws.amazon.com/ecs/v2/clusters/a/b/tasks/task-id?region=us-east-1"
    );
}

#[test]
fn ecs_service_and_task_definition_links() {
    assert_eq!(
        link_of("arn:aws:ecs:us-east-1:123:service/my-cluster/my-svc").unwrap(),
        "https://us-east-1.console.aws.amazon.com/ecs/v2/clusters/my-cluster/services/my-svc?region=us-east-1"
    );
    assert_eq!(
        link_of("arn:aws:ecs:us-east-1:123:task-definition/my-task:7").unwrap(),
        "https://us-east-1.console.aws.amazon.com/ecs/v2/task-definitions/my-task/7?region=us-east-1"
    );
}

#[test]
fn amplify_job_trims_leading_zeros() {
    assert_eq!(
        link_of("arn:aws:amplify:us-east-1:123:apps/d123/branches/main/jobs/0000000042").unwrap(),
        "https://us-east-1.console.aws.amazon.com/amplify/home?region=us-east-1#/d123/main/42"
    );
    // Without the /jobs/ segment there is no link.
    assert!(link_of("arn:aws:amplify:us-east-1:123:apps/d123/branches/main").is_none());
}

#[test]
fn autoscaling_group_name_after_first_slash() {
    assert_eq!(
        link_of(
            "arn:aws:autoscaling:us-east-1:123:autoScalingGroup:uuid:autoScalingGroupName/my-asg"
        )
        .unwrap(),
        "https://us-east-1.console.aws.amazon.com/ec2/home?region=us-east-1#AutoScalingGroupDetails:id=my-asg;view=details"
    );
}

#[test]
fn logs_log_group_escapes_the_name() {
    // The :* suffix is stripped, then slashes, colons and hash signs are
    // escaped for the URL fragment.
    assert_eq!(
        link_of("arn:aws:logs:us-east-1:123:log-group:/aws/lambda/my-fn:*").unwrap(),
        "https://us-east-1.console.aws.amazon.com/cloudwatch/home?region=us-east-1#logsV2:log-groups/log-group/$252Faws$252Flambda$252Fmy-fn"
    );
    // Without the :* suffix there is no link.
    assert!(link_of("arn:aws:logs:us-east-1:123:log-group:/aws/lambda/my-fn").is_none());
}

#[test]
fn lambda_links() {
    assert_eq!(
        link_of("arn:aws:lambda:us-east-1:123:function:my-fn").unwrap(),
        "https://us-east-1.console.aws.amazon.com/lambda/home?region=us-east-1#/functions/my-fn"
    );
    // A layer with an explicit version.
    assert_eq!(
        link_of("arn:aws:lambda:us-east-1:123:layer:my-layer:3").unwrap(),
        "https://us-east-1.console.aws.amazon.com/lambda/home?region=us-east-1#/layers/my-layer/versions/3"
    );
    // A layer without a version defaults to version 1.
    assert_eq!(
        link_of("arn:aws:lambda:us-east-1:123:layer:my-layer").unwrap(),
        "https://us-east-1.console.aws.amazon.com/lambda/home?region=us-east-1#/layers/my-layer/versions/1"
    );
}

#[test]
fn secretsmanager_requires_six_character_suffix() {
    assert_eq!(
        link_of("arn:aws:secretsmanager:us-east-1:123:secret:mysecret-AbCdEf").unwrap(),
        "https://us-east-1.console.aws.amazon.com/secretsmanager/secret?name=mysecret"
    );
    // A suffix of any other length means no link.
    assert!(link_of("arn:aws:secretsmanager:us-east-1:123:secret:mysecret-abc").is_none());
    assert!(link_of("arn:aws:secretsmanager:us-east-1:123:secret:mysecret").is_none());
}

#[test]
fn wafv2_strips_webacl_segments() {
    assert_eq!(
        link_of("arn:aws:wafv2:us-east-1:123:global/webacl/my-acl/abc-id").unwrap(),
        "https://console.aws.amazon.com/wafv2/homev2/web-acl/my-acl/abc-id/overview?region=global"
    );
    assert_eq!(
        link_of("arn:aws:wafv2:us-east-1:123:regional/webacl/my-acl/abc-id").unwrap(),
        "https://console.aws.amazon.com/wafv2/homev2/web-acl/my-acl/abc-id/overview?region=us-east-1"
    );
}

#[test]
fn eks_nodegroup_uses_first_two_segments() {
    assert_eq!(
        link_of("arn:aws:eks:us-east-1:123:nodegroup/my-cluster/my-ng/uuid").unwrap(),
        "https://console.aws.amazon.com/eks/home?region=us-east-1#/clusters/my-cluster/nodegroups/my-ng"
    );
    // A nodegroup id without a second segment has no link.
    assert!(link_of("arn:aws:eks:us-east-1:123:nodegroup:bare").is_none());
}

#[test]
fn iam_links() {
    // The role link keeps only the last path component.
    assert_eq!(
        link_of("arn:aws:iam::123:role/service-role/MyRole").unwrap(),
        "https://console.aws.amazon.com/iam/home?#/roles/MyRole"
    );
    // The policy link embeds the whole rebuilt ARN.
    assert_eq!(
        link_of("arn:aws:iam::123:policy/MyPolicy").unwrap(),
        "https://console.aws.amazon.com/iam/home?#/policies/arn:aws:iam::123:policy/MyPolicy"
    );
    assert_eq!(
        link_of("arn:aws:iam::123:user/alice").unwrap(),
        "https://console.aws.amazon.com/iam/home?#/users/alice"
    );
}

#[test]
fn sns_and_sqs_links() {
    assert_eq!(
        link_of("arn:aws:sns:us-east-1:123:mytopic").unwrap(),
        "https://console.aws.amazon.com/sns/v3/home?region=us-east-1#/topic/arn:aws:sns:us-east-1:123:mytopic"
    );
    assert_eq!(
        link_of("arn:aws:sqs:us-east-1:123:myqueue").unwrap(),
        "https://us-east-1.console.aws.amazon.com/sqs/v2/home?region=us-east-1#/queues/https%3A%2F%2Fsqs.us-east-1.amazonaws.com%2F123%2Fmyqueue"
    );
}

#[test]
fn states_links_embed_the_arn() {
    assert_eq!(
        link_of("arn:aws:states:us-east-1:123:stateMachine:my-sm").unwrap(),
        "https://us-east-1.console.aws.amazon.com/states/home?region=us-east-1#/statemachines/view/arn:aws:states:us-east-1:123:stateMachine:my-sm"
    );
}

#[test]
fn apigateway_link() {
    assert_eq!(
        link_of("arn:aws:apigateway:us-east-1::/restapis/api123").unwrap(),
        "https://us-east-1.console.aws.amazon.com/apigateway/main/apis/api123/resources?api=api123&region=us-east-1"
    );
}

#[test]
fn known_service_with_unknown_type_has_no_link() {
    assert!(link_of("arn:aws:ec2:us-east-1:123:fleet/f-1").is_none());
    assert!(link_of("arn:aws:rds:us-east-1:123:pg:mygroup").is_none());
}
