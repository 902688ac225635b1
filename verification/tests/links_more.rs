//! One exact expected URL for each remaining entry of the dispatch table.

use link2aws::{Arn, ArnParts};

fn link_of(arn: &str) -> Option<String> {
    Arn::new(arn).unwrap().link()
}

#[test]
fn access_analyzer_link() {
    assert_eq!(
        link_of("arn:aws:access-analyzer:us-east-1:123:analyzer/my-analyzer").unwrap(),
        "https://us-east-1.console.aws.amazon.com/access-analyzer/home?region=us-east-1#/analyzer/my-analyzer"
    );
}

#[test]
fn acm_certificate_link() {
    assert_eq!(
        link_of("arn:aws:acm:us-east-1:123:certificate/cert-id").unwrap(),
        "https://console.aws.amazon.com/acm/home?region=us-east-1#/?id=cert-id"
    );
}

#[test]
fn backup_vault_link() {
    assert_eq!(
        link_of("arn:aws:backup:us-east-1:123:backup-vault:my-vault").unwrap(),
        "https://console.aws.amazon.com/backup/home?region=us-east-1#/backupvaults/details/my-vault"
    );
}

#[test]
fn cloudfront_distribution_link() {
    assert_eq!(
        link_of("arn:aws:cloudfront::123:distribution/E123ABC").unwrap(),
        "https://console.aws.amazon.com/cloudfront/v4/home#/distributions/E123ABC"
    );
}

#[test]
fn code_connection_links() {
    assert_eq!(
        link_of("arn:aws:codeconnections:us-east-1:123:connection/uuid-1").unwrap(),
        "https://us-east-1.console.aws.amazon.com/codesuite/settings/123/us-east-1/codeconnections/connections/uuid-1"
    );
    assert_eq!(
        link_of("arn:aws:codestar-connections:us-east-1:123:connection/uuid-1").unwrap(),
        "https://us-east-1.console.aws.amazon.com/codesuite/settings/123/us-east-1/codestar-connections/connections/uuid-1"
    );
}

#[test]
fn codepipeline_link() {
    assert_eq!(
        link_of("arn:aws:codepipeline:us-east-1:123:my-pipeline").unwrap(),
        "https://us-east-1.console.aws.amazon.com/codesuite/codepipeline/pipelines/my-pipeline/view?region=us-east-1"
    );
}

#[test]
fn dynamodb_table_link() {
    assert_eq!(
        link_of("arn:aws:dynamodb:us-east-1:123:table/MyTable").unwrap(),
        "https://us-east-1.console.aws.amazon.com/dynamodbv2/home?region=us-east-1#table?name=MyTable"
    );
}

#[test]
fn ec2_image_and_template_links() {
    assert_eq!(
        link_of("arn:aws:ec2:us-east-1::image/ami-123").unwrap(),
        "https://us-east-1.console.aws.amazon.com/ec2/home?region=us-east-1#ImageDetails:imageId=ami-123"
    );
    assert_eq!(
        link_of("arn:aws:ec2:us-east-1:123:launch-template/lt-1").unwrap(),
        "https://us-east-1.console.aws.amazon.com/ec2/home?region=us-east-1#LaunchTemplateDetails:launchTemplateId=lt-1"
    );
}

#[test]
fn ec2_storage_links() {
    assert_eq!(
        link_of("arn:aws:ec2:us-east-1:123:volume/vol-1").unwrap(),
        "https://us-east-1.console.aws.amazon.com/ec2/home?region=us-east-1#VolumeDetails:volumeId=vol-1"
    );
    assert_eq!(
        link_of("arn:aws:ec2:us-east-1:123:snapshot/snap-1").unwrap(),
        "https://us-east-1.console.aws.amazon.com/ec2/home?region=us-east-1#SnapshotDetails:snapshotId=snap-1"
    );
}

#[test]
fn ec2_network_links() {
    assert_eq!(
        link_of("arn:aws:ec2:us-east-1:123:security-group/sg-1").unwrap(),
        "https://us-east-1.console.aws.amazon.com/vpc/home?region=us-east-1#SecurityGroup:groupId=sg-1"
    );
    assert_eq!(
        link_of("arn:aws:ec2:us-east-1:123:subnet/subnet-1").unwrap(),
        "https://us-east-1.console.aws.amazon.com/vpc/home?region=us-east-1#SubnetDetails:subnetId=subnet-1"
    );
    assert_eq!(
        link_of("arn:aws:ec2:us-east-1:123:vpc/vpc-1").unwrap(),
        "https://us-east-1.console.aws.amazon.com/vpc/home?region=us-east-1#VpcDetails:VpcId=vpc-1"
    );
    assert_eq!(
        link_of("arn:aws:ec2:us-east-1:123:natgateway/nat-1").unwrap(),
        "https://us-east-1.console.aws.amazon.com/vpcconsole/home?region=us-east-1#NatGatewayDetails:natGatewayId=nat-1"
    );
    assert_eq!(
        link_of("arn:aws:ec2:us-east-1:123:vpc-endpoint/vpce-1").unwrap(),
        "https://us-east-1.console.aws.amazon.com/vpcconsole/home?region=us-east-1#EndpointDetails:vpcEndpointId=vpce-1"
    );
}

#[test]
fn ecs_cluster_link() {
    assert_eq!(
        link_of("arn:aws:ecs:us-east-1:123:cluster/my-cluster").unwrap(),
        "https://us-east-1.console.aws.amazon.com/ecs/v2/clusters/my-cluster?region=us-east-1"
    );
}

#[test]
fn eks_cluster_link() {
    assert_eq!(
        link_of("arn:aws:eks:us-east-1:123:cluster/my-cluster").unwrap(),
        "https://console.aws.amazon.com/eks/home?region=us-east-1#/clusters/my-cluster"
    );
}

#[test]
fn elasticloadbalancing_link_embeds_the_arn() {
    assert_eq!(
        link_of("arn:aws:elasticloadbalancing:us-east-1:123:loadbalancer/app/my-lb/50dc6c").unwrap(),
        "https://us-east-1.console.aws.amazon.com/ec2/home?region=us-east-1#LoadBalancer:loadBalancerArn=arn:aws:elasticloadbalancing:us-east-1:123:loadbalancer/app/my-lb/50dc6c"
    );
}

#[test]
fn firehose_link() {
    assert_eq!(
        link_of("arn:aws:firehose:us-east-1:123:deliverystream/my-stream").unwrap(),
        "https://console.aws.amazon.com/firehose/home?region=us-east-1#/details/my-stream/monitoring"
    );
}

#[test]
fn iam_group_uses_last_path_component() {
    assert_eq!(
        link_of("arn:aws:iam::123:group/admins").unwrap(),
        "https://console.aws.amazon.com/iamv2/home#/groups/details/admins"
    );
    assert_eq!(
        link_of("arn:aws:iam::123:group/division/admins").unwrap(),
        "https://console.aws.amazon.com/iamv2/home#/groups/details/admins"
    );
}

#[test]
fn iam_oidc_provider_link() {
    assert_eq!(
        link_of("arn:aws:iam::123:oidc-provider/example.org").unwrap(),
        "https://console.aws.amazon.com/iam/home?#/providers/arn:aws:iam::123:oidc-provider/example.org"
    );
}

#[test]
fn kms_key_link() {
    assert_eq!(
        link_of("arn:aws:kms:us-east-1:123:key/key-id").unwrap(),
        "https://console.aws.amazon.com/kms/home?region=us-east-1#/kms/keys/key-id"
    );
}

#[test]
fn medialive_channel_link() {
    assert_eq!(
        link_of("arn:aws:medialive:us-east-1:123:channel:123456").unwrap(),
        "https://us-east-1.console.aws.amazon.com/medialive/home?region=us-east-1#/channels/123456"
    );
}

#[test]
fn rds_links() {
    assert_eq!(
        link_of("arn:aws:rds:us-east-1:123:cluster:my-cluster").unwrap(),
        "https://console.aws.amazon.com/rds/home?region=us-east-1#database:id=my-cluster;is-cluster=true"
    );
    assert_eq!(
        link_of("arn:aws:rds:us-east-1:123:db:mydb").unwrap(),
        "https://console.aws.amazon.com/rds/home?region=us-east-1#database:id=mydb"
    );
    assert_eq!(
        link_of("arn:aws:rds:us-east-1:123:og:myog").unwrap(),
        "https://console.aws.amazon.com/rds/home?region=us-east-1#option-group-details:option-group-name=myog"
    );
    assert_eq!(
        link_of("arn:aws:rds:us-east-1:123:subgrp:mygrp").unwrap(),
        "https://console.aws.amazon.com/rds/home?region=us-east-1#db-subnet-group:id=mygrp"
    );
}

#[test]
fn route53_links() {
    assert_eq!(
        link_of("arn:aws:route53:::healthcheck/hc-id").unwrap(),
        "https://console.aws.amazon.com/route53/healthchecks/home"
    );
    assert_eq!(
        link_of("arn:aws:route53:::hostedzone/Z123").unwrap(),
        "https://console.aws.amazon.com/route53/home?#resource-record-sets:Z123"
    );
    assert_eq!(
        link_of("arn:aws:route53:::trafficpolicy/tp-1").unwrap(),
        "https://console.aws.amazon.com/route53/trafficflow/home#/policy/tp-1"
    );
    assert_eq!(
        link_of("arn:aws:route53:::trafficpolicyinstance/tpi-1").unwrap(),
        "https://console.aws.amazon.com/route53/trafficflow/home#/modify-records/edit/tpi-1"
    );
}

#[test]
fn states_execution_link_embeds_the_arn() {
    assert_eq!(
        link_of("arn:aws:states:us-east-1:123:execution:my-sm:run-1").unwrap(),
        "https://us-east-1.console.aws.amazon.com/states/home?region=us-east-1#/v2/executions/details/arn:aws:states:us-east-1:123:execution:my-sm:run-1"
    );
}
