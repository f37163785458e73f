use allowlist_sync::error::CardinalityError;
use allowlist_sync::helpers::{
    get_only_item, ips_for_rule_in_sg, IPRule, IpPermission, IpRange, SecurityGroup,
};

#[test]
fn returns_empty_vec_for_sg_with_none_permissions() {
    let sg = SecurityGroup {
        ip_permissions: None,
        ..Default::default()
    };
    let rule: IPRule = Default::default();
    let ip_vec = ips_for_rule_in_sg(&rule, &sg);
    assert!(ip_vec.is_empty())
}

#[test]
fn returns_empty_vec_for_sg_with_empty_permissions() {
    let sg = SecurityGroup {
        ip_permissions: Some(vec![]),
        ..Default::default()
    };
    let rule: IPRule = Default::default();
    let ip_vec = ips_for_rule_in_sg(&rule, &sg);
    assert!(ip_vec.is_empty())
}

#[test]
fn returns_empty_vec_for_sg_with_different_permissions() {
    let ip_permission = IpPermission {
        from_port: Some(10),
        to_port: Some(10),
        ip_protocol: Some("tcp".into()),
        ..Default::default()
    };
    let sg = SecurityGroup {
        ip_permissions: Some(vec![ip_permission]),
        ..Default::default()
    };
    let rule: IPRule = Default::default();
    let ip_vec = ips_for_rule_in_sg(&rule, &sg);
    assert!(ip_vec.is_empty())
}

#[test]
fn returns_ips_for_sg_with_multiple_ips_and_correct_description() {
    let ip_rule_id = String::from("some description");
    let from_port: i64 = 10;
    let to_port: i64 = 10;
    let ip_protocol = String::from("tcp");

    let ip_vec = vec![String::from("1.1.1.1/32"), String::from("2.2.2.2/32")];

    let ip_ranges = ip_vec
        .iter()
        .map(|ip| IpRange {
            cidr_ip: Some(ip.to_owned()),
            description: Some(ip_rule_id.to_owned()),
        })
        .collect();

    let ip_permission = IpPermission {
        from_port: Some(from_port),
        to_port: Some(to_port),
        ip_protocol: Some(ip_protocol.to_owned()),
        ip_ranges: Some(ip_ranges),
        ..Default::default()
    };
    let sg = SecurityGroup {
        ip_permissions: Some(vec![ip_permission]),
        ..Default::default()
    };
    let rule = IPRule {
        id: ip_rule_id.to_owned(),
        from_port,
        to_port,
        ip_protocol: ip_protocol.to_owned(),
        ..Default::default()
    };
    let res = ips_for_rule_in_sg(&rule, &sg);
    assert_eq!(ip_vec, res)
}

#[test]
fn error_for_none() {
    let item_vec: Option<Vec<i32>> = None;
    let res = get_only_item(&item_vec);
    assert_eq!(res, Err(CardinalityError::NoneFound))
}

#[test]
fn error_for_empty_vec() {
    let item_vec: Option<Vec<i32>> = Some(vec![]);
    let res = get_only_item(&item_vec);
    assert_eq!(res, Err(CardinalityError::NoneFound))
}

#[test]
fn error_for_too_many() {
    let item_vec: Option<Vec<i32>> = Some(vec![1, 2]);
    let res = get_only_item(&item_vec);
    assert_eq!(res, Err(CardinalityError::TooMany))
}

#[test]
fn ok_for_single_element() {
    let item_vec: Option<Vec<i32>> = Some(vec![1]);
    let res = get_only_item(&item_vec);
    assert_eq!(res, Ok(&1))
}

#[test]
fn rule_ips_skip_ranges_of_other_owners_and_ranges_without_prefix() {
    let range = |cidr: Option<&str>, description: Option<&str>| IpRange {
        cidr_ip: cidr.map(String::from),
        description: description.map(String::from),
    };
    let mine = IpPermission {
        from_port: Some(22),
        to_port: Some(22),
        ip_protocol: Some("tcp".into()),
        ip_ranges: Some(vec![
            range(Some("1.1.1.1/32"), Some("home")),
            range(Some("9.9.9.9/32"), Some("office")),
            range(None, Some("home")),
            range(Some("3.3.3.3/32"), None),
            range(Some("2.2.2.2/32"), Some("HOME")),
        ]),
    };
    let other_port = IpPermission {
        from_port: Some(80),
        to_port: Some(80),
        ip_protocol: Some("tcp".into()),
        ip_ranges: Some(vec![range(Some("4.4.4.4/32"), Some("home"))]),
    };
    let no_ranges = IpPermission {
        from_port: Some(22),
        to_port: Some(22),
        ip_protocol: Some("tcp".into()),
        ip_ranges: None,
    };
    let again = IpPermission {
        from_port: Some(22),
        to_port: Some(22),
        ip_protocol: Some("tcp".into()),
        ip_ranges: Some(vec![range(Some("5.5.5.5/32"), Some("home"))]),
    };
    let sg = SecurityGroup { ip_permissions: Some(vec![mine, other_port, no_ranges, again]) };
    let rule = IPRule { id: "home".into(), from_port: 22, to_port: 22, ip_protocol: "tcp".into() };
    assert_eq!(ips_for_rule_in_sg(&rule, &sg), vec!["1.1.1.1/32", "2.2.2.2/32", "5.5.5.5/32"]);
}

#[test]
fn rule_needs_every_part_of_a_permission_to_match() {
    let permission = |from: Option<i64>, to: Option<i64>, protocol: Option<&str>| IpPermission {
        from_port: from,
        to_port: to,
        ip_protocol: protocol.map(String::from),
        ip_ranges: Some(vec![IpRange {
            cidr_ip: Some("1.1.1.1/32".into()),
            description: Some("home".into()),
        }]),
    };
    let rule = IPRule { id: "home".into(), from_port: 22, to_port: 23, ip_protocol: "tcp".into() };
    let group = |p: IpPermission| SecurityGroup { ip_permissions: Some(vec![p]) };
    assert_eq!(ips_for_rule_in_sg(&rule, &group(permission(Some(22), Some(23), Some("tcp")))).len(), 1);
    assert!(ips_for_rule_in_sg(&rule, &group(permission(Some(23), Some(23), Some("tcp")))).is_empty());
    assert!(ips_for_rule_in_sg(&rule, &group(permission(Some(22), Some(22), Some("tcp")))).is_empty());
    assert!(ips_for_rule_in_sg(&rule, &group(permission(Some(22), Some(23), Some("udp")))).is_empty());
    assert!(ips_for_rule_in_sg(&rule, &group(permission(None, Some(23), Some("tcp")))).is_empty());
    assert!(ips_for_rule_in_sg(&rule, &group(permission(Some(22), None, Some("tcp")))).is_empty());
    assert!(ips_for_rule_in_sg(&rule, &group(permission(Some(22), Some(23), None))).is_empty());
}
