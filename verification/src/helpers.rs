//! Helpers on the shapes that the remote API answers with.

use crate::error::CardinalityError;
use crate::http::opt_text;
use crate::text::{eq_ignore_case, same_ignoring_case, str_eq};
use vstd::prelude::*;
use vstd::string::*;

verus! {

/// The single item of a list that must hold exactly one.
pub open spec fn only_item<T>(items: Option<Seq<T>>) -> Result<T, CardinalityError> {
    match items {
        Some(s) => if s.len() == 1 {
            Ok(s[0])
        } else if s.len() > 1 {
            Err(CardinalityError::TooMany)
        } else {
            Err(CardinalityError::NoneFound)
        },
        None => Err(CardinalityError::NoneFound),
    }
}

/// The items of a list that may be missing.
pub open spec fn items_of<T>(list: Option<Vec<T>>) -> Option<Seq<T>> {
    match list {
        Some(v) => Some(v@),
        None => None,
    }
}

/// Returns the only item of `item_vec`: a missing or empty list is
/// `CardinalityError::NoneFound`, a list of two or more is `CardinalityError::TooMany`.
pub fn get_only_item<T>(item_vec: &Option<Vec<T>>) -> (r: Result<&T, CardinalityError>)
    ensures
        match r {
            Ok(item) => only_item(items_of(*item_vec)) == Ok::<T, CardinalityError>(*item),
            Err(e) => only_item(items_of(*item_vec)) == Err::<T, CardinalityError>(e),
        },
{
    match item_vec {
        Some(item_vec) if item_vec.len() == 1 => Ok(&item_vec[0]),
        Some(item_vec) if item_vec.len() > 1 => Err(CardinalityError::TooMany),
        _ => Err(CardinalityError::NoneFound),
    }
}

/// A range of addresses that a permission of a security group admits.
#[derive(Debug, PartialEq, Eq)]
pub struct IpRange {
    pub cidr_ip: Option<String>,
    pub description: Option<String>,
}

/// One permission of a security group: the ports and the protocol it opens, and the
/// ranges it opens them to.
#[derive(Debug, PartialEq, Eq)]
pub struct IpPermission {
    pub from_port: Option<i64>,
    pub to_port: Option<i64>,
    pub ip_protocol: Option<String>,
    pub ip_ranges: Option<Vec<IpRange>>,
}

/// A security group, as far as its permissions go.
#[derive(Debug, PartialEq, Eq)]
pub struct SecurityGroup {
    pub ip_permissions: Option<Vec<IpPermission>>,
}

/// A rule that this tool manages in a security group: the ports and the protocol that
/// identify the permission, and the description that marks its ranges as owned.
#[derive(Debug, PartialEq, Eq)]
pub struct IPRule {
    pub id: String,
    pub from_port: i64,
    pub to_port: i64,
    pub ip_protocol: String,
}

/// The mathematical value of an [`IpRange`].
pub struct IpRangeView {
    pub cidr_ip: Option<Seq<char>>,
    pub description: Option<Seq<char>>,
}

/// The mathematical value of an [`IpPermission`].
pub struct IpPermissionView {
    pub from_port: Option<i64>,
    pub to_port: Option<i64>,
    pub ip_protocol: Option<Seq<char>>,
    pub ip_ranges: Option<Seq<IpRangeView>>,
}

/// The mathematical value of a [`SecurityGroup`].
pub struct SecurityGroupView {
    pub ip_permissions: Option<Seq<IpPermissionView>>,
}

/// The mathematical value of an [`IPRule`].
pub struct IPRuleView {
    pub id: Seq<char>,
    pub from_port: i64,
    pub to_port: i64,
    pub ip_protocol: Seq<char>,
}

impl View for IpRange {
    type V = IpRangeView;

    open spec fn view(&self) -> IpRangeView {
        IpRangeView { cidr_ip: opt_text(self.cidr_ip), description: opt_text(self.description) }
    }
}

impl DeepView for IpRange {
    type V = IpRangeView;

    open spec fn deep_view(&self) -> IpRangeView {
        self@
    }
}

impl View for IpPermission {
    type V = IpPermissionView;

    open spec fn view(&self) -> IpPermissionView {
        IpPermissionView {
            from_port: self.from_port,
            to_port: self.to_port,
            ip_protocol: opt_text(self.ip_protocol),
            ip_ranges: self.ip_ranges.deep_view(),
        }
    }
}

impl DeepView for IpPermission {
    type V = IpPermissionView;

    open spec fn deep_view(&self) -> IpPermissionView {
        self@
    }
}

impl View for SecurityGroup {
    type V = SecurityGroupView;

    open spec fn view(&self) -> SecurityGroupView {
        SecurityGroupView { ip_permissions: self.ip_permissions.deep_view() }
    }
}

impl View for IPRule {
    type V = IPRuleView;

    open spec fn view(&self) -> IPRuleView {
        IPRuleView {
            id: self.id@,
            from_port: self.from_port,
            to_port: self.to_port,
            ip_protocol: self.ip_protocol@,
        }
    }
}

impl Default for IpRange {
    fn default() -> (range: Self)
        ensures
            range@ == (IpRangeView { cidr_ip: None, description: None }),
    {
        IpRange { cidr_ip: None, description: None }
    }
}

impl Default for IpPermission {
    fn default() -> (permission: Self)
        ensures
            permission@ == (IpPermissionView {
                from_port: None,
                to_port: None,
                ip_protocol: None,
                ip_ranges: None,
            }),
    {
        IpPermission { from_port: None, to_port: None, ip_protocol: None, ip_ranges: None }
    }
}

impl Default for SecurityGroup {
    fn default() -> (group: Self)
        ensures
            group@ == (SecurityGroupView { ip_permissions: None }),
    {
        SecurityGroup { ip_permissions: None }
    }
}

impl Default for IPRule {
    fn default() -> (rule: Self)
        ensures
            rule@ == (IPRuleView {
                id: Seq::empty(),
                from_port: 0,
                to_port: 0,
                ip_protocol: Seq::empty(),
            }),
    {
        IPRule { id: String::new(), from_port: 0, to_port: 0, ip_protocol: String::new() }
    }
}

/// A permission is the rule's when it opens the rule's ports for the rule's protocol.
pub open spec fn rule_matches(rule: IPRuleView, permission: IpPermissionView) -> bool {
    &&& permission.from_port == Some(rule.from_port)
    &&& permission.to_port == Some(rule.to_port)
    &&& permission.ip_protocol == Some(rule.ip_protocol)
}

/// A range is owned under `id` when it has a prefix and its description is `id`, ASCII
/// case aside.
pub open spec fn range_owned(range: IpRangeView, id: Seq<char>) -> bool {
    &&& range.cidr_ip is Some
    &&& range.description matches Some(d) && same_ignoring_case(d, id)
}

/// The prefixes of the ranges that are owned under `id`, in order.
pub open spec fn owned_ranges(ranges: Seq<IpRangeView>, id: Seq<char>) -> Seq<Seq<char>>
    decreases ranges.len(),
{
    if ranges.len() == 0 {
        Seq::empty()
    } else {
        let before = owned_ranges(ranges.drop_last(), id);
        if range_owned(ranges.last(), id) {
            before.push(ranges.last().cidr_ip->0)
        } else {
            before
        }
    }
}

/// The ranges of a permission; one without a list has none.
pub open spec fn ranges_of(permission: IpPermissionView) -> Seq<IpRangeView> {
    match permission.ip_ranges {
        Some(ranges) => ranges,
        None => Seq::empty(),
    }
}

/// The owned prefixes of the permissions that are the rule's, permission after
/// permission.
pub open spec fn rule_ips(rule: IPRuleView, permissions: Seq<IpPermissionView>) -> Seq<Seq<char>>
    decreases permissions.len(),
{
    if permissions.len() == 0 {
        Seq::empty()
    } else {
        let before = rule_ips(rule, permissions.drop_last());
        if rule_matches(rule, permissions.last()) {
            before + owned_ranges(ranges_of(permissions.last()), rule.id)
        } else {
            before
        }
    }
}

/// The prefixes that a security group holds for a rule.
pub open spec fn ips_of(rule: IPRuleView, group: SecurityGroupView) -> Seq<Seq<char>> {
    match group.ip_permissions {
        Some(permissions) => rule_ips(rule, permissions),
        None => Seq::empty(),
    }
}

/// Whether a permission opens the rule's ports for the rule's protocol.
pub fn permission_matches(rule: &IPRule, permission: &IpPermission) -> (same: bool)
    ensures
        same == rule_matches(rule@, permission@),
{
    let from = match permission.from_port {
        Some(port) => port == rule.from_port,
        None => false,
    };
    let to = match permission.to_port {
        Some(port) => port == rule.to_port,
        None => false,
    };
    let protocol = match &permission.ip_protocol {
        Some(name) => str_eq(name.as_str(), rule.ip_protocol.as_str()),
        None => false,
    };
    from && to && protocol
}

/// Returns the prefixes that the security group holds for the rule: those of the ranges
/// that carry the rule's description, in the permissions with the rule's ports and
/// protocol.
pub fn ips_for_rule_in_sg<'a>(rule: &IPRule, sg: &'a SecurityGroup) -> (ips: Vec<&'a str>)
    ensures
        ips.deep_view() == ips_of(rule@, sg@),
{
    let mut ips: Vec<&'a str> = Vec::new();
    assert(ips.deep_view() =~= Seq::<Seq<char>>::empty());
    let permissions = match &sg.ip_permissions {
        Some(permissions) => permissions,
        None => {
            return ips;
        },
    };
    let ghost ps = permissions.deep_view();
    let mut i: usize = 0;
    while i < permissions.len()
        invariant
            i <= permissions.len(),
            ps == permissions.deep_view(),
            ips.deep_view() == rule_ips(rule@, ps.take(i as int)),
        decreases permissions.len() - i,
    {
        proof {
            assert(ps.take(i + 1).drop_last() =~= ps.take(i as int));
            assert(ps.take(i + 1).last() == permissions[i as int]@);
        }
        if permission_matches(rule, &permissions[i]) {
            let ghost before = ips.deep_view();
            match &permissions[i].ip_ranges {
                Some(ranges) => {
                    let ghost rs = ranges.deep_view();
                    let mut j: usize = 0;
                    assert(owned_ranges(rs.take(0), rule@.id) =~= Seq::<Seq<char>>::empty());
                    assert(before + Seq::<Seq<char>>::empty() =~= before);
                    while j < ranges.len()
                        invariant
                            j <= ranges.len(),
                            rs == ranges.deep_view(),
                            ips.deep_view() == before + owned_ranges(rs.take(j as int), rule@.id),
                        decreases ranges.len() - j,
                    {
                        proof {
                            assert(rs.take(j + 1).drop_last() =~= rs.take(j as int));
                            assert(rs.take(j + 1).last() == ranges[j as int]@);
                        }
                        let owned = match &ranges[j].description {
                            Some(d) => eq_ignore_case(d.as_str(), rule.id.as_str()),
                            None => false,
                        };
                        if owned {
                            match &ranges[j].cidr_ip {
                                Some(cidr) => {
                                    let ghost sofar = ips.deep_view();
                                    ips.push(cidr.as_str());
                                    assert(ips.deep_view() =~= sofar.push(cidr@));
                                    assert(ips.deep_view() =~= before + owned_ranges(
                                        rs.take(j + 1),
                                        rule@.id,
                                    ));
                                },
                                None => {},
                            }
                        }
                        j += 1;
                    }
                    assert(rs.take(j as int) =~= rs);
                },
                None => {
                    assert(before + Seq::<Seq<char>>::empty() =~= before);
                },
            }
        }
        i += 1;
    }
    assert(ps.take(i as int) =~= ps);
    ips
}

} // verus!
