use allowlist_sync::cidr::Cidr;
use allowlist_sync::cidr_set::CidrSet;
use allowlist_sync::classify::RemoteFailure;
use allowlist_sync::client::AWSClient;
use allowlist_sync::diff::{diff, owned};
use allowlist_sync::entry::{AllowListEntry, AllowListSnapshot, ListState};
use allowlist_sync::error::{AWSError, CardinalityError};
use allowlist_sync::reconcile::{
    cleanup, modify_outcome, modify_request, reconcile, AddEntry, ModifyRequest, RemoveEntry,
};

const TAG: &str = "roaming-laptop";

fn net(text: &str) -> Cidr {
    Cidr::parse(text).unwrap()
}

fn entry(cidr: &str, description: &str) -> AllowListEntry {
    AllowListEntry::parse(cidr, description).unwrap()
}

fn snapshot(version: u64, entries: Vec<AllowListEntry>) -> AllowListSnapshot {
    AllowListSnapshot {
        id: "pl-0123456789abcdef0".to_string(),
        version,
        max_entries: 10,
        state: Some(ListState::ModifyComplete),
        entries,
    }
}

fn set(texts: &[&str]) -> CidrSet {
    let nets: Vec<Cidr> = texts.iter().map(|t| net(t)).collect();
    CidrSet::from_slice(&nets)
}

/// What the remote holds after a request: entries are removed by prefix, and the added
/// ones follow with their description; the version moves on.
fn apply(list: &AllowListSnapshot, request: &ModifyRequest) -> AllowListSnapshot {
    assert_eq!(request.list_id, list.id);
    assert_eq!(request.current_version, list.version);
    let mut entries: Vec<AllowListEntry> = list
        .entries
        .iter()
        .filter(|e| !request.remove_entries.iter().any(|r| r.cidr == e.cidr.to_text()))
        .cloned()
        .collect();
    for add in &request.add_entries {
        entries.push(entry(&add.cidr, &add.description));
    }
    snapshot(list.version + 1, entries)
}

#[test]
fn diff_is_desired_minus_owned_and_owned_minus_desired() {
    let list = snapshot(
        3,
        vec![
            entry("1.1.1.1/32", TAG),
            entry("2.2.2.2/32", "someone else"),
            entry("3.3.3.3/32", "ROAMING-LAPTOP"),
            entry("4.4.4.4/32", TAG),
        ],
    );
    let desired = set(&["4.4.4.4/32", "5.5.5.5/32", "2.2.2.2/32"]);
    let d = diff(&list, &desired, TAG);
    // Desired without the owned prefixes, in the order of the desired set.
    assert_eq!(d.to_add.to_vec(), vec![net("5.5.5.5/32"), net("2.2.2.2/32")]);
    // The owned prefixes outside the desired set, in the order of the entries.
    assert_eq!(d.to_remove.to_vec(), vec![net("1.1.1.1/32"), net("3.3.3.3/32")]);
    assert!(!d.is_noop());
}

#[test]
fn owned_takes_the_tagged_entries_once_each() {
    let list = snapshot(
        1,
        vec![
            entry("1.1.1.1/32", TAG),
            entry("2.2.2.2/32", "other"),
            entry("1.1.1.1/32", "Roaming-Laptop"),
            entry("3.3.3.3/32", TAG),
        ],
    );
    assert_eq!(owned(&list, TAG).to_vec(), vec![net("1.1.1.1/32"), net("3.3.3.3/32")]);
    assert!(owned(&list, "nobody").is_empty());
}

#[test]
fn ownership_isolation_keeps_foreign_entries() {
    // The foreign entry has the very prefix that is no longer desired.
    let list = snapshot(1, vec![entry("1.2.3.4/32", "someone else")]);
    let d = diff(&list, &CidrSet::new(), TAG);
    assert!(d.to_remove.is_empty());
    assert!(d.is_noop());
    // And a foreign entry does not count as present.
    let d = diff(&list, &set(&["1.2.3.4/32"]), TAG);
    assert_eq!(d.to_add.to_vec(), vec![net("1.2.3.4/32")]);
    assert!(d.to_remove.is_empty());
}

#[test]
fn scenario_steady_state_is_nothing_to_do() {
    let list = snapshot(7, vec![entry("1.2.3.4/32", TAG)]);
    assert_eq!(reconcile(&list, &set(&["1.2.3.4/32"]), TAG), Err(AWSError::NothingToDo));
}

#[test]
fn scenario_ip_rotation() {
    let list = snapshot(7, vec![entry("1.2.3.4/32", TAG)]);
    let desired = set(&["5.6.7.8/32"]);
    let d = diff(&list, &desired, TAG);
    assert_eq!(d.to_add.to_vec(), vec![net("5.6.7.8/32")]);
    assert_eq!(d.to_remove.to_vec(), vec![net("1.2.3.4/32")]);

    let request = reconcile(&list, &desired, TAG).unwrap();
    assert_eq!(
        request,
        ModifyRequest {
            list_id: "pl-0123456789abcdef0".to_string(),
            current_version: 7,
            add_entries: vec![AddEntry {
                cidr: "5.6.7.8/32".to_string(),
                description: TAG.to_string()
            }],
            remove_entries: vec![RemoveEntry { cidr: "1.2.3.4/32".to_string() }],
        }
    );

    let after = apply(&list, &request);
    assert!(after.entries.contains(&entry("5.6.7.8/32", TAG)));
    assert!(!after.entries.iter().any(|e| e.cidr == net("1.2.3.4/32")));
    assert_eq!(after.version, 8);
}

#[test]
fn scenario_cleanup_removes_the_owned_entry() {
    let list = snapshot(2, vec![entry("1.2.3.4/32", TAG), entry("8.8.8.8/32", "dns")]);
    let d = diff(&list, &CidrSet::new(), TAG);
    assert!(d.to_add.is_empty());
    assert_eq!(d.to_remove.to_vec(), vec![net("1.2.3.4/32")]);

    let request = cleanup(&list, TAG).unwrap();
    assert!(request.add_entries.is_empty());
    assert_eq!(request.remove_entries, vec![RemoveEntry { cidr: "1.2.3.4/32".to_string() }]);
    assert_eq!(request.current_version, 2);

    let after = apply(&list, &request);
    assert_eq!(after.entries, vec![entry("8.8.8.8/32", "dns")]);
    assert_eq!(cleanup(&after, TAG), Err(AWSError::NothingToDo));
}

#[test]
fn cleanup_without_owned_entries_is_nothing_to_do() {
    let list = snapshot(2, vec![entry("8.8.8.8/32", "dns")]);
    assert_eq!(cleanup(&list, TAG), Err(AWSError::NothingToDo));
    assert_eq!(cleanup(&snapshot(1, vec![]), TAG), Err(AWSError::NothingToDo));
}

#[test]
fn reconcile_twice_has_nothing_to_do_the_second_time() {
    let list = snapshot(
        4,
        vec![entry("1.1.1.1/32", TAG), entry("2.2.2.2/32", "other"), entry("3.3.3.3/32", TAG)],
    );
    let desired = set(&["3.3.3.3/32", "7.7.7.7/32", "2001:db8::/48"]);
    let request = reconcile(&list, &desired, TAG).unwrap();
    let after = apply(&list, &request);
    assert_eq!(reconcile(&after, &desired, TAG), Err(AWSError::NothingToDo));
    assert_eq!(
        owned(&after, TAG).to_vec(),
        vec![net("3.3.3.3/32"), net("7.7.7.7/32"), net("2001:db8::/48")]
    );
}

#[test]
fn modify_request_names_the_version_and_tags_the_additions() {
    let list = snapshot(11, vec![]);
    let request =
        modify_request(&list, &set(&["1.1.1.1/32", "fd00::/8"]), &set(&["2.2.2.2/31"]), "Tag");
    assert_eq!(request.list_id, "pl-0123456789abcdef0");
    assert_eq!(request.current_version, 11);
    assert_eq!(
        request.add_entries,
        vec![
            AddEntry { cidr: "1.1.1.1/32".to_string(), description: "Tag".to_string() },
            AddEntry { cidr: "fd00::/8".to_string(), description: "Tag".to_string() },
        ]
    );
    assert_eq!(request.remove_entries, vec![RemoveEntry { cidr: "2.2.2.2/31".to_string() }]);
}

#[test]
fn modify_outcome_reads_the_answer() {
    let list = snapshot(5, vec![]);
    assert_eq!(modify_outcome(Ok(Some(snapshot(5, vec![])))), Ok(list));
    assert_eq!(
        modify_outcome(Ok(None)),
        Err(AWSError::Cardinality(CardinalityError::NoneFound))
    );
    assert_eq!(
        modify_outcome(Err(RemoteFailure::Service(AWSError::VersionConflict))),
        Err(AWSError::VersionConflict)
    );
    let stale = b"<Response><Errors><Error><Code>PrefixListVersionMismatch</Code><Message>The prefix list has the incorrect version number.</Message></Error></Errors></Response>";
    assert_eq!(
        modify_outcome(Err(RemoteFailure::Http { status: 400, body: stale.to_vec() })),
        Err(AWSError::VersionConflict)
    );
}

#[test]
fn client_plans_with_its_own_description() {
    let client = AWSClient::new(TAG);
    assert_eq!(client.description(), TAG);
    let list = snapshot(7, vec![entry("1.2.3.4/32", "Roaming-Laptop")]);
    assert_eq!(client.reconcile(&list, &set(&["1.2.3.4/32"])), Err(AWSError::NothingToDo));
    let request = client.reconcile(&list, &set(&["5.6.7.8/32"])).unwrap();
    assert_eq!(request, reconcile(&list, &set(&["5.6.7.8/32"]), TAG).unwrap());
    assert_eq!(client.cleanup(&list), cleanup(&list, TAG));
    assert_eq!(
        client.modify_entries(&list, &set(&["9.9.9.9/32"]), &CidrSet::new()),
        modify_request(&list, &set(&["9.9.9.9/32"]), &CidrSet::new(), TAG)
    );
}
