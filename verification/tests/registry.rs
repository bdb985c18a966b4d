use ec2_connector::registry::{add_entry, locate_registry, remove_entry, AddResult, RemoveResult, SessionEntry};
use ec2_connector::errors::AppError;

fn entry(alias: &str, address: &str, identity: &str, user: &str) -> SessionEntry {
    SessionEntry {
        host_alias: alias.as_bytes().to_vec(),
        address: address.as_bytes().to_vec(),
        identity_path: identity.as_bytes().to_vec(),
        login_user: user.as_bytes().to_vec(),
    }
}

fn block(alias: &str, address: &str, identity: &str, user: &str) -> Vec<u8> {
    format!(
        "\nHost {}\n  HostName {}\n  IdentityFile {}\n  User {}\n",
        alias, address, identity, user
    )
    .into_bytes()
}

fn count_markers(content: &[u8]) -> usize {
    let needle = b"\nHost ";
    if content.len() < needle.len() {
        return 0;
    }
    content.windows(needle.len()).filter(|w| w == needle).count()
}

#[test]
fn add_entry_to_missing_file_writes_exactly_one_block() {
    let e = entry(
        "ec2Connector-dev-05-11-2026-10.30",
        "ec2-3-120-1-2.eu-central-1.compute.amazonaws.com",
        "/home/op/ec2_connector/key_rsa",
        "ec2-user",
    );
    let (content, res) = add_entry(&Vec::new(), &e);
    assert_eq!(res, AddResult::Added);
    let expected = block(
        "ec2Connector-dev-05-11-2026-10.30",
        "ec2-3-120-1-2.eu-central-1.compute.amazonaws.com",
        "/home/op/ec2_connector/key_rsa",
        "ec2-user",
    );
    assert_eq!(content, expected);
    assert_eq!(count_markers(&content), 1);
}

#[test]
fn add_entry_twice_keeps_one_block() {
    let e = entry("ec2Connector-dev-05-11-2026-10.30", "host-a", "/k/key_rsa", "ec2-user");
    let (once, first) = add_entry(&Vec::new(), &e);
    assert_eq!(first, AddResult::Added);
    let (twice, second) = add_entry(&once, &e);
    assert_eq!(second, AddResult::AlreadyExists);
    assert_eq!(twice, once);
    assert_eq!(count_markers(&twice), 1);
}

#[test]
fn add_entry_preserves_prior_content() {
    let prior = block("other", "host-b", "/k/key_rsa", "admin");
    let e = entry("ec2Connector-dev-05-11-2026-10.31", "host-a", "/k/key_rsa", "ec2-user");
    let (content, res) = add_entry(&prior, &e);
    assert_eq!(res, AddResult::Added);
    assert!(content.starts_with(&prior));
    let mut expected = prior.clone();
    expected.extend_from_slice(&block(
        "ec2Connector-dev-05-11-2026-10.31",
        "host-a",
        "/k/key_rsa",
        "ec2-user",
    ));
    assert_eq!(content, expected);
}

#[test]
fn remove_entry_deletes_exactly_the_middle_block() {
    let mut content = block("alpha", "host-a", "/k/key_rsa", "ec2-user");
    content.extend_from_slice(&block("beta", "host-b", "/k/key_rsa", "ec2-user"));
    content.extend_from_slice(&block("gamma", "host-c", "/k/key_rsa", "ec2-user"));
    let (after, res) = remove_entry(&content, &b"beta".to_vec());
    assert_eq!(res, RemoveResult::Removed);
    let mut expected = block("alpha", "host-a", "/k/key_rsa", "ec2-user");
    expected.extend_from_slice(&block("gamma", "host-c", "/k/key_rsa", "ec2-user"));
    assert_eq!(after, expected);
}

#[test]
fn remove_entry_deletes_the_last_block_to_end_of_file() {
    let mut content = block("alpha", "host-a", "/k/key_rsa", "ec2-user");
    content.extend_from_slice(&block("omega", "host-z", "/k/key_rsa", "ec2-user"));
    let (after, res) = remove_entry(&content, &b"omega".to_vec());
    assert_eq!(res, RemoveResult::Removed);
    assert_eq!(after, block("alpha", "host-a", "/k/key_rsa", "ec2-user"));
}

#[test]
fn remove_entry_does_not_touch_an_alias_that_extends_the_target() {
    let mut content = block("dev-2", "host-b", "/k/key_rsa", "ec2-user");
    content.extend_from_slice(&block("dev", "host-a", "/k/key_rsa", "ec2-user"));
    let (after, res) = remove_entry(&content, &b"dev".to_vec());
    assert_eq!(res, RemoveResult::Removed);
    assert_eq!(after, block("dev-2", "host-b", "/k/key_rsa", "ec2-user"));
}

#[test]
fn remove_entry_without_match_reports_not_found_and_changes_nothing() {
    let content = block("alpha", "host-a", "/k/key_rsa", "ec2-user");
    let (after, res) = remove_entry(&content, &b"missing".to_vec());
    assert_eq!(res, RemoveResult::NotFound);
    assert_eq!(after, content);
}

#[test]
fn add_then_remove_restores_the_file_byte_for_byte() {
    let prior = block("kept", "host-k", "/k/key_rsa", "admin");
    let e = entry("ec2Connector-dev-05-11-2026-10.32", "host-a", "/k/key_rsa", "ec2-user");
    let (added, res) = add_entry(&prior, &e);
    assert_eq!(res, AddResult::Added);
    let (restored, removed) = remove_entry(&added, &e.host_alias);
    assert_eq!(removed, RemoveResult::Removed);
    assert_eq!(restored, prior);
}

#[test]
fn add_then_remove_on_an_empty_file_leaves_it_empty() {
    let e = entry("ec2Connector-dev-05-11-2026-10.33", "host-a", "/k/key_rsa", "ec2-user");
    let (added, _) = add_entry(&Vec::new(), &e);
    let (restored, removed) = remove_entry(&added, &e.host_alias);
    assert_eq!(removed, RemoveResult::Removed);
    assert_eq!(restored, Vec::<u8>::new());
}

#[test]
fn locate_registry_joins_home_and_fixed_path() {
    let path = locate_registry(Some(b"/home/op".to_vec())).unwrap();
    assert_eq!(path, b"/home/op/.ssh/config".to_vec());
}

#[test]
fn locate_registry_without_home_is_unavailable() {
    match locate_registry(None) {
        Err(AppError::RegistryUnavailable) => {}
        other => panic!("expected RegistryUnavailable, got {:?}", other),
    }
}
