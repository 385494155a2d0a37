use k3scontainer::buildspec::resolve_build_spec;
use k3scontainer::error::Error;
use k3scontainer::identity::{
    generate_cluster_name, obtain_cluster_name, obtain_or_generate_and_save_cluster_name,
    parse_identity,
};

#[test]
fn generated_identity_has_prefix_and_random_suffix() {
    let name = generate_cluster_name();
    assert_eq!(name.len(), "k3scontainer-".len() + 16);
    assert!(name.starts_with("k3scontainer-"));
    let suffix = &name["k3scontainer-".len()..];
    assert_eq!(suffix.len(), 16);
    assert!(suffix.chars().all(|c| c.is_ascii_lowercase() || c.is_ascii_digit()));
}

#[test]
fn identity_is_stable_across_repeated_loads() {
    // First call on an empty file: a fresh token plus the line to persist.
    let (name, to_write) = obtain_or_generate_and_save_cluster_name("");
    let line = to_write.expect("a fresh token must be persisted");
    assert_eq!(line, format!("{}\n", name));
    // Second call reading what was persisted: the same token, no write.
    let (again, to_write) = obtain_or_generate_and_save_cluster_name(&line);
    assert_eq!(again, name);
    assert!(to_write.is_none());
}

#[test]
fn existing_identity_is_reused_verbatim() {
    let (name, to_write) = obtain_or_generate_and_save_cluster_name("my-cluster\ntrailing junk\n");
    assert_eq!(name, "my-cluster");
    assert!(to_write.is_none());
}

#[test]
fn obtain_cluster_name_requires_a_token() {
    match obtain_cluster_name("") {
        Err(Error::ClusterNameEmpty) => {}
        other => panic!("expected the empty-identity error, got {:?}", other),
    }
    match obtain_cluster_name("\n") {
        Err(Error::ClusterNameEmpty) => {}
        other => panic!("expected the empty-identity error, got {:?}", other),
    }
    assert_eq!(obtain_cluster_name("tok\n").unwrap(), "tok");
}

#[test]
fn parse_identity_reads_the_first_line() {
    assert_eq!(parse_identity("abc\ndef"), Some("abc".to_string()));
    assert_eq!(parse_identity("abc\r\ndef"), Some("abc".to_string()));
    assert_eq!(parse_identity("abc"), Some("abc".to_string()));
    assert_eq!(parse_identity(""), None);
    assert_eq!(parse_identity("\nabc"), None);
}

#[test]
fn build_spec_is_seeded_once_with_the_default() {
    let (content, must_write) = resolve_build_spec(String::new());
    assert!(must_write);
    assert!(!content.is_empty());
    assert!(content.starts_with("FROM "));
    // What was seeded is authoritative from then on: no second write.
    let (again, must_write) = resolve_build_spec(content.clone());
    assert!(!must_write);
    assert_eq!(again, content);
}

#[test]
fn hand_edited_build_spec_is_kept_unchanged() {
    let edited = "FROM my-base\nRUN true\n".to_string();
    let (content, must_write) = resolve_build_spec(edited.clone());
    assert!(!must_write);
    assert_eq!(content, edited);
}
