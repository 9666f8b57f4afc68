use drugra::repo_id::{RepoId, RepoIdError};

#[test]
fn parse_then_to_string_round_trips() {
    for s in ["rust-lang/rust", "a/b", "owner/name.rs", "x1/y_2"] {
        let id = RepoId::parse(s).unwrap();
        assert_eq!(id.to_string(), s);
    }
}

#[test]
fn parse_splits_owner_and_name() {
    let id = RepoId::parse("rust-lang/rust").unwrap();
    assert_eq!(id.owner(), "rust-lang");
    assert_eq!(id.name(), "rust");
}

#[test]
fn parse_rejects_no_slash() {
    assert!(RepoId::parse("rust").is_err());
    assert!(RepoId::parse("").is_err());
}

#[test]
fn parse_rejects_two_slashes() {
    assert!(RepoId::parse("a/b/c").is_err());
    assert!(RepoId::parse("//").is_err());
}

#[test]
fn parse_rejects_empty_segment() {
    assert!(RepoId::parse("/rust").is_err());
    assert!(RepoId::parse("rust-lang/").is_err());
    assert!(RepoId::parse("/").is_err());
}

#[test]
fn parse_error_keeps_input_and_explains() {
    let e = RepoId::parse("abc").unwrap_err();
    match &e {
        RepoIdError::InvalidFormat { received } => assert_eq!(received, "abc"),
    }
    assert_eq!(
        e.message(),
        "invalid format - expected: `owner/name`- received: 'abc'"
    );
}

#[test]
fn new_then_to_string() {
    let id = RepoId::new("o".to_string(), "n".to_string());
    assert_eq!(id.to_string(), "o/n");
}
