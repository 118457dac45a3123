use aws_profiles::error::ErrorClass;
use aws_profiles::listing::list_profile_names;
use aws_profiles::profile::{AwsProfile, ProfileDetails};
use aws_profiles::store::ProfileStore;

fn profile(name: &str, key: &str, secret: &str, token: Option<&str>) -> AwsProfile {
    AwsProfile {
        profile_name: name.to_string(),
        access_key_id: key.to_string(),
        secret_access_key: secret.to_string(),
        session_token: token.map(|t| t.to_string()),
    }
}

fn sorted_lines(text: &str) -> Vec<String> {
    let mut lines: Vec<String> = text.lines().map(|l| l.to_string()).collect();
    lines.sort();
    lines
}

#[test]
fn new_store_is_empty() {
    let store = ProfileStore::new();
    assert_eq!(store.to_text(), "");
    assert!(store.get_profile_details("dev").is_err());
}

#[test]
fn upsert_then_details_in_memory() {
    let mut store = ProfileStore::new();
    store.upsert_profile(&profile("p", "k1", "k2", Some("t")));
    assert_eq!(
        store.get_profile_details("p"),
        Ok(ProfileDetails {
            access_key_id: "k1".to_string(),
            secret_access_key: "k2".to_string(),
            session_token: Some("t".to_string()),
        })
    );
    store.upsert_profile(&profile("p", "k3", "k4", None));
    assert_eq!(
        store.get_profile_details("p"),
        Ok(ProfileDetails {
            access_key_id: "k3".to_string(),
            secret_access_key: "k4".to_string(),
            session_token: None,
        })
    );
}

#[test]
fn upsert_drops_every_earlier_key_of_the_section() {
    let mut store =
        ProfileStore::parse("[p]\nregion=eu\naws_session_token=old\naws_access_key_id=a\n[q]\nregion=us\n")
            .unwrap();
    store.upsert_profile(&profile("p", "k1", "k2", None));
    let text = store.to_text();
    assert_eq!(
        sorted_lines(&text),
        vec![
            "[p]".to_string(),
            "[q]".to_string(),
            "aws_access_key_id=k1".to_string(),
            "aws_secret_access_key=k2".to_string(),
            "region=us".to_string()
        ]
    );
}

#[test]
fn delete_in_memory_is_idempotent() {
    let mut store = ProfileStore::new();
    store.upsert_profile(&profile("a", "ka", "sa", None));
    store.upsert_profile(&profile("b", "kb", "sb", None));
    store.delete_profile("a");
    let once = sorted_lines(&store.to_text());
    store.delete_profile("a");
    assert_eq!(sorted_lines(&store.to_text()), once);
    store.delete_profile("never-there");
    assert_eq!(sorted_lines(&store.to_text()), once);
    let error = store.get_profile_details("a").unwrap_err();
    assert_eq!(error.class, ErrorClass::ProfileNotFound);
    assert_eq!(store.get_profile_details("b").unwrap().access_key_id, "kb");
}

#[test]
fn parse_reads_sections_keys_and_values() {
    let store = ProfileStore::parse(
        "# comment\n[dev]\naws_access_key_id = AKIA1\naws_secret_access_key=SECRET1\n\n[prod]\naws_access_key_id=AKIA2\naws_secret_access_key=SECRET2\naws_session_token=TOKEN2\n",
    )
    .unwrap();
    let dev = store.get_profile_details("dev").unwrap();
    assert_eq!(dev.access_key_id, "AKIA1");
    assert_eq!(dev.secret_access_key, "SECRET1");
    assert_eq!(dev.session_token, None);
    let prod = store.get_profile_details("prod").unwrap();
    assert_eq!(prod.access_key_id, "AKIA2");
    assert_eq!(prod.session_token, Some("TOKEN2".to_string()));
    assert!(store.get_profile_details("[dev]").is_err());
}

#[test]
fn parse_reports_what_is_wrong() {
    assert_eq!(
        ProfileStore::parse("[dev").err(),
        Some("line 1: Found opening bracket for section name but no closing bracket".to_string())
    );
    assert_eq!(
        ProfileStore::parse("a=1\n\n = 2").err(),
        Some("line 3:0: Key cannot be empty".to_string())
    );
}

#[test]
fn text_lists_each_section_once_with_its_entries() {
    let mut store = ProfileStore::parse("loose=1\nflag\n").unwrap();
    store.upsert_profile(&profile("default", "k0", "s0", None));
    store.upsert_profile(&profile("a", "ka", "sa", Some("ta")));
    let text = store.to_text();
    let lines: Vec<&str> = text.split('\n').collect();
    assert_eq!(lines.len(), 10);
    assert_eq!(lines[9], "");
    let mut head: Vec<&str> = lines[0..2].to_vec();
    head.sort();
    assert_eq!(head, vec!["flag", "loose=1"]);
    let at_a = lines.iter().position(|l| *l == "[a]").unwrap();
    let at_default = lines.iter().position(|l| *l == "[default]").unwrap();
    let mut of_a: Vec<&str> = lines[at_a + 1..at_a + 4].to_vec();
    of_a.sort();
    assert_eq!(of_a, vec!["aws_access_key_id=ka", "aws_secret_access_key=sa", "aws_session_token=ta"]);
    let mut of_default: Vec<&str> = lines[at_default + 1..at_default + 3].to_vec();
    of_default.sort();
    assert_eq!(of_default, vec!["aws_access_key_id=k0", "aws_secret_access_key=s0"]);
    let mut names = list_profile_names(&text);
    names.sort();
    assert_eq!(names, vec!["a".to_string(), "default".to_string()]);
}

#[test]
fn entries_without_a_header_belong_to_no_profile() {
    let store =
        ProfileStore::parse("aws_access_key_id=k\naws_secret_access_key=s\n[dev]\n").unwrap();
    assert!(store.get_profile_details("default").is_err());
    assert!(store.get_profile_details("dev").is_err());
    assert!(store.get_profile_details("").is_err());
    let mut lines = sorted_lines(&store.to_text());
    lines.sort();
    assert_eq!(
        lines,
        vec!["[dev]".to_string(), "aws_access_key_id=k".to_string(), "aws_secret_access_key=s".to_string()]
    );
    assert_eq!(store.to_text().lines().last(), Some("[dev]"));
}

#[test]
fn text_of_a_key_without_value_has_no_delimiter() {
    let store = ProfileStore::parse("[s]\nflag\nempty=\n").unwrap();
    assert_eq!(
        sorted_lines(&store.to_text()),
        vec!["[s]".to_string(), "empty=".to_string(), "flag".to_string()]
    );
}
