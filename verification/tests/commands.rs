use aws_profiles::commands::{
    add_or_edit_aws_profile, delete_aws_profile, get_aws_profile_details, list_aws_profiles,
    CredentialsFile,
};
use aws_profiles::error::ErrorClass;
use aws_profiles::profile::AwsProfile;
use ini::configparser::ini::Ini;

fn profile(name: &str, key: &str, secret: &str, token: Option<&str>) -> AwsProfile {
    AwsProfile {
        profile_name: name.to_string(),
        access_key_id: key.to_string(),
        secret_access_key: secret.to_string(),
        session_token: token.map(|t| t.to_string()),
    }
}

const PATH: &str = "/home/user/.aws/credentials";

fn contents(text: &str) -> CredentialsFile {
    CredentialsFile::Contents { path: PATH.to_string(), text: text.to_string() }
}

fn unreadable(reason: &str) -> CredentialsFile {
    CredentialsFile::Unreadable { path: PATH.to_string(), reason: reason.to_string() }
}

/// Runs the command on the file and puts the text it returns in its place.
fn add(file: &mut CredentialsFile, profile: AwsProfile) {
    let text = add_or_edit_aws_profile(file, profile).unwrap();
    *file = contents(&text);
}

fn delete(file: &mut CredentialsFile, name: &str) {
    let text = delete_aws_profile(file, name).unwrap();
    *file = contents(&text);
}

fn text_of(file: &CredentialsFile) -> String {
    match file {
        CredentialsFile::Contents { text, .. } => text.clone(),
        _ => panic!("the file has no contents"),
    }
}

fn sorted_lines(text: &str) -> Vec<String> {
    let mut lines: Vec<String> = text.lines().map(|l| l.to_string()).collect();
    lines.sort();
    lines
}

#[test]
fn test_list_aws_profiles() {
    let mut file = CredentialsFile::Missing;

    let default_profile = profile("tester", "test_access_key_id", "test_secret_access_key", None);
    assert_eq!(add_or_edit_aws_profile(&file, default_profile.clone()).is_ok(), true);
    add(&mut file, default_profile);
    let test_profile =
        profile("test-profile", "test_access_key_id", "test_secret_access_key", None);
    assert_eq!(add_or_edit_aws_profile(&file, test_profile.clone()).is_ok(), true);
    add(&mut file, test_profile);

    let profiles = list_aws_profiles(&file).unwrap();

    assert_eq!(profiles.len(), 2);
    assert!(profiles.contains(&"tester".to_string()));
    assert!(profiles.contains(&"test-profile".to_string()));
}

#[test]
fn test_get_aws_profile_details() {
    let mut file = CredentialsFile::Missing;

    let test_profile = profile("test-profile", "12345", "67890", Some("abcde"));
    assert_eq!(add_or_edit_aws_profile(&file, test_profile.clone()).is_ok(), true);
    add(&mut file, test_profile);

    let details = get_aws_profile_details(&file, "test-profile").unwrap();
    assert_eq!(details.access_key_id, "12345");
    assert_eq!(details.secret_access_key, "67890");
    assert_eq!(details.session_token, Some("abcde".to_string()));
}

#[test]
fn test_add_or_edit_aws_profile() {
    let mut file = CredentialsFile::Missing;

    let test_profile =
        profile("test-profile", "test_access_key_id", "test_secret_access_key", None);
    assert_eq!(add_or_edit_aws_profile(&file, test_profile.clone()).is_ok(), true);
    add(&mut file, test_profile);

    let edited_profile = profile(
        "test-profile",
        "edited_test_access_key_id",
        "edited_test_secret_access_key",
        Some("edited_test_session_token"),
    );
    assert_eq!(add_or_edit_aws_profile(&file, edited_profile.clone()).is_ok(), true);
    add(&mut file, edited_profile);

    let mut config = Ini::new();
    config.read(text_of(&file)).expect("Failed to load Ini from file after edits");

    assert_eq!(
        config.get("test-profile", "aws_access_key_id"),
        Some("edited_test_access_key_id".to_string()),
        "Edited Access Key ID not present in Ini file"
    );
    assert_eq!(
        config.get("test-profile", "aws_secret_access_key"),
        Some("edited_test_secret_access_key".to_string()),
        "Edited Secret Access Key not present in Ini file"
    );
    assert_eq!(
        config.get("test-profile", "aws_session_token"),
        Some("edited_test_session_token".to_string()),
        "Edited Session Token not present in Ini file"
    );
}

#[test]
fn test_delete_aws_profile() {
    let mut file = CredentialsFile::Missing;

    let test_profile =
        profile("test-profile", "test_access_key_id", "test_secret_access_key", None);
    add(&mut file, test_profile);

    let profiles_before_deletion = list_aws_profiles(&file).unwrap();
    assert!(profiles_before_deletion.contains(&"test-profile".to_string()));

    assert_eq!(delete_aws_profile(&file, "test-profile").is_ok(), true);
    delete(&mut file, "test-profile");

    let profiles_after_deletion = list_aws_profiles(&file).unwrap();
    assert!(
        !profiles_after_deletion.contains(&"test-profile".to_string()),
        "The profile should have been deleted."
    );

    let result = get_aws_profile_details(&file, "test-profile");
    assert!(result.is_err(), "Fetching details for a deleted profile should fail.");
}

#[test]
fn written_profile_is_listed_whatever_the_file_held() {
    let before = [
        CredentialsFile::Missing,
        contents(""),
        contents("[other]\naws_access_key_id=x\n"),
        contents("[p]\naws_access_key_id=old\nstale=1\n"),
        contents("loose=1\n\n# note\n[a]\n[b]\nk = v\n"),
    ];
    for file in before {
        let text = add_or_edit_aws_profile(&file, profile("p", "k1", "k2", None)).unwrap();
        let names = list_aws_profiles(&contents(&text)).unwrap();
        assert!(names.contains(&"p".to_string()), "after {:?}: {:?}", file, names);
        assert_eq!(names.iter().filter(|n| n.as_str() == "p").count(), 1);
    }
}

#[test]
fn round_trip_gives_back_what_was_written() {
    let mut file = contents("[other]\naws_access_key_id=x\n");
    add(&mut file, profile("p", "SECRET-REDACTED", "wJalrXUtnFEMI/K7MDENG+bPxRfiCY", Some("tok+en/==")));
    let details = get_aws_profile_details(&file, "p").unwrap();
    assert_eq!(details.access_key_id, "SECRET-REDACTED");
    assert_eq!(details.secret_access_key, "wJalrXUtnFEMI/K7MDENG+bPxRfiCY");
    assert_eq!(details.session_token, Some("tok+en/==".to_string()));
    let other = get_aws_profile_details(&file, "other");
    assert_eq!(other.unwrap_err().message, "Secret Access Key not found for profile: other");
}

#[test]
fn edit_without_token_clears_the_token() {
    let mut file = CredentialsFile::Missing;
    add(&mut file, profile("p", "k1", "k2", Some("t")));
    assert_eq!(
        get_aws_profile_details(&file, "p").unwrap().session_token,
        Some("t".to_string())
    );
    add(&mut file, profile("p", "k3", "k4", None));
    let details = get_aws_profile_details(&file, "p").unwrap();
    assert_eq!(details.access_key_id, "k3");
    assert_eq!(details.secret_access_key, "k4");
    assert_eq!(details.session_token, None);
    assert_eq!(
        sorted_lines(&text_of(&file)),
        vec!["[p]".to_string(), "aws_access_key_id=k3".to_string(), "aws_secret_access_key=k4".to_string()]
    );
}

#[test]
fn delete_of_a_missing_profile_succeeds() {
    let file = contents("[a]\naws_access_key_id=x\naws_secret_access_key=y\n");
    let text = delete_aws_profile(&file, "nobody").unwrap();
    assert_eq!(
        sorted_lines(&text),
        vec!["[a]".to_string(), "aws_access_key_id=x".to_string(), "aws_secret_access_key=y".to_string()]
    );
    let again = delete_aws_profile(&contents(&text), "nobody").unwrap();
    assert_eq!(sorted_lines(&again), sorted_lines(&text));
    assert_eq!(delete_aws_profile(&CredentialsFile::Missing, "nobody"), Ok(String::new()));
}

#[test]
fn delete_removes_the_profile_and_keeps_the_others() {
    let mut file = CredentialsFile::Missing;
    add(&mut file, profile("a", "ka", "sa", None));
    add(&mut file, profile("b", "kb", "sb", Some("tb")));
    delete(&mut file, "a");
    assert_eq!(list_aws_profiles(&file).unwrap(), vec!["b".to_string()]);
    let error = get_aws_profile_details(&file, "a").unwrap_err();
    assert_eq!(error.class, ErrorClass::ProfileNotFound);
    assert_eq!(error.message, "Access Key ID not found for profile: a");
    let kept = get_aws_profile_details(&file, "b").unwrap();
    assert_eq!(kept.access_key_id, "kb");
    assert_eq!(kept.secret_access_key, "sb");
    assert_eq!(kept.session_token, Some("tb".to_string()));
}

#[test]
fn scenario_from_an_empty_home() {
    let mut file = CredentialsFile::Missing;
    add(&mut file, profile("dev", "AKIA1", "SECRET1", None));
    assert_eq!(
        sorted_lines(&text_of(&file)),
        vec![
            "[dev]".to_string(),
            "aws_access_key_id=AKIA1".to_string(),
            "aws_secret_access_key=SECRET1".to_string()
        ]
    );
    assert_eq!(list_aws_profiles(&file).unwrap(), vec!["dev".to_string()]);
    delete(&mut file, "dev");
    assert_eq!(text_of(&file), "");
    assert_eq!(list_aws_profiles(&file).unwrap(), Vec::<String>::new());
}

#[test]
fn listing_a_missing_file_is_an_error() {
    let error = list_aws_profiles(&CredentialsFile::Missing).unwrap_err();
    assert_eq!(error.class, ErrorClass::FileUnreadable);
    assert_eq!(error.message, "Unable to read AWS credentials file");
    let error = list_aws_profiles(&unreadable("denied")).unwrap_err();
    assert_eq!(error.class, ErrorClass::FileUnreadable);
    assert_eq!(error.message, "Unable to read AWS credentials file");
    assert_eq!(list_aws_profiles(&contents("")), Ok(vec![]));
}

#[test]
fn reading_from_a_missing_file_finds_no_profile() {
    let error = get_aws_profile_details(&CredentialsFile::Missing, "dev").unwrap_err();
    assert_eq!(error.class, ErrorClass::ProfileNotFound);
    assert_eq!(error.message, "Access Key ID not found for profile: dev");
}

#[test]
fn unknown_home_fails_every_command() {
    let file = CredentialsFile::HomeUnknown;
    let expected = "Unable to find HOME directory";
    let e = list_aws_profiles(&file).unwrap_err();
    assert_eq!((e.class, e.message.as_str()), (ErrorClass::EnvironmentUnavailable, expected));
    let e = get_aws_profile_details(&file, "p").unwrap_err();
    assert_eq!((e.class, e.message.as_str()), (ErrorClass::EnvironmentUnavailable, expected));
    let e = add_or_edit_aws_profile(&file, profile("p", "a", "b", None)).unwrap_err();
    assert_eq!((e.class, e.message.as_str()), (ErrorClass::EnvironmentUnavailable, expected));
    let e = delete_aws_profile(&file, "p").unwrap_err();
    assert_eq!((e.class, e.message.as_str()), (ErrorClass::EnvironmentUnavailable, expected));
}

#[test]
fn unreadable_file_fails_with_its_reason() {
    let file = unreadable("permission denied");
    let reason = "couldn't read /home/user/.aws/credentials: permission denied";
    let e = get_aws_profile_details(&file, "p").unwrap_err();
    assert_eq!(e.class, ErrorClass::FileUnreadable);
    assert_eq!(e.message, format!("Failed to load AWS credentials file: {}", reason));
    let e = delete_aws_profile(&file, "p").unwrap_err();
    assert_eq!(e.class, ErrorClass::FileUnreadable);
    assert_eq!(e.message, format!("Failed to load AWS credentials file: {}", reason));
    let e = add_or_edit_aws_profile(&file, profile("p", "a", "b", None)).unwrap_err();
    assert_eq!(e.class, ErrorClass::FileUnreadable);
    assert_eq!(e.message, format!("Failed to load existing AWS credentials file: {}", reason));
}

#[test]
fn malformed_file_fails_with_the_parsers_complaint() {
    let file = contents("[dev\naws_access_key_id=x\n");
    let reason = "couldn't read /home/user/.aws/credentials: line 1: Found opening bracket for section name but no closing bracket";
    let e = get_aws_profile_details(&file, "dev").unwrap_err();
    assert_eq!(e.class, ErrorClass::FileUnreadable);
    assert_eq!(e.message, format!("Failed to load AWS credentials file: {}", reason));
    let e = delete_aws_profile(&file, "dev").unwrap_err();
    assert_eq!(e.message, format!("Failed to load AWS credentials file: {}", reason));
    let e = add_or_edit_aws_profile(&file, profile("p", "a", "b", None)).unwrap_err();
    assert_eq!(e.message, format!("Failed to load existing AWS credentials file: {}", reason));
    let file = contents("[dev]\n=x\n");
    let e = get_aws_profile_details(&file, "dev").unwrap_err();
    assert_eq!(
        e.message,
        "Failed to load AWS credentials file: couldn't read /home/user/.aws/credentials: line 2:0: Key cannot be empty"
    );
}

#[test]
fn missing_required_keys_are_named() {
    let file = contents("[no-id]\naws_secret_access_key=s\n[no-secret]\naws_access_key_id=k\n[no-value]\naws_access_key_id\naws_secret_access_key=s\n[full]\naws_access_key_id=k\naws_secret_access_key=s\n");
    let e = get_aws_profile_details(&file, "no-id").unwrap_err();
    assert_eq!(e.class, ErrorClass::ProfileNotFound);
    assert_eq!(e.message, "Access Key ID not found for profile: no-id");
    let e = get_aws_profile_details(&file, "no-secret").unwrap_err();
    assert_eq!(e.class, ErrorClass::ProfileNotFound);
    assert_eq!(e.message, "Secret Access Key not found for profile: no-secret");
    let e = get_aws_profile_details(&file, "no-value").unwrap_err();
    assert_eq!(e.message, "Access Key ID not found for profile: no-value");
    let d = get_aws_profile_details(&file, "full").unwrap();
    assert_eq!((d.access_key_id.as_str(), d.secret_access_key.as_str(), d.session_token), ("k", "s", None));
}

#[test]
fn names_are_compared_exactly() {
    let mut file = CredentialsFile::Missing;
    add(&mut file, profile("Dev", "k", "s", None));
    assert_eq!(list_aws_profiles(&file).unwrap(), vec!["Dev".to_string()]);
    assert!(get_aws_profile_details(&file, "Dev").is_ok());
    assert!(get_aws_profile_details(&file, "dev").is_err());
    assert!(get_aws_profile_details(&file, "DEV").is_err());
    delete(&mut file, "dev");
    assert_eq!(list_aws_profiles(&file).unwrap(), vec!["Dev".to_string()]);
    add(&mut file, profile("dev", "k2", "s2", None));
    let mut names = list_aws_profiles(&file).unwrap();
    names.sort();
    assert_eq!(names, vec!["Dev".to_string(), "dev".to_string()]);
    assert_eq!(get_aws_profile_details(&file, "Dev").unwrap().access_key_id, "k");
    assert_eq!(get_aws_profile_details(&file, "dev").unwrap().access_key_id, "k2");
}

#[test]
fn default_profile_is_written_and_listed_like_any_other() {
    let mut file = CredentialsFile::Missing;
    add(&mut file, profile("default", "k", "s", None));
    assert_eq!(
        sorted_lines(&text_of(&file)),
        vec![
            "[default]".to_string(),
            "aws_access_key_id=k".to_string(),
            "aws_secret_access_key=s".to_string()
        ]
    );
    assert_eq!(list_aws_profiles(&file).unwrap(), vec!["default".to_string()]);
    assert_eq!(get_aws_profile_details(&file, "default").unwrap().access_key_id, "k");
    add(&mut file, profile("dev", "k2", "s2", None));
    let mut names = list_aws_profiles(&file).unwrap();
    names.sort();
    assert_eq!(names, vec!["default".to_string(), "dev".to_string()]);
    assert_eq!(get_aws_profile_details(&file, "default").unwrap().secret_access_key, "s");
    delete(&mut file, "default");
    assert_eq!(list_aws_profiles(&file).unwrap(), vec!["dev".to_string()]);
    assert!(get_aws_profile_details(&file, "default").is_err());
}

#[test]
fn default_header_survives_edits_of_other_profiles() {
    let mut file = contents(
        "[default]\naws_access_key_id=k\naws_secret_access_key=s\n[old]\naws_access_key_id=o\n",
    );
    add(&mut file, profile("dev", "k2", "s2", None));
    let mut names = list_aws_profiles(&file).unwrap();
    names.sort();
    assert_eq!(names, vec!["default".to_string(), "dev".to_string(), "old".to_string()]);
    delete(&mut file, "old");
    let mut names = list_aws_profiles(&file).unwrap();
    names.sort();
    assert_eq!(names, vec!["default".to_string(), "dev".to_string()]);
    assert_eq!(text_of(&file).lines().filter(|l| *l == "[default]").count(), 1);
    let kept = get_aws_profile_details(&file, "default").unwrap();
    assert_eq!((kept.access_key_id.as_str(), kept.secret_access_key.as_str()), ("k", "s"));
}

#[test]
fn added_profile_has_exactly_one_header() {
    for name in ["default", "dev", "", "a]b", "[x"] {
        for before in [CredentialsFile::Missing, contents("[default]\nk=v\n[dev]\nk=v\n")] {
            let text = add_or_edit_aws_profile(&before, profile(name, "k", "s", Some("t"))).unwrap();
            let header = format!("[{}]", name);
            assert_eq!(text.lines().filter(|l| *l == header).count(), 1, "{:?}", name);
            let names = list_aws_profiles(&contents(&text)).unwrap();
            assert_eq!(names.iter().filter(|n| n.as_str() == name).count(), 1, "{:?}", name);
        }
    }
}

#[test]
fn entries_before_the_first_header_stay_there_and_are_no_profile() {
    let mut file = contents("region=eu\n[dev]\naws_access_key_id=k\naws_secret_access_key=s\n");
    add(&mut file, profile("default", "k0", "s0", None));
    let text = text_of(&file);
    assert_eq!(text.lines().next(), Some("region=eu"));
    let mut names = list_aws_profiles(&file).unwrap();
    names.sort();
    assert_eq!(names, vec!["default".to_string(), "dev".to_string()]);
    assert_eq!(get_aws_profile_details(&file, "default").unwrap().access_key_id, "k0");
    delete(&mut file, "default");
    assert_eq!(text_of(&file).lines().next(), Some("region=eu"));
    assert_eq!(list_aws_profiles(&file).unwrap(), vec!["dev".to_string()]);
}

#[test]
fn second_delete_changes_nothing() {
    let mut file = contents(
        "[default]\naws_access_key_id=k\naws_secret_access_key=s\n[dev]\naws_access_key_id=k2\naws_secret_access_key=s2\naws_session_token=t2\n",
    );
    delete(&mut file, "dev");
    let once = sorted_lines(&text_of(&file));
    assert_eq!(
        once,
        vec![
            "[default]".to_string(),
            "aws_access_key_id=k".to_string(),
            "aws_secret_access_key=s".to_string()
        ]
    );
    assert_eq!(delete_aws_profile(&file, "dev").is_ok(), true);
    delete(&mut file, "dev");
    assert_eq!(sorted_lines(&text_of(&file)), once);
    assert_eq!(get_aws_profile_details(&file, "default").unwrap().access_key_id, "k");
}

#[test]
fn name_that_spans_lines_is_not_listed() {
    let file = CredentialsFile::Missing;
    let text = add_or_edit_aws_profile(&file, profile("a\nb", "k", "s", None)).unwrap();
    let names = list_aws_profiles(&contents(&text)).unwrap();
    assert!(!names.contains(&"a\nb".to_string()));
}

#[test]
fn deleted_profile_is_never_listed() {
    let file = contents("[p]\naws_access_key_id=k\n[q]\nnote=[p]\n [p] \n[p]\nx=1\n");
    let text = delete_aws_profile(&file, "p").unwrap();
    let names = list_aws_profiles(&contents(&text)).unwrap();
    assert_eq!(names, vec!["q".to_string()]);
}

#[test]
fn credential_that_spans_lines_leaves_one_header() {
    for before in [CredentialsFile::Missing, contents("[default]\nk=v\n[dev]\nk=v\n")] {
        let text =
            add_or_edit_aws_profile(&before, profile("dev", "a\nb", "c\r\n[other]\n", None))
                .unwrap();
        assert_eq!(text.lines().filter(|l| *l == "[dev]").count(), 1);
        let names = list_aws_profiles(&contents(&text)).unwrap();
        assert_eq!(names.iter().filter(|n| n.as_str() == "dev").count(), 1);
        assert!(names.contains(&"other".to_string()));
    }
}

#[test]
fn credential_that_spells_the_header_shows_it_twice() {
    let text = add_or_edit_aws_profile(
        &CredentialsFile::Missing,
        profile("dev", "a\n[dev]", "s", None),
    )
    .unwrap();
    let names = list_aws_profiles(&contents(&text)).unwrap();
    assert_eq!(names, vec!["dev".to_string(), "dev".to_string()]);
}
