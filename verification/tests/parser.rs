use aws_profiles::listing::list_profile_names;
use aws_profiles::store::ProfileStore;
use ini::configparser::ini::Ini;

const AWKWARD: [&str; 8] = [
    "[a]\nk=v\n",
    "k=v\n[ a b ]\r\n  key with spaces = value = more \r\n[c]]\n",
    "[x] trailing\n[y\r]\nk\r=\rv\r\n",
    "[[z]]\n[]\n:v\n",
    " [indented]\n\tk : v\n; c\n# c\nk2=v ; c\n",
    "[a]\n[a]\nk=1\nk=2\n[default]\nd=1\n",
    "x\u{2028}y=1\n[s\u{85}t]\n\u{b}[\u{c}q]\n",
    "[DEFAULT]\nk=v\n[Default]\n",
];

/// A parser set up as the library sets its own up.
fn parser() -> Ini {
    let mut ini = Ini::new_cs();
    ini.set_default_section("\n");
    ini
}

#[test]
fn whatever_is_read_is_tidy() {
    for text in AWKWARD {
        let mut ini = parser();
        let map = match ini.read(text.to_string()) {
            Ok(map) => map,
            Err(_) => continue,
        };
        for (name, section) in map.iter() {
            assert!(name == "\n" || !name.contains('\n'), "{:?}", text);
            for (key, value) in section.iter() {
                assert!(!key.contains('\n'), "{:?}", text);
                assert!(!key.starts_with('['), "{:?}", text);
                if let Some(value) = value {
                    assert!(!value.contains('\n'), "{:?}", text);
                }
            }
        }
    }
}

#[test]
fn listing_of_what_is_written_back_names_the_sections_read() {
    for text in AWKWARD {
        let store = match ProfileStore::parse(text) {
            Ok(store) => store,
            Err(_) => continue,
        };
        let mut ini = parser();
        let map = ini.read(text.to_string()).unwrap();
        let mut expected: Vec<String> =
            map.keys().filter(|name| !name.contains('\n')).cloned().collect();
        expected.sort();
        let mut listed = list_profile_names(&store.to_text());
        listed.sort();
        assert_eq!(listed, expected, "{:?}", text);
    }
}

#[test]
fn store_compares_names_exactly() {
    let store = ProfileStore::parse("[Dev]\naws_access_key_id=k\naws_secret_access_key=s\n").unwrap();
    assert!(store.get_profile_details("Dev").is_ok());
    assert!(store.get_profile_details("dev").is_err());
    let store = ProfileStore::parse("[dev]\nAWS_ACCESS_KEY_ID=k\naws_secret_access_key=s\n").unwrap();
    assert!(store.get_profile_details("dev").is_err());
}

#[test]
fn lookup_does_not_fall_back_to_entries_without_a_header() {
    let store =
        ProfileStore::parse("aws_access_key_id=k\naws_secret_access_key=s\n[dev]\n").unwrap();
    assert!(store.get_profile_details("dev").is_err());
    assert!(store.get_profile_details("default").is_err());
}

#[test]
fn setting_the_headless_section_keeps_what_is_held_and_its_other_settings() {
    let mut ini = Ini::new_cs();
    ini.set("Dev", "Key", Some("v".to_string()));
    ini.set_default_section("\n");
    assert_eq!(ini.get("Dev", "Key"), Some("v".to_string()));
    assert_eq!(ini.get("dev", "key"), None);
    assert_eq!(ini.writes(), "[Dev]\nKey=v\n");
    ini.set("default", "k", None);
    ini.remove_section("Dev");
    assert_eq!(ini.writes(), "[default]\nk\n");
}
