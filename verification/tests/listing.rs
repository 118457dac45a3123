use aws_profiles::listing::list_profile_names;

fn names(text: &str) -> Vec<String> {
    list_profile_names(text)
}

#[test]
fn lists_headers_in_order() {
    let text = "[tester]\naws_access_key_id=a\naws_secret_access_key=b\n[test-profile]\naws_access_key_id=c\n";
    assert_eq!(names(text), vec!["tester".to_string(), "test-profile".to_string()]);
}

#[test]
fn lists_nothing_in_an_empty_file() {
    assert_eq!(names(""), Vec::<String>::new());
    assert_eq!(names("\n\n"), Vec::<String>::new());
}

#[test]
fn listing_agrees_with_std_lines() {
    let texts = [
        "[a]\r\n[b]\n[c]",
        "[a]\r",
        "[a]\r\r\n",
        " [a]\n[b] \n[]\n[\n]\n[[x]]\n",
        "key=[v]\n[s]x\n[é]\n",
        "\r\n[x]\r\n\r\n",
    ];
    for text in texts {
        let expected: Vec<String> = text
            .lines()
            .filter(|line| line.starts_with("[") && line.ends_with("]"))
            .map(|line| line[1..line.len() - 1].to_string())
            .collect();
        assert_eq!(names(text), expected, "text {:?}", text);
    }
}
