use image_search::profile::{is_space_char, strip_whitespace, LoginCredentials, UserData};

fn stripped(s: &str) -> String {
    let chars: Vec<char> = s.chars().collect();
    strip_whitespace(&chars).into_iter().collect()
}

#[test]
fn phone_number_whitespace_is_stripped() {
    assert_eq!(stripped(" +48 123 456 789\n"), "+48123456789");
}

#[test]
fn unicode_whitespace_is_stripped() {
    // No-break space, em space, ideographic space, next line: all whitespace
    // characters count, not only the ASCII ones.
    assert_eq!(stripped("\u{00A0}+48\u{2003}123\u{3000}456\u{0085}"), "+48123456");
    assert!(is_space_char('\u{00A0}'));
    assert!(is_space_char('\u{200A}'));
    assert!(!is_space_char('\u{200B}'));
    assert!(!is_space_char('+'));
}

#[test]
fn stripping_keeps_other_characters_in_order() {
    assert_eq!(stripped("a b\tc\r\nd"), "abcd");
    assert_eq!(stripped("+48123"), "+48123");
    assert_eq!(stripped(""), "");
}

#[test]
fn profile_feeds_login_credentials() {
    let data = UserData {
        api_id: 12345,
        api_hash: "deadbeef".to_string(),
        phone_number: "+48123456789".to_string(),
        session_filename: "alice.session".to_string(),
        channel_name: "News relay".to_string(),
    };
    let creds = LoginCredentials {
        api_id: data.api_id,
        api_hash: data.api_hash.clone(),
        phone_number: data.phone_number.clone(),
        session_filename: data.session_filename.clone(),
    };
    assert_eq!(creds.api_id, 12345);
    assert_eq!(creds.phone_number, "+48123456789");
    assert_eq!(data.channel_name, "News relay");
}
