use hardlink_size::config::{is_whitespace, root_from_input, storage_path};

#[test]
fn storage_line_names_the_folder() {
    assert_eq!(storage_path("FullPath = D:\\osu"), Some("D:\\osu".to_string()));
    assert_eq!(storage_path("FullPath=D:\\osu"), Some("D:\\osu".to_string()));
    assert_eq!(storage_path("FullPath =   /home/me/osu data  \t"), Some("/home/me/osu data".to_string()));
}

#[test]
fn storage_line_stops_at_the_second_equals_sign() {
    assert_eq!(storage_path("a = b = c"), Some("b".to_string()));
    assert_eq!(storage_path("a==c"), Some(String::new()));
    assert_eq!(storage_path("=x="), Some("x".to_string()));
}

#[test]
fn storage_line_with_nothing_behind_the_equals_sign() {
    assert_eq!(storage_path("FullPath ="), Some(String::new()));
    assert_eq!(storage_path("FullPath =   "), Some(String::new()));
    assert_eq!(storage_path("="), Some(String::new()));
}

#[test]
fn storage_line_without_equals_sign_names_nothing() {
    assert_eq!(storage_path("FullPath D:\\osu"), None);
    assert_eq!(storage_path(""), None);
    assert_eq!(storage_path("   "), None);
}

#[test]
fn storage_line_may_hold_any_characters() {
    assert_eq!(storage_path("路径 = D:\\游戏\\osu!"), Some("D:\\游戏\\osu!".to_string()));
    assert_eq!(storage_path("k =\u{3000}\u{a0}值\u{2003}"), Some("值".to_string()));
}

#[test]
fn storage_path_agrees_with_split_and_trim() {
    let lines = [
        "FullPath = D:\\osu",
        "a=b=c=d",
        " = = ",
        "x =\t y z \r",
        "=",
        "k = \u{2028}v\u{85}",
        "no equals sign",
    ];
    for line in lines {
        let expected = line.split('=').nth(1).map(|field| field.trim().to_string());
        assert_eq!(storage_path(line), expected);
    }
}

#[test]
fn typed_folder_is_taken_without_its_line_break() {
    assert_eq!(root_from_input("D:\\osu\r\n", "C:\\default".to_string()), "D:\\osu");
    assert_eq!(root_from_input("  /srv/osu  \n", "/default".to_string()), "/srv/osu");
    assert_eq!(root_from_input("a b", "/default".to_string()), "a b");
}

#[test]
fn empty_answer_stands_for_the_default_folder() {
    assert_eq!(root_from_input("", "C:\\default".to_string()), "C:\\default");
    assert_eq!(root_from_input("\n", "C:\\default".to_string()), "C:\\default");
    assert_eq!(root_from_input(" \t \r\n", "C:\\default".to_string()), "C:\\default");
}

#[test]
fn white_space_is_what_the_standard_library_trims() {
    let mut code: u32 = 0;
    while code <= 0x10FFFF {
        if let Some(c) = char::from_u32(code) {
            assert_eq!(is_whitespace(c), c.is_whitespace(), "U+{:04X}", code);
        }
        code += 1;
    }
}

#[test]
fn white_space_characters() {
    for c in [' ', '\t', '\n', '\r', '\u{b}', '\u{c}', '\u{85}', '\u{a0}', '\u{1680}', '\u{2000}',
        '\u{200a}', '\u{2028}', '\u{2029}', '\u{202f}', '\u{205f}', '\u{3000}']
    {
        assert!(is_whitespace(c));
    }
    for c in ['a', '=', '0', '\u{0}', '\u{8}', '\u{e}', '\u{1f}', '\u{200b}', '\u{180e}', '\u{feff}'] {
        assert!(!is_whitespace(c));
    }
}
