use spawn_terminal::text::{str_eq, str_eq_ignore_ascii_case, to_ascii_lowercase};

#[test]
fn lowercase_maps_capitals_only() {
    assert_eq!(to_ascii_lowercase('A'), 'a');
    assert_eq!(to_ascii_lowercase('Z'), 'z');
    assert_eq!(to_ascii_lowercase('M'), 'm');
    assert_eq!(to_ascii_lowercase('a'), 'a');
    assert_eq!(to_ascii_lowercase('z'), 'z');
    assert_eq!(to_ascii_lowercase('@'), '@');
    assert_eq!(to_ascii_lowercase('['), '[');
    assert_eq!(to_ascii_lowercase('0'), '0');
    assert_eq!(to_ascii_lowercase('-'), '-');
}

#[test]
fn lowercase_leaves_other_alphabets_alone() {
    assert_eq!(to_ascii_lowercase('É'), 'É');
    assert_eq!(to_ascii_lowercase('Σ'), 'Σ');
    assert_eq!(to_ascii_lowercase('\u{212A}'), '\u{212A}');
}

#[test]
fn lowercase_agrees_with_std_on_every_ascii_character() {
    let mut code: u8 = 0;
    while code < 128 {
        let c = code as char;
        assert_eq!(to_ascii_lowercase(c), c.to_ascii_lowercase());
        code += 1;
    }
}

#[test]
fn str_eq_tells_equal_from_different() {
    assert!(str_eq("", ""));
    assert!(str_eq("vscode", "vscode"));
    assert!(!str_eq("vscode", "VSCode"));
    assert!(!str_eq("vscode", "vscod"));
    assert!(!str_eq("vscod", "vscode"));
    assert!(!str_eq("", "x"));
    assert!(!str_eq("x", ""));
    assert!(!str_eq("alacritty", "alacritti"));
    assert!(str_eq("größe", "größe"));
    assert!(!str_eq("größe", "grösse"));
}

#[test]
fn ignoring_case_accepts_any_mix_of_cases() {
    assert!(str_eq_ignore_ascii_case("ghostty", "ghostty"));
    assert!(str_eq_ignore_ascii_case("Ghostty", "ghostty"));
    assert!(str_eq_ignore_ascii_case("GHOSTTY", "ghostty"));
    assert!(str_eq_ignore_ascii_case("gHoStTy", "GhOsTtY"));
    assert!(str_eq_ignore_ascii_case("", ""));
}

#[test]
fn ignoring_case_rejects_other_texts() {
    assert!(!str_eq_ignore_ascii_case("ghostty", "ghost"));
    assert!(!str_eq_ignore_ascii_case("ghost", "ghostty"));
    assert!(!str_eq_ignore_ascii_case("ghostty ", "ghostty"));
    assert!(!str_eq_ignore_ascii_case("ghostly", "ghostty"));
    assert!(!str_eq_ignore_ascii_case("", "a"));
    assert!(!str_eq_ignore_ascii_case("@", "`"));
    assert!(!str_eq_ignore_ascii_case("[", "{"));
}

#[test]
fn ignoring_case_folds_ascii_letters_only() {
    assert!(!str_eq_ignore_ascii_case("\u{212A}itty", "kitty"));
    assert!(!str_eq_ignore_ascii_case("ÉCOLE", "école"));
    assert!(str_eq_ignore_ascii_case("École", "ÉCOLE"));
}

#[test]
fn matching_a_program_name_agrees_with_unicode_lowercasing() {
    for name in ["ghostty", "vscode", "wezterm"] {
        for code in 0..=0x10FFFFu32 {
            let c = match char::from_u32(code) {
                Some(c) => c,
                None => continue,
            };
            if !c.to_lowercase().all(|lowered| lowered.is_ascii()) {
                continue;
            }
            for position in 0..name.len() {
                let mut text = String::new();
                text.push_str(&name[..position]);
                text.push(c);
                text.push_str(&name[position + 1..]);
                assert_eq!(
                    str_eq_ignore_ascii_case(&text, name),
                    text.to_lowercase() == name,
                    "{:?} against {:?}",
                    text,
                    name
                );
            }
        }
    }
}

#[test]
fn matching_agrees_with_unicode_lowercasing_on_mixed_samples() {
    let samples = [
        "ghostty", "GHOSTTY", "Ghostty", "gHOSTTy", "ghostty\n", "", "g", "ghostt", "ghosttyy",
        "vscode", "VSCODE", "VsCode", "vs code", "code", "wezterm", "WEZTERM", "WezTerm",
        "wezterm-gui", "İ", "ǅ", "ß", "ＧＨＯＳＴＴＹ", "ghoſtty", "vſcode", "wezterｍ", "\u{212A}",
    ];
    for name in ["ghostty", "vscode", "wezterm"] {
        for sample in samples {
            assert_eq!(
                str_eq_ignore_ascii_case(sample, name),
                sample.to_lowercase() == name,
                "{:?} against {:?}",
                sample,
                name
            );
        }
    }
}
