use quick_picker::accel::{
    parse, KeyCode, Modifiers, ParseError, ParsedAccelerator, Platform,
};

fn mods(control: bool, alt: bool, shift: bool, meta: bool) -> Modifiers {
    Modifiers { control, alt, shift, meta }
}

#[test]
fn parses_default_accelerator_on_other() {
    assert_eq!(
        parse("CommandOrControl+Shift+P", Platform::Other),
        Ok(ParsedAccelerator { mods: mods(true, false, true, false), key: KeyCode::KeyP })
    );
}

#[test]
fn parses_default_accelerator_on_macos() {
    assert_eq!(
        parse("CommandOrControl+Shift+P", Platform::MacOs),
        Ok(ParsedAccelerator { mods: mods(false, false, true, true), key: KeyCode::KeyP })
    );
}

#[test]
fn parse_is_deterministic_on_same_input() {
    let a = parse("Ctrl+Alt+5", Platform::Other);
    let b = parse("Ctrl+Alt+5", Platform::Other);
    assert_eq!(a, b);
    assert_eq!(
        a,
        Ok(ParsedAccelerator { mods: mods(true, true, false, false), key: KeyCode::Digit5 })
    );
}

#[test]
fn all_modifier_spellings_parse() {
    let control = mods(true, false, false, false);
    let alt = mods(false, true, false, false);
    let shift = mods(false, false, true, false);
    let meta = mods(false, false, false, true);
    assert_eq!(
        parse("Ctrl+A", Platform::Other),
        Ok(ParsedAccelerator { mods: control, key: KeyCode::KeyA })
    );
    assert_eq!(
        parse("Control+A", Platform::Other),
        Ok(ParsedAccelerator { mods: control, key: KeyCode::KeyA })
    );
    assert_eq!(
        parse("Alt+Z", Platform::Other),
        Ok(ParsedAccelerator { mods: alt, key: KeyCode::KeyZ })
    );
    assert_eq!(
        parse("Option+Z", Platform::Other),
        Ok(ParsedAccelerator { mods: alt, key: KeyCode::KeyZ })
    );
    assert_eq!(
        parse("Shift+0", Platform::Other),
        Ok(ParsedAccelerator { mods: shift, key: KeyCode::Digit0 })
    );
    assert_eq!(
        parse("Meta+9", Platform::Other),
        Ok(ParsedAccelerator { mods: meta, key: KeyCode::Digit9 })
    );
    assert_eq!(
        parse("Cmd+B", Platform::MacOs),
        Ok(ParsedAccelerator { mods: meta, key: KeyCode::KeyB })
    );
    assert_eq!(
        parse("Command+B", Platform::MacOs),
        Ok(ParsedAccelerator { mods: meta, key: KeyCode::KeyB })
    );
    assert_eq!(
        parse("Cmd+B", Platform::Other),
        Ok(ParsedAccelerator { mods: control, key: KeyCode::KeyB })
    );
}

#[test]
fn named_keys_parse() {
    let none = mods(false, false, false, false);
    assert_eq!(
        parse("Space", Platform::Other),
        Ok(ParsedAccelerator { mods: none, key: KeyCode::Space })
    );
    assert_eq!(
        parse("Enter", Platform::Other),
        Ok(ParsedAccelerator { mods: none, key: KeyCode::Enter })
    );
    assert_eq!(
        parse("Tab", Platform::Other),
        Ok(ParsedAccelerator { mods: none, key: KeyCode::Tab })
    );
    assert_eq!(
        parse("Escape", Platform::Other),
        Ok(ParsedAccelerator { mods: none, key: KeyCode::Escape })
    );
    assert_eq!(
        parse("Backspace", Platform::Other),
        Ok(ParsedAccelerator { mods: none, key: KeyCode::Backspace })
    );
    assert_eq!(
        parse("Shift+delete", Platform::Other),
        Ok(ParsedAccelerator { mods: mods(false, false, true, false), key: KeyCode::Delete })
    );
}

#[test]
fn key_token_is_case_normalized() {
    assert_eq!(
        parse("Ctrl+p", Platform::Other),
        Ok(ParsedAccelerator { mods: mods(true, false, false, false), key: KeyCode::KeyP })
    );
}

#[test]
fn tokens_are_trimmed() {
    assert_eq!(
        parse("Ctrl + P", Platform::Other),
        Ok(ParsedAccelerator { mods: mods(true, false, false, false), key: KeyCode::KeyP })
    );
}

#[test]
fn empty_input_fails_with_empty_input() {
    assert_eq!(parse("", Platform::Other), Err(ParseError::EmptyInput));
    assert_eq!(parse("", Platform::MacOs), Err(ParseError::EmptyInput));
}

#[test]
fn trailing_empty_key_fails_with_unknown_key() {
    assert_eq!(
        parse("Ctrl+", Platform::Other),
        Err(ParseError::UnknownKey(String::new()))
    );
}

#[test]
fn unknown_key_is_reported_upper_cased() {
    assert_eq!(
        parse("Ctrl+Foo", Platform::Other),
        Err(ParseError::UnknownKey("FOO".to_string()))
    );
}

#[test]
fn unknown_modifier_is_reported_verbatim() {
    assert_eq!(
        parse("Xyz+A", Platform::Other),
        Err(ParseError::UnknownModifier("Xyz".to_string()))
    );
}

#[test]
fn modifiers_are_case_sensitive() {
    assert_eq!(
        parse("ctrl+P", Platform::Other),
        Err(ParseError::UnknownModifier("ctrl".to_string()))
    );
}

#[test]
fn error_messages_read_as_plain_text() {
    assert_eq!(ParseError::EmptyInput.message().as_str(), "Empty shortcut");
    assert_eq!(
        ParseError::UnknownModifier("Xyz".to_string()).message().as_str(),
        "Unknown modifier: Xyz"
    );
    assert_eq!(
        ParseError::UnknownKey("FOO".to_string()).message().as_str(),
        "Unknown key: FOO"
    );
}

#[test]
fn free_text_fails_with_unknown_key() {
    assert_eq!(
        parse("not a shortcut", Platform::Other),
        Err(ParseError::UnknownKey("NOT A SHORTCUT".to_string()))
    );
}
