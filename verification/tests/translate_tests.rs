use morsify::translate::code_for;
use morsify::translate::morsify_text;
use morsify::translate::valid_char;

#[test]
fn translate_sos() {
    let r = morsify_text(&String::from("SOS"));
    assert_eq!(r, Ok(String::from("... --- ... ")));
}

#[test]
fn translate_empty() {
    assert_eq!(morsify_text(&String::from("")), Ok(String::from("")));
}

#[test]
fn translate_invalid_character_fails() {
    assert_eq!(morsify_text(&String::from("AB!")), Err(()));
    assert_eq!(morsify_text(&String::from("?")), Err(()));
    assert_eq!(morsify_text(&String::from("a b,c")), Err(()));
}

#[test]
fn translate_case_insensitive() {
    assert_eq!(
        morsify_text(&String::from("abc")),
        morsify_text(&String::from("ABC"))
    );
    assert_eq!(
        morsify_text(&String::from("Hello World")),
        morsify_text(&String::from("hELLO wORLD"))
    );
}

#[test]
fn translate_word_separator() {
    let r = morsify_text(&String::from("HI THERE")).unwrap();
    assert_eq!(r, ".... .. | - .... . .-. . ");
    assert!(r.contains('|'));
}

#[test]
fn translate_digits() {
    assert_eq!(morsify_text(&String::from("73")), Ok(String::from("--... ...-- ")));
    assert_eq!(morsify_text(&String::from("0")), Ok(String::from("----- ")));
}

#[test]
fn translate_token_count_matches_input_length() {
    let inputs = ["SOS", "HI THERE", "a1 2b", "", "   "];
    for input in inputs {
        let encoded = morsify_text(&String::from(input)).unwrap();
        let tokens = encoded.split(' ').filter(|t| !t.is_empty()).count();
        let spaces = encoded.chars().filter(|c| *c == ' ').count();
        assert_eq!(spaces, input.len());
        assert_eq!(tokens, input.len());
    }
}

#[test]
fn code_for_table_entries() {
    assert_eq!(code_for('A'), ".-");
    assert_eq!(code_for('a'), ".-");
    assert_eq!(code_for('E'), ".");
    assert_eq!(code_for('z'), "--..");
    assert_eq!(code_for('9'), "----.");
    assert_eq!(code_for(' '), "|");
    assert_eq!(code_for('!'), "");
}

#[test]
fn valid_char_matches_character_set() {
    assert!(valid_char('A'));
    assert!(valid_char('z'));
    assert!(valid_char('0'));
    assert!(valid_char(' '));
    assert!(!valid_char('!'));
    assert!(!valid_char('|'));
    assert!(!valid_char('.'));
}
