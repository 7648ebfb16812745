use zcblive::capitalize_first_letter;
use zcblive::utils::replace_first;

#[test]
fn capitalize_an_error_message() {
    assert_eq!(capitalize_first_letter("no sounds found in clickpack"), "No sounds found in clickpack");
}

#[test]
fn capitalize_nothing() {
    assert_eq!(capitalize_first_letter(""), "");
}

#[test]
fn capitalize_one_letter() {
    assert_eq!(capitalize_first_letter("a"), "A");
    assert_eq!(capitalize_first_letter("Z"), "Z");
}

#[test]
fn capitalize_what_has_no_upper_case() {
    assert_eq!(capitalize_first_letter("1 sound"), "1 sound");
    assert_eq!(capitalize_first_letter(" space"), " space");
}

#[test]
fn capitalize_beyond_ascii() {
    assert_eq!(capitalize_first_letter("écoute"), "Écoute");
    assert_eq!(capitalize_first_letter("ßa"), "SSa");
    assert_eq!(capitalize_first_letter("жук"), "Жук");
}

#[test]
fn capitalize_leaves_the_rest() {
    assert_eq!(capitalize_first_letter("failed To LOAD"), "Failed To LOAD");
}

#[test]
fn replace_first_character() {
    assert_eq!(replace_first("hello", String::from("J")), "Jello");
    assert_eq!(replace_first("hello", String::new()), "ello");
    assert_eq!(replace_first("x", String::from("abc")), "abc");
    assert_eq!(replace_first("", String::from("abc")), "abc");
    assert_eq!(replace_first("écoute", String::from("E")), "Ecoute");
}
