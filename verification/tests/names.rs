use gdext_cli::names::{
    check_identifier, hyphens_to_underscores, pascal_form, snake_form, type_suffix_form,
    upcase_trailing_d,
};
use gdext_cli::ScaffoldError;

fn ok(text: &str) -> Result<String, ScaffoldError> {
    Ok(String::from(text))
}

#[test]
fn snake_form_lowers_and_joins_with_underscores() {
    assert_eq!(snake_form("my-game"), ok("my_game"));
    assert_eq!(snake_form("My-Game"), ok("my_game"));
    assert_eq!(snake_form("PLAYER"), ok("player"));
    assert_eq!(snake_form("character-body-2d"), ok("character_body_2d"));
}

#[test]
fn snake_form_of_a_single_word_is_the_word_in_lower_case() {
    assert_eq!(snake_form("player"), ok("player"));
    assert_eq!(snake_form("Node"), ok("node"));
}

#[test]
fn snake_form_keeps_every_separator() {
    assert_eq!(snake_form("a--b"), ok("a__b"));
    assert_eq!(snake_form("-a"), ok("_a"));
    assert_eq!(snake_form("a-"), ok("a_"));
    assert_eq!(snake_form("my_game"), ok("my_game"));
}

#[test]
fn snake_form_lowers_letters_outside_ascii() {
    assert_eq!(snake_form("\u{c4}B-\u{d1}and\u{da}"), ok("\u{e4}b_\u{f1}and\u{fa}"));
    // a capital sigma at the end of a word becomes a final sigma
    assert_eq!(snake_form("\u{39f}\u{394}\u{39f}\u{3a3}"), ok("\u{3bf}\u{3b4}\u{3bf}\u{3c2}"));
}

#[test]
fn snake_form_keeps_a_capital_that_has_no_small_letter() {
    // the double-struck capital C is an upper-case letter without a lower-case mapping
    assert!('\u{2102}'.is_uppercase());
    assert_eq!(snake_form("\u{2102}-x"), ok("\u{2102}_x"));
}

#[test]
fn snake_form_is_lowercase_and_holds_no_separator() {
    let inputs = [
        "my-game", "My-Game", "A", "a-B-c", "--x--", "HELLO-WORLD-2D", "x", "Mixed_Case-Name",
        "\u{c9}t\u{c9}-\u{c0}",
    ];
    for input in inputs {
        let form = snake_form(input).unwrap();
        assert!(!form.is_empty(), "{input}");
        assert!(!form.contains('-'), "{input}");
        assert!(!form.chars().any(|c| c.is_ascii_uppercase()), "{input}");
        assert_eq!(form, form.to_lowercase(), "{input}");
    }
}

#[test]
fn snake_form_rejects_identifiers_without_a_word() {
    assert_eq!(snake_form(""), Err(ScaffoldError::InvalidIdentifier));
    assert_eq!(snake_form("-"), Err(ScaffoldError::InvalidIdentifier));
    assert_eq!(snake_form("---"), Err(ScaffoldError::InvalidIdentifier));
}

#[test]
fn pascal_form_capitalizes_each_word() {
    assert_eq!(pascal_form("my-game"), ok("MyGame"));
    assert_eq!(pascal_form("player"), ok("Player"));
    assert_eq!(pascal_form("character-body-2d"), ok("CharacterBody2d"));
    assert_eq!(pascal_form("a-b-c"), ok("ABC"));
}

#[test]
fn pascal_form_leaves_the_rest_of_a_word_unchanged() {
    assert_eq!(pascal_form("myGame"), ok("MyGame"));
    assert_eq!(pascal_form("hTTP-serVER"), ok("HTTPSerVER"));
    assert_eq!(pascal_form("my_game"), ok("My_game"));
}

#[test]
fn pascal_form_skips_empty_words() {
    assert_eq!(pascal_form("-foo"), ok("Foo"));
    assert_eq!(pascal_form("foo-"), ok("Foo"));
    assert_eq!(pascal_form("foo--bar"), ok("FooBar"));
    assert_eq!(pascal_form("--x"), ok("X"));
}

#[test]
fn pascal_form_uses_the_unicode_upper_case_mapping() {
    assert_eq!(pascal_form("\u{f1}andu"), ok("\u{d1}andu"));
    // a sharp s has a mapping of two characters
    assert_eq!(pascal_form("\u{df}a"), ok("SSa"));
    assert_eq!(pascal_form("\u{5c71}-x"), ok("\u{5c71}X"));
}

#[test]
fn pascal_form_holds_no_separator_and_starts_in_upper_case() {
    let inputs = [
        "my-game", "player", "a", "a-b", "character-body-2d", "x-1", "hello-World", "-lead",
        "trail-", "Already-Pascal", "z--z",
    ];
    for input in inputs {
        let form = pascal_form(input).unwrap();
        assert!(!form.contains('-'), "{input}");
        let first = form.chars().next().unwrap();
        assert!(first.is_ascii_uppercase(), "{input}");
    }
}

#[test]
fn pascal_form_of_a_word_that_starts_with_a_digit_starts_with_that_digit() {
    assert_eq!(pascal_form("2d-body"), ok("2dBody"));
}

#[test]
fn pascal_form_rejects_identifiers_without_a_word() {
    assert_eq!(pascal_form(""), Err(ScaffoldError::InvalidIdentifier));
    assert_eq!(pascal_form("-"), Err(ScaffoldError::InvalidIdentifier));
    assert_eq!(pascal_form("--"), Err(ScaffoldError::InvalidIdentifier));
}

#[test]
fn type_suffix_form_of_node_types() {
    assert_eq!(type_suffix_form("character-body-2d"), ok("CharacterBody2D"));
    assert_eq!(type_suffix_form("sprite-2d"), ok("Sprite2D"));
    assert_eq!(type_suffix_form("node"), ok("Node"));
    assert_eq!(type_suffix_form("node-3d"), ok("Node3D"));
}

#[test]
fn type_suffix_form_upcases_every_trailing_d() {
    // the rule is literal: any word that ends in `d` gets that letter in upper case
    assert_eq!(type_suffix_form("rigid"), ok("RigiD"));
    assert_eq!(type_suffix_form("rigid-body-3d"), ok("RigiDBody3D"));
    assert_eq!(type_suffix_form("grid-map"), ok("GriDMap"));
    assert_eq!(type_suffix_form("add"), ok("AdD"));
}

#[test]
fn type_suffix_form_of_short_words() {
    assert_eq!(type_suffix_form("d"), ok("D"));
    assert_eq!(type_suffix_form("d-d"), ok("DD"));
    assert_eq!(type_suffix_form("dd"), ok("DD"));
    assert_eq!(type_suffix_form("2D"), ok("2D"));
    assert_eq!(type_suffix_form("a"), ok("A"));
}

#[test]
fn type_suffix_form_leaves_other_letters_alone() {
    assert_eq!(type_suffix_form("characterBody-2d"), ok("CharacterBody2D"));
    assert_eq!(type_suffix_form("dog"), ok("Dog"));
    assert_eq!(type_suffix_form("area-2D"), ok("Area2D"));
}

#[test]
fn type_suffix_form_rejects_identifiers_without_a_word() {
    assert_eq!(type_suffix_form(""), Err(ScaffoldError::InvalidIdentifier));
    assert_eq!(type_suffix_form("-"), Err(ScaffoldError::InvalidIdentifier));
}

#[test]
fn derived_forms_are_never_empty() {
    let inputs = ["a", "-a", "a-", "a-b", "d", "2d", "\u{df}"];
    for input in inputs {
        assert!(!snake_form(input).unwrap().is_empty(), "{input}");
        assert!(!pascal_form(input).unwrap().is_empty(), "{input}");
        assert!(!type_suffix_form(input).unwrap().is_empty(), "{input}");
        assert!(!type_suffix_form(input).unwrap().contains('-'), "{input}");
    }
}

#[test]
fn check_identifier_wants_a_character_other_than_the_separator() {
    assert_eq!(check_identifier("a"), Ok(()));
    assert_eq!(check_identifier("--a--"), Ok(()));
    assert_eq!(check_identifier("_"), Ok(()));
    assert_eq!(check_identifier(" "), Ok(()));
    assert_eq!(check_identifier(""), Err(ScaffoldError::InvalidIdentifier));
    assert_eq!(check_identifier("-"), Err(ScaffoldError::InvalidIdentifier));
    assert_eq!(check_identifier("----"), Err(ScaffoldError::InvalidIdentifier));
}

#[test]
fn hyphens_to_underscores_replaces_each_one() {
    assert_eq!(hyphens_to_underscores("a-b-c"), "a_b_c");
    assert_eq!(hyphens_to_underscores("--"), "__");
    assert_eq!(hyphens_to_underscores("abc"), "abc");
    assert_eq!(hyphens_to_underscores(""), "");
    assert_eq!(hyphens_to_underscores("A-\u{e9}"), "A_\u{e9}");
}

#[test]
fn upcase_trailing_d_changes_only_a_last_small_d() {
    assert_eq!(upcase_trailing_d("2d"), "2D");
    assert_eq!(upcase_trailing_d("d"), "D");
    assert_eq!(upcase_trailing_d("dd"), "dD");
    assert_eq!(upcase_trailing_d("2D"), "2D");
    assert_eq!(upcase_trailing_d("Node"), "Node");
    assert_eq!(upcase_trailing_d("da"), "da");
    assert_eq!(upcase_trailing_d(""), "");
    assert_eq!(upcase_trailing_d("\u{e9}d"), "\u{e9}D");
}
