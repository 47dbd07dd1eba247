use earningsfeed_cli::config::mask;

#[test]
fn masks_long_secret_as_first6_last3() {
    assert_eq!(mask("abc123xyz987"), "abc123...987");
}

#[test]
fn masks_exactly_ten_chars() {
    assert_eq!(mask("0123456789"), "012345...789");
}

#[test]
fn masks_short_secret_with_placeholder() {
    assert_eq!(mask("short"), "***");
}

#[test]
fn masks_nine_chars_with_placeholder() {
    assert_eq!(mask("123456789"), "***");
}

#[test]
fn masks_empty_secret_with_placeholder() {
    assert_eq!(mask(""), "***");
}

#[test]
fn masking_is_one_way() {
    // Distinct short secrets collapse to one placeholder: the masked form
    // cannot identify the secret behind it.
    assert_eq!(mask("alpha"), mask("bravo"));
}
