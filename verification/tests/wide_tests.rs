use browser_select::wide::{str_to_wide, wide_to_str};

#[test]
fn decodes_plain_units() {
    assert_eq!(wide_to_str(&vec![72, 105]), "Hi");
    assert_eq!(wide_to_str(&Vec::new()), "");
}

#[test]
fn decodes_a_surrogate_pair() {
    // U+1F600 encodes as the pair D83D DE00.
    assert_eq!(wide_to_str(&vec![0xD83D, 0xDE00]), "\u{1F600}");
    assert_eq!(wide_to_str(&vec![72, 0xD83D, 0xDE00, 33]), "H\u{1F600}!");
}

#[test]
fn lone_surrogates_become_the_replacement_character() {
    assert_eq!(wide_to_str(&vec![0xD83D]), "\u{FFFD}");
    assert_eq!(wide_to_str(&vec![0xDE00, 65]), "\u{FFFD}A");
    // A high surrogate not followed by a low one is lone too.
    assert_eq!(wide_to_str(&vec![0xD83D, 66]), "\u{FFFD}B");
}

#[test]
fn encodes_with_a_terminating_zero() {
    assert_eq!(str_to_wide("Hi"), vec![72, 105, 0]);
    assert_eq!(str_to_wide(""), vec![0]);
}

#[test]
fn encodes_supplementary_characters_as_pairs() {
    assert_eq!(str_to_wide("\u{1F600}"), vec![0xD83D, 0xDE00, 0]);
}

#[test]
fn encoding_then_decoding_restores_the_text() {
    let text = "Browser \u{00E9}\u{1F600} pick";
    let mut wide = str_to_wide(text);
    assert_eq!(wide.pop(), Some(0));
    assert_eq!(wide_to_str(&wide), text);
}
