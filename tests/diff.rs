use vrclipboard_ime::diff::find_first_difference;

#[test]
fn first_difference_at_mismatch() {
    assert_eq!(find_first_difference("kanji", "kanzi"), 3);
    assert_eq!(find_first_difference("abc", "xbc"), 0);
}

#[test]
fn first_difference_counts_characters_not_bytes() {
    assert_eq!(find_first_difference("かんじ", "かんぜ"), 2);
    assert_eq!(find_first_difference("変換a", "変換b"), 2);
}

#[test]
fn first_difference_prefix_gives_shorter_length() {
    assert_eq!(find_first_difference("ka", "kab"), 2);
    assert_eq!(find_first_difference("kab", "ka"), 2);
    assert_eq!(find_first_difference("", "henkan"), 0);
    assert_eq!(find_first_difference("henkan", ""), 0);
    assert_eq!(find_first_difference("変", "変換"), 1);
}

#[test]
fn first_difference_of_equal_texts_is_zero() {
    assert_eq!(find_first_difference("henkan", "henkan"), 0);
    assert_eq!(find_first_difference("", ""), 0);
}
