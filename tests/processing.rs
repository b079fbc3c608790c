use vrclipboard_ime::processing::{
    full_width, post_process_candidates, post_process_text, pre_process_text,
};

#[test]
fn pre_process_widens_punctuation_and_appends_sentinel() {
    assert_eq!(pre_process_text("ka-do,desu."), "kaーdo、desu。§");
    assert_eq!(pre_process_text("a\"b\\c?"), "a”b￥c？§");
    assert_eq!(pre_process_text(""), "§");
}

#[test]
fn pre_process_doubles_lone_trailing_n() {
    assert_eq!(pre_process_text("kan"), "kann§");
    assert_eq!(pre_process_text("kann"), "kann§");
    assert_eq!(pre_process_text("n"), "nn§");
    assert_eq!(pre_process_text("nihon!"), "nihon！§");
}

#[test]
fn post_process_strips_one_sentinel() {
    assert_eq!(post_process_text("変換§"), "変換");
    assert_eq!(post_process_text("変換§§"), "変換§");
    assert_eq!(post_process_text("変換"), "変換");
    assert_eq!(post_process_text(""), "");
}

#[test]
fn pre_post_round_trip_keeps_text_up_to_widening() {
    for text in ["kanji", "ka-do", "henkann", "nn", "a,b.c", "日本語"] {
        let widened: String = text.chars().map(full_width).collect();
        assert_eq!(post_process_text(&pre_process_text(text)), widened);
    }
    assert_eq!(post_process_text(&pre_process_text("henkan")), "henkann");
}

#[test]
fn post_process_candidates_caps_strips_and_dedups() {
    let input: Vec<String> = ["変換§", "返還§", "変換", "偏官§", "a", "b", "c", "d", "e", "f"]
        .iter()
        .map(|s| s.to_string())
        .collect();
    let out = post_process_candidates(input);
    assert_eq!(out, vec!["変換", "返還", "偏官", "a", "b", "c", "d"]);
}

#[test]
fn post_process_candidates_of_nothing_is_nothing() {
    assert!(post_process_candidates(Vec::new()).is_empty());
}
