use vrclipboard_ime::processing::{post_process_candidates, post_process_text, pre_process_text};
use vrclipboard_ime::session::{AzookeyConversion, ConversionError, ConvertStep};

fn run(
    session: &mut AzookeyConversion,
    text: &str,
    queries: &mut Vec<(String, String)>,
    backend: &dyn Fn(&str, &str) -> Vec<String>,
) -> Result<String, ConversionError> {
    match session.convert(text) {
        ConvertStep::Converted(r) => Ok(r),
        ConvertStep::NeedCandidates(q) => {
            queries.push((q.text.clone(), q.context.clone()));
            let answer = backend(&q.text, &q.context);
            session.receive_candidates(answer)
        }
    }
}

fn passthrough(text: &str, _context: &str) -> Vec<String> {
    let engine_text = pre_process_text(text);
    post_process_candidates(vec![engine_text])
}

fn henkan_stub(_text: &str, _context: &str) -> Vec<String> {
    vec!["変換A".to_string(), "変換B".to_string()]
}

#[test]
fn continuing_a_word_converts_only_the_new_part() {
    let mut s = AzookeyConversion::new();
    let mut q = Vec::new();
    assert_eq!(run(&mut s, "ka", &mut q, &passthrough), Ok("ka".to_string()));
    assert_eq!(run(&mut s, "kab", &mut q, &passthrough), Ok("kab".to_string()));
    assert_eq!(q[0], ("ka".to_string(), String::new()));
    assert_eq!(q[1], ("b".to_string(), String::new()));
    assert!(!s.is_reconversion_mode());
}

#[test]
fn resubmitting_cycles_raw_then_candidates_with_wrap() {
    let mut s = AzookeyConversion::new();
    let mut q = Vec::new();
    assert_eq!(run(&mut s, "henkan", &mut q, &henkan_stub), Ok("変換A".to_string()));
    assert!(!s.is_reconversion_mode());
    let mut shown = "変換A".to_string();
    let expected = ["henkan", "変換A", "変換B", "henkan", "変換A"];
    for want in expected {
        let got = run(&mut s, &shown, &mut q, &henkan_stub).unwrap();
        assert_eq!(got, want);
        assert!(s.is_reconversion_mode());
        shown = got;
    }
    // The engine was asked once for the episode, with the raw text and an empty context.
    assert_eq!(q.len(), 2);
    assert_eq!(q[1], ("henkan".to_string(), String::new()));
}

#[test]
fn reconversion_keeps_the_common_prefix() {
    let mut s = AzookeyConversion::new();
    let mut q = Vec::new();
    let backend = |text: &str, _c: &str| -> Vec<String> {
        if text == "kanji" {
            vec!["漢字".to_string(), "感じ".to_string()]
        } else {
            vec![post_process_text(&pre_process_text(text))]
        }
    };
    assert_eq!(run(&mut s, "watashi", &mut q, &backend), Ok("watashi".to_string()));
    assert_eq!(run(&mut s, "watashikanji", &mut q, &backend), Ok("watashi漢字".to_string()));
    assert_eq!(run(&mut s, "watashi漢字", &mut q, &backend), Ok("watashikanji".to_string()));
    assert_eq!(q[2], ("kanji".to_string(), "watashi".to_string()));
    assert_eq!(run(&mut s, "watashikanji", &mut q, &backend), Ok("watashi漢字".to_string()));
    assert_eq!(run(&mut s, "watashi漢字", &mut q, &backend), Ok("watashi感じ".to_string()));
    assert_eq!(run(&mut s, "watashi感じ", &mut q, &backend), Ok("watashikanji".to_string()));
    assert_eq!(q.len(), 3);
}

#[test]
fn changed_input_ends_reconversion() {
    let mut s = AzookeyConversion::new();
    let mut q = Vec::new();
    run(&mut s, "henkan", &mut q, &henkan_stub).unwrap();
    run(&mut s, "変換A", &mut q, &henkan_stub).unwrap();
    assert!(s.is_reconversion_mode());
    match s.convert("betsu") {
        ConvertStep::NeedCandidates(query) => {
            assert_eq!(query.text, "betsu");
            assert_eq!(query.context, "");
        }
        ConvertStep::Converted(_) => panic!("stale candidate shown"),
    }
    assert!(!s.is_reconversion_mode());
    assert_eq!(s.receive_candidates(vec!["別".to_string()]), Ok("別".to_string()));
}

#[test]
fn histories_stay_bounded_and_aligned() {
    let mut s = AzookeyConversion::new();
    let mut q = Vec::new();
    for text in ["a", "ab", "abc", "abcd", "abcde", "abcde"] {
        run(&mut s, text, &mut q, &passthrough).unwrap();
        assert!(s.conversion_history().len() <= 3);
        assert_eq!(s.conversion_history().len(), s.input_history().len());
    }
    assert_eq!(s.conversion_history().len(), 3);
    assert_eq!(s.input_history()[2], "abcde");
}

#[test]
fn no_candidates_for_initial_conversion_is_an_error() {
    let mut s = AzookeyConversion::new();
    assert!(matches!(s.convert("zzz"), ConvertStep::NeedCandidates(_)));
    assert_eq!(s.receive_candidates(Vec::new()), Err(ConversionError::NoCandidates));
    assert!(s.conversion_history().is_empty());
}

#[test]
fn reconversion_without_engine_answer_falls_back_to_raw_text() {
    let mut s = AzookeyConversion::new();
    let mut q = Vec::new();
    run(&mut s, "henkan", &mut q, &henkan_stub).unwrap();
    let empty = |_t: &str, _c: &str| Vec::new();
    assert_eq!(run(&mut s, "変換A", &mut q, &empty), Ok("henkan".to_string()));
    assert_eq!(run(&mut s, "henkan", &mut q, &empty), Ok("henkan".to_string()));
}

#[test]
fn candidates_without_a_query_are_an_invalid_state() {
    let mut s = AzookeyConversion::new();
    assert_eq!(s.receive_candidates(vec!["x".to_string()]), Err(ConversionError::InvalidState));
}

#[test]
fn candidate_list_is_capped() {
    let mut s = AzookeyConversion::new();
    let mut q = Vec::new();
    let many = |_t: &str, _c: &str| -> Vec<String> { (0..20).map(|i| format!("c{}", i)).collect() };
    assert_eq!(run(&mut s, "x", &mut q, &many), Ok("c0".to_string()));
    let mut shown = "c0".to_string();
    let mut seen = Vec::new();
    for _ in 0..11 {
        shown = run(&mut s, &shown, &mut q, &many).unwrap();
        seen.push(shown.clone());
    }
    assert_eq!(seen[0], "x");
    assert_eq!(seen[9], "c8");
    assert_eq!(seen[10], "x");
}
