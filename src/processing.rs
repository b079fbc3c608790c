//! Text handed to and taken from the conversion engine: punctuation is
//! widened, a trailing `n` is doubled, and a sentinel closes the text so that
//! the engine makes no trailing prediction.

use vstd::prelude::*;
use itertools::Itertools;
use crate::text::{chars_of, push_char, string_of_range};

verus! {

/// Closes every text handed to the engine; stripped again from what comes back.
pub const SENTINEL: char = '§';

/// Most candidates kept from one engine answer.
pub const MAX_ENGINE_CANDIDATES: usize = 8;

/// The full-width form of an ASCII punctuation character; any other
/// character is its own form.
pub open spec fn full_width_of(c: char) -> char {
    if c == '-' { 'ー' }
    else if c == '=' { '＝' }
    else if c == '[' { '「' }
    else if c == ']' { '」' }
    else if c == ';' { '；' }
    else if c == '@' { '＠' }
    else if c == ',' { '、' }
    else if c == '.' { '。' }
    else if c == '/' { '・' }
    else if c == '!' { '！' }
    else if c == '#' { '＃' }
    else if c == '$' { '＄' }
    else if c == '%' { '％' }
    else if c == '^' { '＾' }
    else if c == '&' { '＆' }
    else if c == '*' { '＊' }
    else if c == '(' { '（' }
    else if c == ')' { '）' }
    else if c == '_' { '＿' }
    else if c == '+' { '＋' }
    else if c == '{' { '｛' }
    else if c == '}' { '｝' }
    else if c == '|' { '｜' }
    else if c == ':' { '：' }
    else if c == '"' { '”' }
    else if c == '<' { '＜' }
    else if c == '>' { '＞' }
    else if c == '?' { '？' }
    else if c == '\\' { '￥' }
    else { c }
}

/// `s` with every punctuation character widened.
pub open spec fn widened(s: Seq<char>) -> Seq<char> {
    s.map_values(|c: char| full_width_of(c))
}

/// A text that ends in a lone `n` (not preceded by another `n`), whose last
/// `n` the engine would otherwise drop.
pub open spec fn ends_in_lone_n(t: Seq<char>) -> bool {
    t.len() > 0 && t.last() == 'n' && !(t.len() > 1 && t[t.len() - 2] == 'n')
}

/// What the engine is given for `s`.
pub open spec fn pre_processed(s: Seq<char>) -> Seq<char> {
    let t = widened(s);
    let u = if ends_in_lone_n(t) { t.push('n') } else { t };
    u.push(SENTINEL)
}

/// An engine answer with one trailing sentinel removed.
pub open spec fn post_processed(s: Seq<char>) -> Seq<char> {
    if s.len() > 0 && s.last() == SENTINEL { s.drop_last() } else { s }
}

/// `s` with each value kept at its first occurrence only.
pub open spec fn first_occurrences(s: Seq<Seq<char>>) -> Seq<Seq<char>>
    decreases s.len(),
{
    if s.len() == 0 {
        s
    } else {
        let rest = first_occurrences(s.drop_last());
        if rest.contains(s.last()) { rest } else { rest.push(s.last()) }
    }
}

/// What is kept of an engine answer `c`: its first few texts, each
/// post-processed, without repeats.
pub open spec fn post_processed_candidates(c: Seq<Seq<char>>) -> Seq<Seq<char>> {
    let k = if c.len() < MAX_ENGINE_CANDIDATES { c.len() } else { MAX_ENGINE_CANDIDATES as nat };
    first_occurrences(c.take(k as int).map_values(|t: Seq<char>| post_processed(t)))
}

/// Round trip: post-processing what the engine is given for `s` gives back
/// `s` with its punctuation widened, unless `s` ends in a lone `n` (whose
/// doubling is kept).
pub proof fn lemma_pre_post_round_trip(s: Seq<char>)
    requires
        s.len() == 0 || s.last() != SENTINEL,
        !(s.len() > 0 && s.last() == 'n' && !(s.len() > 1 && s[s.len() - 2] == 'n')),
    ensures
        post_processed(pre_processed(s)) == widened(s),
{
    let t = widened(s);
    if t.len() > 0 {
        assert(t.last() == full_width_of(s.last()));
        if t.len() > 1 {
            assert(t[t.len() - 2] == full_width_of(s[s.len() - 2]));
        }
    }
    assert(!ends_in_lone_n(t));
    assert(pre_processed(s).drop_last() =~= t);
}

/// The full-width form of `c` (see `full_width_of`).
pub fn full_width(c: char) -> (r: char)
    ensures
        r == full_width_of(c),
{
    match c {
        '-' => 'ー',
        '=' => '＝',
        '[' => '「',
        ']' => '」',
        ';' => '；',
        '@' => '＠',
        ',' => '、',
        '.' => '。',
        '/' => '・',
        '!' => '！',
        '#' => '＃',
        '$' => '＄',
        '%' => '％',
        '^' => '＾',
        '&' => '＆',
        '*' => '＊',
        '(' => '（',
        ')' => '）',
        '_' => '＿',
        '+' => '＋',
        '{' => '｛',
        '}' => '｝',
        '|' => '｜',
        ':' => '：',
        '"' => '”',
        '<' => '＜',
        '>' => '＞',
        '?' => '？',
        '\\' => '￥',
        _ => c,
    }
}

/// Prepares `text` for the engine: widens punctuation, doubles a lone
/// trailing `n`, and appends the sentinel.
pub fn pre_process_text(text: &str) -> (r: String)
    ensures
        r@ == pre_processed(text@),
{
    let chars = chars_of(text);
    let mut result = String::new();
    let mut i: usize = 0;
    while i < chars.len()
        invariant
            chars@ == text@,
            i <= chars@.len(),
            result@ == widened(text@).subrange(0, i as int),
        decreases chars@.len() - i,
    {
        push_char(&mut result, full_width(chars[i]));
        assert(widened(text@).subrange(0, i + 1) =~= widened(text@).subrange(0, i as int).push(
            full_width_of(text@[i as int]),
        ));
        i = i + 1;
    }
    assert(result@ =~= widened(text@));
    let wide = chars_of(result.as_str());
    let n = wide.len();
    if n > 0 && wide[n - 1] == 'n' && !(n > 1 && wide[n - 2] == 'n') {
        push_char(&mut result, 'n');
    }
    push_char(&mut result, SENTINEL);
    result
}

/// Removes one trailing sentinel from an engine answer, if there is one.
pub fn post_process_text(text: &str) -> (r: String)
    ensures
        r@ == post_processed(text@),
{
    let chars = chars_of(text);
    let n = chars.len();
    if n > 0 && chars[n - 1] == SENTINEL {
        string_of_range(&chars, 0, n - 1)
    } else {
        assert(chars@.subrange(0, n as int) =~= text@);
        string_of_range(&chars, 0, n)
    }
}

/// Relies on `Itertools::unique`: yields each value the first time it is
/// seen, in the order of the input.
#[verifier::external_body]
fn unique_texts(v: Vec<String>) -> (r: Vec<String>)
    ensures
        r.deep_view() == first_occurrences(v.deep_view()),
{
    v.into_iter().unique().collect()
}

/// Keeps the first few texts of an engine answer, post-processes each, and
/// drops repeats (the first occurrence stays).
pub fn post_process_candidates(candidates: Vec<String>) -> (r: Vec<String>)
    ensures
        r.deep_view() == post_processed_candidates(candidates.deep_view()),
{
    let n = candidates.len();
    let k = if n < MAX_ENGINE_CANDIDATES { n } else { MAX_ENGINE_CANDIDATES };
    let mut kept: Vec<String> = Vec::new();
    let mut i: usize = 0;
    while i < k
        invariant
            k <= candidates@.len(),
            i <= k,
            kept@.len() == i,
            forall|j: int| 0 <= j < i ==> kept@[j]@ == post_processed(candidates@[j]@),
        decreases k - i,
    {
        let t = post_process_text(candidates[i].as_str());
        kept.push(t);
        i = i + 1;
    }
    assert(kept.deep_view() =~= candidates.deep_view().take(k as int).map_values(
        |t: Seq<char>| post_processed(t),
    ));
    unique_texts(kept)
}

} // verus!
