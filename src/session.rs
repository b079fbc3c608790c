//! The conversion session: bounded input/output histories, the
//! Fresh/Reconversion mode, and candidate cycling.
//!
//! The session never talks to the conversion engine itself. `convert` either
//! answers from the candidates it already holds, or returns the query the
//! engine must answer (reset the composing text, insert `text`, request
//! candidates for `context`); the engine's answer is then handed to
//! `receive_candidates`.

use vstd::prelude::*;
use crate::diff::{first_difference_of, find_first_difference, lemma_common_prefix_len_facts};
use crate::text::{chars_of, same_text, string_of_range};
use vstd::arithmetic::div_mod::{lemma_add_mod_noop, lemma_mod_self_0, lemma_small_mod};

verus! {

/// Entries kept in each history.
pub const MAX_HISTORY_SIZE: usize = 3;

/// Most candidates kept for one reconversion episode, raw text included.
pub const MAX_CANDIDATES: usize = 10;

/// Why a conversion gave no text.
#[derive(Clone, Copy, Debug, PartialEq, Eq, Structural)]
pub enum ConversionError {
    /// The engine had no candidate for an initial conversion.
    NoCandidates,
    /// Candidates arrived while no query was waiting for them.
    InvalidState,
}

/// A query for the conversion engine: reset its composing text, insert
/// `text`, then request candidates with `context` as left context.
pub struct CandidateQuery {
    pub text: String,
    pub context: String,
}

/// What one call of `convert` produced.
pub enum ConvertStep {
    /// The conversion result, already recorded in the histories.
    Converted(String),
    /// The engine must answer this query; its candidates go to
    /// `receive_candidates`.
    NeedCandidates(CandidateQuery),
}

/// What `convert` produced, in mathematical terms.
pub enum StepModel {
    Converted(Seq<char>),
    Query { text: Seq<char>, context: Seq<char> },
}

/// What a query in flight is for.
pub enum PendingModel {
    /// An initial conversion of `input`, whose result starts with `prefix`.
    Initial { prefix: Seq<char>, input: Seq<char> },
    /// The first step of a reconversion episode of `input`: `delta` is the raw
    /// candidate, `prefix` the part kept in front of every candidate.
    Cycle { prefix: Seq<char>, delta: Seq<char>, input: Seq<char> },
}

/// The session in mathematical terms.
pub struct SessionModel {
    pub outputs: Seq<Seq<char>>,
    pub inputs: Seq<Seq<char>>,
    pub reconverting: bool,
    pub prefix: Option<Seq<char>>,
    pub candidates: Option<Seq<Seq<char>>>,
    pub index: Option<nat>,
    pub pending: Option<PendingModel>,
}

impl SessionModel {
    /// A session before its first conversion.
    pub open spec fn empty() -> SessionModel {
        SessionModel {
            outputs: Seq::empty(),
            inputs: Seq::empty(),
            reconverting: false,
            prefix: None,
            candidates: None,
            index: None,
            pending: None,
        }
    }

    /// The histories are bounded and aligned; the episode state is all absent
    /// in Fresh mode and, once candidates exist, all present and in range.
    pub open spec fn wf(self) -> bool {
        &&& self.outputs.len() <= MAX_HISTORY_SIZE
        &&& self.inputs.len() == self.outputs.len()
        &&& !self.reconverting ==> self.prefix is None && self.candidates is None
            && self.index is None
        &&& self.prefix is Some <==> self.candidates is Some
        &&& self.candidates is Some <==> self.index is Some
        &&& self.candidates is Some ==> {
            let c = self.candidates->0;
            0 < c.len() <= MAX_CANDIDATES && self.index->0 < c.len() && self.outputs.len() > 0
        }
        &&& match self.pending {
            Some(PendingModel::Initial { .. }) => !self.reconverting,
            Some(PendingModel::Cycle { .. }) => self.reconverting && self.candidates is None,
            None => true,
        }
    }
}

/// Whether `text` is the last result shown.
pub open spec fn is_repeat(m: SessionModel, text: Seq<char>) -> bool {
    m.outputs.len() > 0 && m.outputs.last() == text
}

/// The entry `offset` places from the end of `h` (1 is the last), or empty.
pub open spec fn history_entry(h: Seq<Seq<char>>, offset: int) -> Seq<char> {
    if 1 <= offset <= h.len() {
        h[h.len() - offset]
    } else {
        Seq::empty()
    }
}

/// `h` with `x` appended and the oldest entries dropped beyond the bound.
pub open spec fn bounded_push(h: Seq<Seq<char>>, x: Seq<char>) -> Seq<Seq<char>> {
    let full = h.push(x);
    if full.len() > MAX_HISTORY_SIZE {
        full.subrange(full.len() - MAX_HISTORY_SIZE, full.len() as int)
    } else {
        full
    }
}

/// The cursor after `i` in a list of `n` candidates, wrapping to 0.
pub open spec fn next_index(i: nat, n: nat) -> nat {
    if i + 1 < n {
        (i + 1) as nat
    } else {
        0
    }
}

/// `s` cut to at most `MAX_CANDIDATES` entries.
pub open spec fn capped(s: Seq<Seq<char>>) -> Seq<Seq<char>> {
    if s.len() > MAX_CANDIDATES {
        s.take(MAX_CANDIDATES as int)
    } else {
        s
    }
}

/// `m` with its reconversion episode ended.
pub open spec fn reset_episode(m: SessionModel) -> SessionModel {
    SessionModel { reconverting: false, prefix: None, candidates: None, index: None, ..m }
}

/// One call of `convert(text)`: the next session and what it produces.
pub open spec fn convert_step(m: SessionModel, text: Seq<char>) -> (SessionModel, StepModel) {
    let repeat = is_repeat(m, text);
    let m0 = SessionModel { pending: None, ..m };
    let m1 = if !repeat && m.reconverting { reset_episode(m0) } else { m0 };
    if !m1.reconverting && !repeat {
        let prev = history_entry(m.outputs, 1);
        let k = first_difference_of(prev, text) as int;
        (
            SessionModel {
                pending: Some(PendingModel::Initial { prefix: text.take(k), input: text }),
                ..m1
            },
            StepModel::Query { text: text.skip(k), context: Seq::empty() },
        )
    } else if m1.candidates is None {
        let prev_out = history_entry(m.outputs, 2);
        let prev_in = history_entry(m.inputs, 1);
        let k = first_difference_of(prev_in, prev_out) as int;
        (
            SessionModel {
                reconverting: true,
                pending: Some(
                    PendingModel::Cycle {
                        prefix: prev_in.take(k),
                        delta: prev_in.skip(k),
                        input: text,
                    },
                ),
                ..m1
            },
            StepModel::Query { text: prev_in.skip(k), context: prev_in.take(k) },
        )
    } else {
        let c = m1.candidates->0;
        let i = next_index(m1.index->0, c.len());
        let out = m1.prefix->0 + c[i as int];
        (
            SessionModel {
                reconverting: true,
                index: Some(i),
                outputs: bounded_push(m.outputs, out),
                inputs: bounded_push(m.inputs, text),
                ..m1
            },
            StepModel::Converted(out),
        )
    }
}

/// Handing the engine's candidates `cands` to the session: the next session
/// and the conversion result.
pub open spec fn receive_step(m: SessionModel, cands: Seq<Seq<char>>) -> (
    SessionModel,
    Result<Seq<char>, ConversionError>,
) {
    let m0 = SessionModel { pending: None, ..m };
    match m.pending {
        None => (m, Err(ConversionError::InvalidState)),
        Some(PendingModel::Initial { prefix, input }) => {
            if cands.len() == 0 {
                (m0, Err(ConversionError::NoCandidates))
            } else {
                let out = prefix + cands[0];
                (
                    SessionModel {
                        outputs: bounded_push(m.outputs, out),
                        inputs: bounded_push(m.inputs, input),
                        ..m0
                    },
                    Ok(out),
                )
            }
        },
        Some(PendingModel::Cycle { prefix, delta, input }) => {
            let list = capped(seq![delta] + cands);
            let out = prefix + list[0];
            (
                SessionModel {
                    outputs: bounded_push(m.outputs, out),
                    inputs: bounded_push(m.inputs, input),
                    reconverting: true,
                    prefix: Some(prefix),
                    candidates: Some(list),
                    index: Some(0),
                    ..m0
                },
                Ok(out),
            )
        },
    }
}

impl View for CandidateQuery {
    type V = StepModel;

    open spec fn view(&self) -> StepModel {
        StepModel::Query { text: self.text@, context: self.context@ }
    }
}

impl View for ConvertStep {
    type V = StepModel;

    open spec fn view(&self) -> StepModel {
        match self {
            ConvertStep::Converted(s) => StepModel::Converted(s@),
            ConvertStep::NeedCandidates(q) => q@,
        }
    }
}

/// The query in flight, as held by the session.
enum PendingQuery {
    Initial { prefix: String, input: String },
    Cycle { prefix: String, delta: String, input: String },
}

impl View for PendingQuery {
    type V = PendingModel;

    closed spec fn view(&self) -> PendingModel {
        match self {
            PendingQuery::Initial { prefix, input } => PendingModel::Initial {
                prefix: prefix@,
                input: input@,
            },
            PendingQuery::Cycle { prefix, delta, input } => PendingModel::Cycle {
                prefix: prefix@,
                delta: delta@,
                input: input@,
            },
        }
    }
}

/// Incremental romaji-to-kanji conversion with candidate cycling on
/// repeated input.
pub struct AzookeyConversion {
    conversion_history: Vec<String>,
    input_history: Vec<String>,
    is_reconversion_mode: bool,
    reconversion_candidates: Option<Vec<String>>,
    candidate_index: Option<usize>,
    common_prefix: Option<String>,
    pending: Option<PendingQuery>,
}

impl View for AzookeyConversion {
    type V = SessionModel;

    closed spec fn view(&self) -> SessionModel {
        SessionModel {
            outputs: self.conversion_history.deep_view(),
            inputs: self.input_history.deep_view(),
            reconverting: self.is_reconversion_mode,
            prefix: match self.common_prefix {
                Some(p) => Some(p@),
                None => None,
            },
            candidates: match self.reconversion_candidates {
                Some(c) => Some(c.deep_view()),
                None => None,
            },
            index: match self.candidate_index {
                Some(i) => Some(i as nat),
                None => None,
            },
            pending: match self.pending {
                Some(p) => Some(p@),
                None => None,
            },
        }
    }
}

/// Appends `x` to `h` and drops the oldest entries beyond the bound.
fn push_bounded(h: &mut Vec<String>, x: String)
    ensures
        final(h).deep_view() == bounded_push(old(h).deep_view(), x@),
{
    let ghost full = old(h).deep_view().push(x@);
    h.push(x);
    assert(h.deep_view() =~= full);
    while h.len() > MAX_HISTORY_SIZE
        invariant
            h@.len() <= full.len(),
            full.len() > MAX_HISTORY_SIZE ==> h@.len() >= MAX_HISTORY_SIZE,
            full.len() <= MAX_HISTORY_SIZE ==> h@.len() == full.len(),
            h.deep_view() =~= full.subrange(full.len() - h@.len(), full.len() as int),
        decreases h@.len(),
    {
        let ghost before = h.deep_view();
        h.remove(0);
        assert(h.deep_view() =~= before.drop_first());
    }
    assert(full.len() <= MAX_HISTORY_SIZE ==> full.subrange(0, full.len() as int) =~= full);
}

/// `a` followed by `b`.
fn joined(a: &String, b: &String) -> (r: String)
    ensures
        r@ == a@ + b@,
{
    let mut r = a.clone();
    r.append(b.as_str());
    r
}

impl AzookeyConversion {
    /// A session in Fresh mode with empty histories.
    pub fn new() -> (r: AzookeyConversion)
        ensures
            r@ == SessionModel::empty(),
            r@.wf(),
    {
        let r = AzookeyConversion {
            conversion_history: Vec::new(),
            input_history: Vec::new(),
            is_reconversion_mode: false,
            reconversion_candidates: None,
            candidate_index: None,
            common_prefix: None,
            pending: None,
        };
        assert(r.conversion_history.deep_view() =~= Seq::<Seq<char>>::empty());
        assert(r.input_history.deep_view() =~= Seq::<Seq<char>>::empty());
        r
    }

    /// Whether a reconversion episode is in progress.
    pub fn is_reconversion_mode(&self) -> (r: bool)
        ensures
            r == self@.reconverting,
    {
        self.is_reconversion_mode
    }

    /// The recent conversion results, oldest first.
    pub fn conversion_history(&self) -> (r: &Vec<String>)
        ensures
            r.deep_view() == self@.outputs,
    {
        &self.conversion_history
    }

    /// The inputs the recent results were made from, oldest first.
    pub fn input_history(&self) -> (r: &Vec<String>)
        ensures
            r.deep_view() == self@.inputs,
    {
        &self.input_history
    }
}

/// The first `k` characters of `s`, and the rest.
fn split_chars(s: &str, k: usize) -> (r: (String, String))
    requires
        k <= s@.len(),
    ensures
        r.0@ == s@.take(k as int),
        r.1@ == s@.skip(k as int),
{
    let chars = chars_of(s);
    (string_of_range(&chars, 0, k), string_of_range(&chars, k, chars.len()))
}

impl AzookeyConversion {
    /// Whether `text` is the last result shown.
    fn is_same_as_last_conversion(&self, text: &str) -> (r: bool)
        ensures
            r == is_repeat(self@, text@),
    {
        let n = self.conversion_history.len();
        if n == 0 {
            false
        } else {
            same_text(text, &self.conversion_history[n - 1])
        }
    }

    /// Ends the reconversion episode.
    fn reset_reconversion_state(&mut self)
        ensures
            final(self)@ == reset_episode(old(self)@),
    {
        self.is_reconversion_mode = false;
        self.common_prefix = None;
        self.candidate_index = None;
        self.reconversion_candidates = None;
    }

    /// The output `offset` places from the end (1 is the last), or empty.
    fn get_previous_output(&self, offset: usize) -> (r: String)
        ensures
            r@ == history_entry(self@.outputs, offset as int),
    {
        let n = self.conversion_history.len();
        if 1 <= offset && offset <= n {
            self.conversion_history[n - offset].clone()
        } else {
            String::new()
        }
    }

    /// The input `offset` places from the end (1 is the last), or empty.
    fn get_previous_input(&self, offset: usize) -> (r: String)
        ensures
            r@ == history_entry(self@.inputs, offset as int),
    {
        let n = self.input_history.len();
        if 1 <= offset && offset <= n {
            self.input_history[n - offset].clone()
        } else {
            String::new()
        }
    }

    /// Records a result and the input it was made from.
    fn update_history(&mut self, conversion: String, input: String)
        ensures
            final(self)@ == (SessionModel {
                outputs: bounded_push(old(self)@.outputs, conversion@),
                inputs: bounded_push(old(self)@.inputs, input@),
                ..old(self)@
            }),
    {
        push_bounded(&mut self.conversion_history, conversion);
        push_bounded(&mut self.input_history, input);
    }

    /// Initial conversion: only what follows the part of `text` shared with
    /// the last result goes to the engine.
    fn convert_roman_to_kanji(&mut self, text: &str) -> (r: CandidateQuery)
        ensures
            ({
                let k = first_difference_of(history_entry(old(self)@.outputs, 1), text@) as int;
                &&& final(self)@ == (SessionModel {
                    pending: Some(PendingModel::Initial { prefix: text@.take(k), input: text@ }),
                    ..old(self)@
                })
                &&& r@ == (StepModel::Query { text: text@.skip(k), context: Seq::empty() })
            }),
    {
        let previous = self.get_previous_output(1);
        let k = find_first_difference(previous.as_str(), text);
        proof {
            lemma_common_prefix_len_facts(previous@, text@);
        }
        let (prefix, delta) = split_chars(text, k);
        self.pending = Some(PendingQuery::Initial { prefix, input: String::from_str(text) });
        CandidateQuery { text: delta, context: String::new() }
    }

    /// First step of a reconversion episode: the raw text is recovered from
    /// the previous input and the output before it.
    fn prepare_reconversion(&mut self, text: &str) -> (r: CandidateQuery)
        ensures
            ({
                let prev_in = history_entry(old(self)@.inputs, 1);
                let prev_out = history_entry(old(self)@.outputs, 2);
                let k = first_difference_of(prev_in, prev_out) as int;
                &&& final(self)@ == (SessionModel {
                    pending: Some(
                        PendingModel::Cycle {
                            prefix: prev_in.take(k),
                            delta: prev_in.skip(k),
                            input: text@,
                        },
                    ),
                    ..old(self)@
                })
                &&& r@ == (StepModel::Query { text: prev_in.skip(k), context: prev_in.take(k) })
            }),
    {
        let previous_output = self.get_previous_output(2);
        let previous_input = self.get_previous_input(1);
        let k = find_first_difference(previous_input.as_str(), previous_output.as_str());
        proof {
            lemma_common_prefix_len_facts(previous_input@, previous_output@);
        }
        let (prefix, delta) = split_chars(previous_input.as_str(), k);
        self.pending = Some(
            PendingQuery::Cycle {
                prefix: prefix.clone(),
                delta: delta.clone(),
                input: String::from_str(text),
            },
        );
        CandidateQuery { text: delta, context: prefix }
    }

    /// Advances the cursor (wrapping to 0) and records the chosen candidate.
    fn select_next_candidate(&mut self, text: &str) -> (r: String)
        requires
            old(self)@.wf(),
            old(self)@.candidates is Some,
        ensures
            ({
                let m = old(self)@;
                let c = m.candidates->0;
                let i = next_index(m.index->0, c.len());
                let out = m.prefix->0 + c[i as int];
                &&& r@ == out
                &&& final(self)@ == (SessionModel {
                    index: Some(i),
                    outputs: bounded_push(m.outputs, out),
                    inputs: bounded_push(m.inputs, text@),
                    ..m
                })
            }),
    {
        let n = self.reconversion_candidates.as_ref().unwrap().len();
        let i = self.candidate_index.unwrap();
        let next = if i + 1 < n { i + 1 } else { 0 };
        self.candidate_index = Some(next);
        let result = joined(
            self.common_prefix.as_ref().unwrap(),
            &self.reconversion_candidates.as_ref().unwrap()[next],
        );
        self.update_history(result.clone(), String::from_str(text));
        result
    }

    /// Starts a conversion of `text`. Changed input ends any reconversion
    /// episode and is converted incrementally; the last result given again
    /// cycles through candidates. Either the result comes back at once, or
    /// the query the engine must answer before `receive_candidates`.
    pub fn convert(&mut self, text: &str) -> (r: ConvertStep)
        requires
            old(self)@.wf(),
        ensures
            final(self)@ == convert_step(old(self)@, text@).0,
            r@ == convert_step(old(self)@, text@).1,
            final(self)@.wf(),
    {
        let repeat = self.is_same_as_last_conversion(text);
        self.pending = None;
        if !repeat && self.is_reconversion_mode {
            self.reset_reconversion_state();
        }
        if !self.is_reconversion_mode && !repeat {
            ConvertStep::NeedCandidates(self.convert_roman_to_kanji(text))
        } else {
            self.is_reconversion_mode = true;
            if self.reconversion_candidates.is_none() {
                ConvertStep::NeedCandidates(self.prepare_reconversion(text))
            } else {
                ConvertStep::Converted(self.select_next_candidate(text))
            }
        }
    }

    /// Completes the conversion started by `convert` with the engine's
    /// candidates (already post-processed, best first). An initial
    /// conversion takes the first candidate; a reconversion episode keeps the
    /// raw text followed by the candidates and shows the raw text first.
    pub fn receive_candidates(&mut self, candidates: Vec<String>) -> (r: Result<String, ConversionError>)
        requires
            old(self)@.wf(),
        ensures
            final(self)@ == receive_step(old(self)@, candidates.deep_view()).0,
            receive_step(old(self)@, candidates.deep_view()).1 == match r {
                Ok(s) => Ok(s@),
                Err(e) => Err::<Seq<char>, ConversionError>(e),
            },
            final(self)@.wf(),
    {
        match self.pending.take() {
            None => Err(ConversionError::InvalidState),
            Some(PendingQuery::Initial { prefix, input }) => {
                if candidates.len() == 0 {
                    Err(ConversionError::NoCandidates)
                } else {
                    let result = joined(&prefix, &candidates[0]);
                    self.update_history(result.clone(), input);
                    Ok(result)
                }
            },
            Some(PendingQuery::Cycle { prefix, delta, input }) => {
                let ghost raw = delta@;
                let mut list = candidates;
                list.insert(0, delta);
                if list.len() > MAX_CANDIDATES {
                    list.truncate(MAX_CANDIDATES);
                }
                assert(list.deep_view() =~= capped(seq![raw] + candidates.deep_view()));
                let result = joined(&prefix, &list[0]);
                self.is_reconversion_mode = true;
                self.common_prefix = Some(prefix);
                self.reconversion_candidates = Some(list);
                self.candidate_index = Some(0);
                self.update_history(result.clone(), input);
                Ok(result)
            },
        }
    }
}

/// The session after the last shown result has been given `n` more times.
pub open spec fn resubmitted(m: SessionModel, n: nat) -> SessionModel
    decreases n,
{
    if n == 0 {
        m
    } else {
        let prev = resubmitted(m, (n - 1) as nat);
        convert_step(prev, prev.outputs.last()).0
    }
}

/// A bounded push adds one entry, up to `MAX_HISTORY_SIZE` in all, and ends
/// with the new entry.
pub proof fn lemma_bounded_push(h: Seq<Seq<char>>, x: Seq<char>)
    requires
        h.len() <= MAX_HISTORY_SIZE,
    ensures
        bounded_push(h, x).len() == if h.len() < MAX_HISTORY_SIZE { h.len() + 1 } else { MAX_HISTORY_SIZE as nat },
        bounded_push(h, x).last() == x,
{
}

/// From a well-formed session, every `convert` and every
/// `receive_candidates` leads to a well-formed session.
pub proof fn lemma_steps_keep_wf(m: SessionModel, text: Seq<char>, cands: Seq<Seq<char>>)
    requires
        m.wf(),
    ensures
        convert_step(m, text).0.wf(),
        receive_step(m, cands).0.wf(),
        convert_step(m, text).0.outputs.len() <= MAX_HISTORY_SIZE,
        convert_step(m, text).0.inputs.len() == convert_step(m, text).0.outputs.len(),
        receive_step(m, cands).0.outputs.len() <= MAX_HISTORY_SIZE,
        receive_step(m, cands).0.inputs.len() == receive_step(m, cands).0.outputs.len(),
{
    lemma_bounded_push(m.outputs, text);
    lemma_bounded_push(m.inputs, text);
    if m.candidates is Some {
        let c = m.candidates->0;
        let out = m.prefix->0 + c[next_index(m.index->0, c.len()) as int];
        lemma_bounded_push(m.outputs, out);
    }
    match m.pending {
        Some(PendingModel::Initial { prefix, input }) => {
            if cands.len() > 0 {
                lemma_bounded_push(m.outputs, prefix + cands[0]);
                lemma_bounded_push(m.inputs, input);
            }
        },
        Some(PendingModel::Cycle { prefix, delta, input }) => {
            let list = capped(seq![delta] + cands);
            lemma_bounded_push(m.outputs, prefix + list[0]);
            lemma_bounded_push(m.inputs, input);
        },
        None => {},
    }
}

/// One call on a session: `convert` of a text, or `receive_candidates` of an
/// engine answer.
pub enum SessionCall {
    Convert(Seq<char>),
    Receive(Seq<Seq<char>>),
}

/// The session after `calls`, made in order, starting from `m`.
pub open spec fn after_calls(m: SessionModel, calls: Seq<SessionCall>) -> SessionModel
    decreases calls.len(),
{
    if calls.len() == 0 {
        m
    } else {
        let prev = after_calls(m, calls.drop_last());
        match calls.last() {
            SessionCall::Convert(text) => convert_step(prev, text).0,
            SessionCall::Receive(cands) => receive_step(prev, cands).0,
        }
    }
}

/// History bound: after any sequence of calls on a new session, both
/// histories hold at most three entries, and always the same number.
pub proof fn lemma_history_bound(calls: Seq<SessionCall>)
    ensures
        after_calls(SessionModel::empty(), calls).wf(),
        after_calls(SessionModel::empty(), calls).outputs.len() <= MAX_HISTORY_SIZE,
        after_calls(SessionModel::empty(), calls).inputs.len() == after_calls(
            SessionModel::empty(),
            calls,
        ).outputs.len(),
    decreases calls.len(),
{
    if calls.len() > 0 {
        lemma_history_bound(calls.drop_last());
        let prev = after_calls(SessionModel::empty(), calls.drop_last());
        match calls.last() {
            SessionCall::Convert(text) => lemma_steps_keep_wf(prev, text, Seq::empty()),
            SessionCall::Receive(cands) => lemma_steps_keep_wf(prev, Seq::empty(), cands),
        }
    }
}

/// Changed input during a reconversion episode always ends the episode and
/// starts an initial conversion of that input; no stale candidate is shown.
pub proof fn lemma_changed_input_resets(m: SessionModel, text: Seq<char>)
    requires
        m.wf(),
        m.reconverting,
        !is_repeat(m, text),
    ensures
        ({
            let (next, step) = convert_step(m, text);
            let k = first_difference_of(history_entry(m.outputs, 1), text) as int;
            &&& !next.reconverting
            &&& next.prefix is None && next.candidates is None && next.index is None
            &&& next.pending == Some(PendingModel::Initial { prefix: text.take(k), input: text })
            &&& step == StepModel::Query { text: text.skip(k), context: Seq::empty() }
        }),
{
}

/// Once candidates exist, giving the last shown result again `n` times moves
/// the cursor `n` places forward with wrap-around, keeps the list, and shows
/// the common prefix followed by the candidate under the cursor.
pub proof fn lemma_resubmission_cycles(m: SessionModel, n: nat)
    requires
        m.wf(),
        m.candidates is Some,
        n > 0,
    ensures
        ({
            let c = m.candidates->0;
            let r = resubmitted(m, n);
            let i = ((m.index->0 + n) as int % (c.len() as int)) as nat;
            &&& r.wf()
            &&& r.reconverting
            &&& r.candidates == m.candidates
            &&& r.prefix == m.prefix
            &&& r.index == Some(i)
            &&& r.outputs.last() == m.prefix->0 + c[i as int]
        }),
    decreases n,
{
    let c = m.candidates->0;
    let len = c.len() as int;
    let prev = resubmitted(m, (n - 1) as nat);
    let x = (m.index->0 + n - 1) as int;
    if n == 1 {
        lemma_small_mod(m.index->0, len as nat);
    } else {
        lemma_resubmission_cycles(m, (n - 1) as nat);
    }
    let j = prev.index->0;
    assert(j == x % len);
    lemma_steps_keep_wf(prev, prev.outputs.last(), Seq::empty());
    if j + 1 < len {
        lemma_small_mod((j + 1) as nat, len as nat);
        lemma_add_mod_noop(x, 1, len);
        if len > 1 {
            lemma_small_mod(1, len as nat);
        }
        assert((x + 1) % len == j + 1);
    } else {
        assert(j + 1 == len);
        lemma_mod_self_0(len);
        lemma_add_mod_noop(x, 1, len);
        if len > 1 {
            lemma_small_mod(1, len as nat);
        } else {
            assert(len == 1);
            lemma_mod_self_0(1);
        }
        assert((x + 1) % len == 0);
    }
    let out = prev.prefix->0 + c[next_index(j, len as nat) as int];
    lemma_bounded_push(prev.outputs, out);
}

/// Giving the last shown result again enters a reconversion episode. Its
/// first step asks the engine for candidates; once they arrive, the list is
/// the raw text followed by them (at most `MAX_CANDIDATES`), the cursor is at
/// 0, and each further resubmission shows the next entry, wrapping around.
pub proof fn lemma_repeat_enters_reconversion(
    m: SessionModel,
    text: Seq<char>,
    cands: Seq<Seq<char>>,
    n: nat,
)
    requires
        m.wf(),
        is_repeat(m, text),
        m.candidates is None,
    ensures
        ({
            let first = convert_step(m, text).0;
            let entered = receive_step(first, cands).0;
            let prev_in = history_entry(m.inputs, 1);
            let k = first_difference_of(prev_in, history_entry(m.outputs, 2)) as int;
            let list = capped(seq![prev_in.skip(k)] + cands);
            let r = resubmitted(entered, n);
            &&& first.reconverting
            &&& convert_step(m, text).1 == StepModel::Query {
                text: prev_in.skip(k),
                context: prev_in.take(k),
            }
            &&& entered.candidates == Some(list)
            &&& entered.index == Some(0nat)
            &&& entered.outputs.last() == prev_in.take(k) + list[0]
            &&& r.candidates == Some(list)
            &&& r.index == Some(((n as int) % (list.len() as int)) as nat)
            &&& r.outputs.last() == prev_in.take(k) + list[(n as int) % (list.len() as int)]
        }),
{
    let first = convert_step(m, text).0;
    lemma_steps_keep_wf(m, text, cands);
    lemma_steps_keep_wf(first, text, cands);
    let entered = receive_step(first, cands).0;
    let list = entered.candidates->0;
    lemma_small_mod(0, list.len());
    let prev_in = history_entry(m.inputs, 1);
    let k = first_difference_of(prev_in, history_entry(m.outputs, 2)) as int;
    lemma_bounded_push(first.outputs, prev_in.take(k) + list[0]);
    if n > 0 {
        lemma_resubmission_cycles(entered, n);
    }
}

} // verus!
