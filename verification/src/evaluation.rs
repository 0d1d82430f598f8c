//! The values that an evaluation produces, and the ways it can fail.

use vstd::prelude::*;

verus! {

/// The highest score of the relevance scale, which starts at 0.
pub const MAX_RELEVANCE: u8 = 10;

/// The texts of a list of strings, in order.
pub open spec fn texts(items: Seq<String>) -> Seq<Seq<char>> {
    Seq::new(items.len(), |i: int| items[i]@)
}

/// The early result of an evaluation: the score alone.
#[derive(Debug, Clone, Copy, PartialEq, Eq, Structural)]
pub struct PartialEvaluationPayload {
    pub relevance: u8,
}

impl PartialEvaluationPayload {
    /// Whether the score lies on the scale from 0 to `MAX_RELEVANCE`.
    pub open spec fn on_scale(&self) -> bool {
        self.relevance <= MAX_RELEVANCE
    }

    /// Tells whether the score lies on the scale.
    pub fn is_on_scale(&self) -> (result: bool)
        ensures
            result == self.on_scale(),
    {
        self.relevance <= MAX_RELEVANCE
    }
}

/// What a full evaluation result holds, as mathematical values.
pub struct EvaluationView {
    pub relevance: u8,
    pub keywords: Seq<Seq<char>>,
    pub reason: Seq<char>,
}

/// The full result of an evaluation: the score, the words that decided it
/// and the reason given for it.
#[derive(Debug, PartialEq, Eq)]
pub struct EvaluationResult {
    pub relevance: u8,
    pub keywords: Vec<String>,
    pub reason: String,
}

impl View for EvaluationResult {
    type V = EvaluationView;

    open spec fn view(&self) -> EvaluationView {
        EvaluationView {
            relevance: self.relevance,
            keywords: texts(self.keywords@),
            reason: self.reason@,
        }
    }
}

/// Copies a list of strings, text for text.
pub fn clone_texts(items: &Vec<String>) -> (result: Vec<String>)
    ensures
        texts(result@) == texts(items@),
{
    let mut copy: Vec<String> = Vec::new();
    let mut i: usize = 0;
    while i < items.len()
        invariant
            i <= items.len(),
            copy.len() == i,
            forall|k: int| 0 <= k < i ==> copy[k]@ == items[k]@,
        decreases items.len() - i,
    {
        copy.push(items[i].clone());
        i = i + 1;
    }
    assert(texts(copy@) =~= texts(items@));
    copy
}

impl Clone for EvaluationResult {
    fn clone(&self) -> (result: Self)
        ensures
            result@ == self@,
    {
        EvaluationResult {
            relevance: self.relevance,
            keywords: clone_texts(&self.keywords),
            reason: self.reason.clone(),
        }
    }
}

impl EvaluationResult {
    /// Whether the score lies on the scale from 0 to `MAX_RELEVANCE`.
    pub open spec fn on_scale(&self) -> bool {
        self.relevance <= MAX_RELEVANCE
    }

    /// Tells whether the score lies on the scale.
    pub fn is_on_scale(&self) -> (result: bool)
        ensures
            result == self.on_scale(),
    {
        self.relevance <= MAX_RELEVANCE
    }

    /// The early result that this full result confirms: its score alone.
    pub fn partial(&self) -> (result: PartialEvaluationPayload)
        ensures
            result.relevance == self.relevance,
    {
        PartialEvaluationPayload { relevance: self.relevance }
    }
}

/// Why an evaluation, or a lookup of one, gave no result.
#[derive(Debug, Clone, Copy, PartialEq, Eq, Structural)]
pub enum EvaluationError {
    /// The oracle could not be reached, or refused the credential.
    Transport,
    /// The oracle's final text is no JSON object of the full result's shape,
    /// or its score lies off the scale.
    Parse,
    /// The oracle answered without a single choice.
    NoChoice,
    /// The stream closed before any fragment carried a score.
    NoPartialSignal,
    /// The cache holds nothing under the request identifier.
    CacheMiss,
}

/// Whether what a text decoded to matches the full result's shape: the
/// text did decode, and the score lies on the scale.
pub open spec fn matches_shape(decoded: Option<EvaluationResult>) -> bool {
    decoded is Some && decoded->0.on_scale()
}

/// The outcome of an evaluation whose text decoded to `decoded`: the full
/// result where it matches the shape, or `Parse` where the text did not
/// decode or the score lies off the scale.
pub fn decoded_result(decoded: Option<EvaluationResult>) -> (result: Result<
    EvaluationResult,
    EvaluationError,
>)
    ensures
        result == (if matches_shape(decoded) {
            Ok::<EvaluationResult, EvaluationError>(decoded->0)
        } else {
            Err::<EvaluationResult, EvaluationError>(EvaluationError::Parse)
        }),
        result is Ok ==> result->Ok_0.on_scale(),
{
    match decoded {
        Some(full) => if full.is_on_scale() {
            Ok(full)
        } else {
            Err(EvaluationError::Parse)
        },
        None => Err(EvaluationError::Parse),
    }
}

} // verus!
