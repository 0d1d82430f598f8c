//! The streaming evaluator: one request's walk from the first fragment to
//! the close of the stream.
//!
//! The evaluator takes the oracle's events one by one. It hands out the
//! early score at the first fragment that is a bare integer on the scale, keeps every
//! fragment's text, and at the close says what is owed to the caller that
//! waits for the score and what goes to the result cache.

use vstd::prelude::*;
use vstd::string::StringExecFns;
use crate::evaluation::{
    decoded_result, matches_shape, EvaluationError, EvaluationResult, EvaluationView,
    PartialEvaluationPayload, MAX_RELEVANCE,
};
use crate::fragment::{bare_integer, parse_score, score_signal};

verus! {

/// Where one request's evaluation stands.
#[derive(Debug, Clone, Copy, PartialEq, Eq, Structural)]
pub enum Phase {
    /// Fragments arrive; none carried a score yet.
    Streaming,
    /// Fragments arrive; the early score has been handed out.
    PartialEmitted,
    /// The stream closed and its text decoded to a full result on the scale.
    Closed,
    /// The stream closed and its text did not decode to such a result.
    StreamError,
}

/// One event of the oracle's stream, as the evaluator sees it.
pub enum StreamEvent {
    /// A fragment of decoded text.
    Fragment(String),
    /// The stream closed. The payload is what the accumulated text decoded
    /// to, or `None` where it did not decode.
    Close(Option<EvaluationResult>),
    /// Anything else the oracle sends; it carries no text.
    Other,
}

/// What is owed when the stream has closed.
pub struct Completion {
    /// The failure owed to the caller that still waits for the early score,
    /// if no score was ever handed out.
    pub waiter: Option<EvaluationError>,
    /// The request identifier and full result for the cache, or the reason
    /// why there is none.
    pub delivery: Result<(String, EvaluationResult), EvaluationError>,
}

/// What the caller of [`StreamingEvaluator::step`] has to do next.
pub enum StreamAction {
    /// Nothing; go on reading the stream, if it is still open.
    Nothing,
    /// Hand the early score to the waiting caller, and go on reading.
    EmitPartial(PartialEvaluationPayload),
    /// Stop reading and settle what the completion names.
    Finish(Completion),
}

/// The text of all fragments, joined in order.
pub open spec fn joined(fragments: Seq<Seq<char>>) -> Seq<char>
    decreases fragments.len(),
{
    if fragments.len() == 0 {
        Seq::empty()
    } else {
        joined(fragments.drop_last()) + fragments.last()
    }
}

/// The score of the first fragment that carries one: the first that is a
/// bare integer on the scale.
pub open spec fn first_signal(fragments: Seq<Seq<char>>) -> Option<u8>
    decreases fragments.len(),
{
    if fragments.len() == 0 {
        None
    } else if first_signal(fragments.drop_last()) is Some {
        first_signal(fragments.drop_last())
    } else {
        score_signal(fragments.last())
    }
}

/// The phase of an open stream whose early score is `signal`.
pub open spec fn open_phase(signal: Option<u8>) -> Phase {
    if signal is Some {
        Phase::PartialEmitted
    } else {
        Phase::Streaming
    }
}

/// The state of one request's evaluation.
pub struct StreamingEvaluator {
    request_id: String,
    buffer: String,
    partial: Option<u8>,
    phase: Phase,
    fragments: Ghost<Seq<Seq<char>>>,
}

impl StreamingEvaluator {
    /// The identifier of the request that is evaluated.
    pub closed spec fn id(&self) -> Seq<char> {
        self.request_id@
    }

    /// The text accumulated so far.
    pub closed spec fn text(&self) -> Seq<char> {
        self.buffer@
    }

    /// The early score, once it has been handed out.
    pub closed spec fn signal(&self) -> Option<u8> {
        self.partial
    }

    /// The phase the evaluation is in.
    pub closed spec fn stage(&self) -> Phase {
        self.phase
    }

    /// The fragments taken in while the stream was open, in order.
    pub closed spec fn history(&self) -> Seq<Seq<char>> {
        self.fragments@
    }

    /// Whether the stream has not closed yet.
    pub open spec fn is_open(&self) -> bool {
        self.stage() is Streaming || self.stage() is PartialEmitted
    }

    /// What holds of every evaluator: the text is the fragments joined, the
    /// early score is that of the first fragment that carries one, and while the
    /// stream is open the phase tells whether there is one.
    pub open spec fn wf(&self) -> bool {
        &&& self.text() == joined(self.history())
        &&& self.signal() == first_signal(self.history())
        &&& self.is_open() ==> self.stage() == open_phase(self.signal())
    }

    /// An evaluator for the request `request_id`, before the first event.
    pub fn new(request_id: String) -> (result: Self)
        ensures
            result.wf(),
            result.id() == request_id@,
            result.history() == Seq::<Seq<char>>::empty(),
            result.text() == Seq::<char>::empty(),
            result.signal() is None,
            result.stage() is Streaming,
    {
        StreamingEvaluator {
            request_id,
            buffer: String::new(),
            partial: None,
            phase: Phase::Streaming,
            fragments: Ghost(Seq::empty()),
        }
    }

    /// Takes in one fragment of an open stream.
    ///
    /// The fragment's text is appended in every case. The result is the
    /// early score exactly when no score was handed out before and the
    /// fragment is a bare integer on the scale; the score is then fixed for
    /// good. A bare integer off the scale is text like any other. On a
    /// closed stream the call changes nothing.
    pub fn accept(&mut self, delta: &str) -> (result: Option<PartialEvaluationPayload>)
        requires
            old(self).wf(),
        ensures
            final(self).wf(),
            final(self).id() == old(self).id(),
            !old(self).is_open() ==> {
                &&& result is None
                &&& final(self).history() == old(self).history()
                &&& final(self).text() == old(self).text()
                &&& final(self).signal() == old(self).signal()
                &&& final(self).stage() == old(self).stage()
            },
            old(self).is_open() ==> {
                &&& final(self).history() == old(self).history().push(delta@)
                &&& final(self).text() == old(self).text() + delta@
                &&& final(self).is_open()
                &&& final(self).signal() == (if old(self).signal() is Some {
                    old(self).signal()
                } else {
                    score_signal(delta@)
                })
                &&& result == (if old(self).signal() is None && score_signal(delta@) is Some {
                    Some(PartialEvaluationPayload { relevance: score_signal(delta@)->0 })
                } else {
                    None
                })
            },
            result is Some ==> result->0.on_scale(),
    {
        match self.phase {
            Phase::Closed | Phase::StreamError => {
                return None;
            },
            _ => {},
        }
        let mut emitted: Option<PartialEvaluationPayload> = None;
        if self.partial.is_none() {
            if let Some(score) = parse_score(delta) {
                self.partial = Some(score);
                self.phase = Phase::PartialEmitted;
                emitted = Some(PartialEvaluationPayload { relevance: score });
            }
        }
        self.buffer.append(delta);
        proof {
            let grown = self.fragments@.push(delta@);
            assert(grown.drop_last() =~= self.fragments@);
            self.fragments@ = grown;
        }
        emitted
    }

    /// Closes the stream with what its accumulated text decoded to.
    ///
    /// The caller that waits for the early score is owed `NoPartialSignal`
    /// exactly when no fragment carried a score. The cache is owed the
    /// request identifier with the decoded result exactly when there is one
    /// and its score lies on the scale; else the delivery is `Parse`. On a closed stream the call changes
    /// nothing and owes nothing.
    pub fn close(&mut self, decoded: Option<EvaluationResult>) -> (result: Option<Completion>)
        requires
            old(self).wf(),
        ensures
            final(self).wf(),
            final(self).id() == old(self).id(),
            final(self).history() == old(self).history(),
            final(self).text() == old(self).text(),
            final(self).signal() == old(self).signal(),
            !old(self).is_open() ==> result is None && final(self).stage() == old(self).stage(),
            old(self).is_open() ==> {
                &&& result is Some
                &&& final(self).stage() == closing_phase(decoded)
                &&& result->0.waiter == owed_to_waiter(old(self).history())
                &&& delivery_view(result->0.delivery) == owed_to_cache(old(self).id(), decoded)
            },
            result is Some && result->0.delivery is Ok ==> result->0.delivery->Ok_0.1.on_scale(),
    {
        match self.phase {
            Phase::Closed | Phase::StreamError => {
                return None;
            },
            _ => {},
        }
        let waiter = if self.partial.is_none() {
            Some(EvaluationError::NoPartialSignal)
        } else {
            None
        };
        let delivery = match decoded_result(decoded) {
            Ok(full) => {
                self.phase = Phase::Closed;
                Ok((self.request_id.clone(), full))
            },
            Err(failure) => {
                self.phase = Phase::StreamError;
                Err(failure)
            },
        };
        Some(Completion { waiter, delivery })
    }

    /// Takes one event of the stream and says what to do next.
    ///
    /// A fragment goes to [`Self::accept`], a close to [`Self::close`];
    /// any other event, and every event after the close, leaves the
    /// evaluator as it is and asks for nothing.
    pub fn step(&mut self, event: StreamEvent) -> (action: StreamAction)
        requires
            old(self).wf(),
        ensures
            final(self).wf(),
            final(self).id() == old(self).id(),
            !old(self).is_open() || event is Other ==> {
                &&& action is Nothing
                &&& final(self).history() == old(self).history()
                &&& final(self).text() == old(self).text()
                &&& final(self).signal() == old(self).signal()
                &&& final(self).stage() == old(self).stage()
            },
            old(self).is_open() && event is Fragment ==> {
                let delta = event->Fragment_0@;
                &&& final(self).history() == old(self).history().push(delta)
                &&& final(self).text() == old(self).text() + delta
                &&& final(self).is_open()
                &&& final(self).signal() == (if old(self).signal() is Some {
                    old(self).signal()
                } else {
                    score_signal(delta)
                })
                &&& action == (if old(self).signal() is None && score_signal(delta) is Some {
                    StreamAction::EmitPartial(
                        PartialEvaluationPayload { relevance: score_signal(delta)->0 },
                    )
                } else {
                    StreamAction::Nothing
                })
            },
            action is EmitPartial ==> action->EmitPartial_0.on_scale(),
            old(self).is_open() && event is Close ==> {
                let decoded = event->Close_0;
                &&& final(self).history() == old(self).history()
                &&& final(self).text() == old(self).text()
                &&& final(self).signal() == old(self).signal()
                &&& final(self).stage() == closing_phase(decoded)
                &&& action is Finish
                &&& action->Finish_0.waiter == owed_to_waiter(old(self).history())
                &&& delivery_view(action->Finish_0.delivery) == owed_to_cache(
                    old(self).id(),
                    decoded,
                )
            },
            action is Finish && action->Finish_0.delivery is Ok
                ==> action->Finish_0.delivery->Ok_0.1.on_scale(),
    {
        match event {
            StreamEvent::Fragment(delta) => {
                match self.accept(delta.as_str()) {
                    Some(partial) => StreamAction::EmitPartial(partial),
                    None => StreamAction::Nothing,
                }
            },
            StreamEvent::Close(decoded) => {
                match self.close(decoded) {
                    Some(completion) => StreamAction::Finish(completion),
                    None => StreamAction::Nothing,
                }
            },
            StreamEvent::Other => StreamAction::Nothing,
        }
    }

    /// The text accumulated so far: what is to be decoded at the close.
    pub fn accumulated(&self) -> (result: &str)
        ensures
            result@ == self.text(),
    {
        self.buffer.as_str()
    }

    /// The early score, if it has been handed out.
    pub fn partial(&self) -> (result: Option<PartialEvaluationPayload>)
        ensures
            result == match self.signal() {
                Some(score) => Some(PartialEvaluationPayload { relevance: score }),
                None => None,
            },
    {
        match self.partial {
            Some(score) => Some(PartialEvaluationPayload { relevance: score }),
            None => None,
        }
    }

    /// The phase the evaluation is in.
    pub fn phase(&self) -> (result: Phase)
        ensures
            result == self.stage(),
    {
        self.phase
    }

    /// The identifier of the request that is evaluated.
    pub fn request_id(&self) -> (result: &str)
        ensures
            result@ == self.id(),
    {
        self.request_id.as_str()
    }
}

/// What the caller that waits for the early score ends with, given what
/// reached it: the score or failure that was handed to it, or
/// `NoPartialSignal` where the evaluation ended and handed it nothing.
pub fn awaited_partial(received: Option<Result<PartialEvaluationPayload, EvaluationError>>) -> (result:
    Result<PartialEvaluationPayload, EvaluationError>)
    ensures
        result == match received {
            Some(outcome) => outcome,
            None => Err::<PartialEvaluationPayload, EvaluationError>(
                EvaluationError::NoPartialSignal,
            ),
        },
{
    match received {
        Some(outcome) => outcome,
        None => Err(EvaluationError::NoPartialSignal),
    }
}

/// The early score is that of the first fragment that carries one,
/// and it stands from the moment that fragment has been taken in: every
/// longer part of the stream has the same score, whatever follows.
pub proof fn law_first_score_is_signal(fragments: Seq<Seq<char>>, i: int, taken: int)
    requires
        0 <= i < taken <= fragments.len(),
        score_signal(fragments[i]) is Some,
        forall|j: int| 0 <= j < i ==> score_signal(#[trigger] fragments[j]) is None,
    ensures
        first_signal(fragments.take(taken)) == score_signal(fragments[i]),
    decreases taken,
{
    let part = fragments.take(taken);
    assert(part.drop_last() =~= fragments.take(taken - 1));
    if taken - 1 > i {
        law_first_score_is_signal(fragments, i, taken - 1);
    } else {
        law_no_signal_without_score(fragments.take(i));
        assert forall|j: int| 0 <= j < i implies score_signal(
            #[trigger] fragments.take(i)[j],
        ) is None by {
            assert(fragments.take(i)[j] == fragments[j]);
        }
    }
}

/// Where the first fragment of a stream that is a bare integer writes a
/// number on the scale, that number is the early score, from the moment the
/// fragment has been taken in.
pub proof fn law_first_bare_integer_on_scale_is_signal(
    fragments: Seq<Seq<char>>,
    i: int,
    taken: int,
    value: u8,
)
    requires
        0 <= i < taken <= fragments.len(),
        bare_integer(fragments[i]) == Some(value),
        value <= MAX_RELEVANCE,
        forall|j: int| 0 <= j < i ==> bare_integer(#[trigger] fragments[j]) is None,
    ensures
        first_signal(fragments.take(taken)) == Some(value),
{
    assert forall|j: int| 0 <= j < i implies score_signal(#[trigger] fragments[j]) is None by {
        assert(bare_integer(fragments[j]) is None);
    }
    law_first_score_is_signal(fragments, i, taken);
}

/// Once a stream has an early score, no later fragment changes it; until
/// then the next fragment alone decides it. The text grows by each fragment
/// either way.
pub proof fn law_signal_is_fixed_once_set(fragments: Seq<Seq<char>>, next: Seq<char>)
    ensures
        first_signal(fragments) is Some ==> first_signal(fragments.push(next)) == first_signal(
            fragments,
        ),
        first_signal(fragments) is None ==> first_signal(fragments.push(next)) == score_signal(
            next,
        ),
        joined(fragments.push(next)) == joined(fragments) + next,
{
    assert(fragments.push(next).drop_last() =~= fragments);
}

/// A stream has no early score exactly when none of its fragments carries
/// one, and exactly then its close owes the waiting caller a failure.
pub proof fn law_no_signal_without_score(fragments: Seq<Seq<char>>)
    ensures
        first_signal(fragments) is None <==> forall|j: int|
            0 <= j < fragments.len() ==> score_signal(#[trigger] fragments[j]) is None,
        owed_to_waiter(fragments) == Some(EvaluationError::NoPartialSignal) <==> forall|j: int|
            0 <= j < fragments.len() ==> score_signal(#[trigger] fragments[j]) is None,
    decreases fragments.len(),
{
    if fragments.len() > 0 {
        let front = fragments.drop_last();
        law_no_signal_without_score(front);
        assert forall|j: int| 0 <= j < front.len() implies front[j] == fragments[j] by {}
        if first_signal(fragments) is None {
            assert forall|j: int| 0 <= j < fragments.len() implies score_signal(
                #[trigger] fragments[j],
            ) is None by {
                if j < front.len() {
                    assert(front[j] == fragments[j]);
                }
            }
        }
        if forall|j: int| 0 <= j < fragments.len() ==> score_signal(#[trigger] fragments[j]) is None {
            assert forall|j: int| 0 <= j < front.len() implies score_signal(
                #[trigger] front[j],
            ) is None by {
                assert(front[j] == fragments[j]);
            }
            assert(score_signal(fragments[fragments.len() - 1]) is None);
        }
    }
}

/// The phase that a stream ends in, given what its text decoded to.
pub open spec fn closing_phase(decoded: Option<EvaluationResult>) -> Phase {
    if matches_shape(decoded) {
        Phase::Closed
    } else {
        Phase::StreamError
    }
}

/// What the caller that waits for the early score is owed at the close of a
/// stream of these fragments: a failure where none carries a score.
pub open spec fn owed_to_waiter(fragments: Seq<Seq<char>>) -> Option<EvaluationError> {
    if first_signal(fragments) is None {
        Some(EvaluationError::NoPartialSignal)
    } else {
        None
    }
}

/// What the cache is owed at the close, for a request and what its text
/// decoded to: the result under the request's identifier where the text
/// matches the full result's shape, else the failure to parse.
pub open spec fn owed_to_cache(id: Seq<char>, decoded: Option<EvaluationResult>) -> Result<
    (Seq<char>, EvaluationView),
    EvaluationError,
> {
    if matches_shape(decoded) {
        Ok((id, decoded->0@))
    } else {
        Err(EvaluationError::Parse)
    }
}

/// A delivery as mathematical values.
pub open spec fn delivery_view(delivery: Result<(String, EvaluationResult), EvaluationError>)
    -> Result<(Seq<char>, EvaluationView), EvaluationError> {
    match delivery {
        Ok((id, full)) => Ok((id@, full@)),
        Err(e) => Err(e),
    }
}

} // verus!
