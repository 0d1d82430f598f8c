use page_relevance::cache::ResultCache;
use page_relevance::evaluation::{EvaluationError, EvaluationResult, PartialEvaluationPayload};
use page_relevance::evaluator::{
    awaited_partial, Completion, Phase, StreamAction, StreamEvent, StreamingEvaluator,
};

fn decode(text: &str) -> Option<EvaluationResult> {
    let document: serde_json::Value = serde_json::from_str(text).ok()?;
    let fields = document.as_object()?;
    let relevance = u8::try_from(fields.get("relevance")?.as_u64()?).ok()?;
    let reason = fields.get("reason")?.as_str()?.to_owned();
    let mut keywords = Vec::new();
    for item in fields.get("keywords")?.as_array()? {
        keywords.push(item.as_str()?.to_owned());
    }
    Some(EvaluationResult { relevance, keywords, reason })
}

fn fragment(text: &str) -> StreamEvent {
    StreamEvent::Fragment(text.to_owned())
}

fn expect_finish(action: StreamAction) -> Completion {
    match action {
        StreamAction::Finish(completion) => completion,
        _ => panic!("the close of an open stream finishes it"),
    }
}

fn is_nothing(action: &StreamAction) -> bool {
    matches!(action, StreamAction::Nothing)
}

#[test]
fn fresh_evaluator_is_streaming_and_empty() {
    let evaluator = StreamingEvaluator::new("r1".to_owned());
    assert_eq!(evaluator.phase(), Phase::Streaming);
    assert_eq!(evaluator.accumulated(), "");
    assert_eq!(evaluator.partial(), None);
    assert_eq!(evaluator.request_id(), "r1");
}

#[test]
fn score_is_emitted_at_its_fragment_and_result_is_cached_after_close() {
    let mut cache = ResultCache::new();
    let mut evaluator = StreamingEvaluator::new("r1".to_owned());

    assert!(is_nothing(&evaluator.step(fragment("{\"relevance\":"))));
    assert_eq!(evaluator.phase(), Phase::Streaming);

    match evaluator.step(fragment("7")) {
        StreamAction::EmitPartial(partial) => {
            assert_eq!(partial, PartialEvaluationPayload { relevance: 7 })
        }
        _ => panic!("the bare integer is the early score"),
    }
    assert_eq!(evaluator.phase(), Phase::PartialEmitted);
    assert!(cache.get("r1").is_none());

    assert!(is_nothing(&evaluator.step(fragment(",\"reason\":\"...\",\"keywords\":[\"aws\"]}"))));
    assert_eq!(
        evaluator.accumulated(),
        "{\"relevance\":7,\"reason\":\"...\",\"keywords\":[\"aws\"]}"
    );

    let decoded = decode(evaluator.accumulated());
    let completion = expect_finish(evaluator.step(StreamEvent::Close(decoded)));
    assert_eq!(completion.waiter, None);
    assert_eq!(evaluator.phase(), Phase::Closed);
    cache.settle(completion.delivery);

    let expected = EvaluationResult {
        relevance: 7,
        keywords: vec!["aws".to_owned()],
        reason: "...".to_owned(),
    };
    assert_eq!(cache.get("r1"), Some(expected.clone()));
    assert_eq!(cache.complete("r1"), Ok(expected));
}

#[test]
fn only_the_first_bare_integer_is_emitted() {
    let mut evaluator = StreamingEvaluator::new("r".to_owned());
    assert!(is_nothing(&evaluator.step(fragment("{"))));
    assert!(matches!(
        evaluator.step(fragment("3")),
        StreamAction::EmitPartial(PartialEvaluationPayload { relevance: 3 })
    ));
    assert!(is_nothing(&evaluator.step(fragment("9"))));
    assert!(is_nothing(&evaluator.step(fragment("10"))));
    assert_eq!(evaluator.partial(), Some(PartialEvaluationPayload { relevance: 3 }));
    assert_eq!(evaluator.accumulated(), "{3910");
    assert_eq!(evaluator.phase(), Phase::PartialEmitted);
}

#[test]
fn accept_appends_every_fragment() {
    let mut evaluator = StreamingEvaluator::new("r".to_owned());
    assert_eq!(evaluator.accept("ab"), None);
    assert_eq!(evaluator.accept(""), None);
    assert_eq!(evaluator.accept("10"), Some(PartialEvaluationPayload { relevance: 10 }));
    assert_eq!(evaluator.accept("\u{e9}t\u{e9}"), None);
    assert_eq!(evaluator.accumulated(), "ab10\u{e9}t\u{e9}");
}

#[test]
fn fragment_above_eight_bits_is_not_the_score() {
    let mut evaluator = StreamingEvaluator::new("r".to_owned());
    assert_eq!(evaluator.accept("300"), None);
    assert_eq!(evaluator.phase(), Phase::Streaming);
    assert_eq!(evaluator.accept("4"), Some(PartialEvaluationPayload { relevance: 4 }));
    assert_eq!(evaluator.accumulated(), "3004");
}

#[test]
fn bare_integer_off_the_scale_is_text_and_not_the_score() {
    let mut evaluator = StreamingEvaluator::new("r".to_owned());
    assert!(is_nothing(&evaluator.step(fragment("42"))));
    assert_eq!(evaluator.phase(), Phase::Streaming);
    assert_eq!(evaluator.partial(), None);
    assert_eq!(evaluator.accept("11"), None);
    assert_eq!(evaluator.accept("255"), None);
    assert_eq!(evaluator.accumulated(), "4211255");
    assert!(matches!(
        evaluator.step(fragment("10")),
        StreamAction::EmitPartial(PartialEvaluationPayload { relevance: 10 })
    ));
    assert_eq!(evaluator.phase(), Phase::PartialEmitted);
    assert_eq!(evaluator.accumulated(), "421125510");
}

#[test]
fn stream_of_off_scale_integers_owes_the_waiter_a_failure() {
    let mut evaluator = StreamingEvaluator::new("r".to_owned());
    assert_eq!(evaluator.accept("42"), None);
    assert_eq!(evaluator.accept("11"), None);
    let completion = expect_finish(evaluator.step(StreamEvent::Close(None)));
    assert_eq!(completion.waiter, Some(EvaluationError::NoPartialSignal));
}

#[test]
fn full_result_off_the_scale_is_a_parse_failure_and_is_not_cached() {
    let mut cache = ResultCache::new();
    let mut evaluator = StreamingEvaluator::new("r5".to_owned());
    assert!(is_nothing(&evaluator.step(fragment("{\"relevance\":"))));
    assert!(is_nothing(&evaluator.step(fragment("11"))));
    assert!(is_nothing(&evaluator.step(fragment(",\"reason\":\"x\",\"keywords\":[]}"))));
    let decoded = decode(evaluator.accumulated());
    assert_eq!(
        decoded,
        Some(EvaluationResult { relevance: 11, keywords: vec![], reason: "x".to_owned() })
    );
    let completion = expect_finish(evaluator.step(StreamEvent::Close(decoded)));
    assert_eq!(completion.waiter, Some(EvaluationError::NoPartialSignal));
    assert_eq!(completion.delivery, Err(EvaluationError::Parse));
    assert_eq!(evaluator.phase(), Phase::StreamError);
    cache.settle(completion.delivery);
    assert_eq!(cache.get("r5"), None);
    assert_eq!(cache.complete("r5"), Err(EvaluationError::CacheMiss));
}

#[test]
fn full_result_at_the_top_of_the_scale_is_delivered() {
    let mut evaluator = StreamingEvaluator::new("r6".to_owned());
    let full = EvaluationResult { relevance: 10, keywords: vec![], reason: String::new() };
    let completion = evaluator.close(Some(full.clone())).expect("the stream was open");
    assert_eq!(completion.delivery, Ok(("r6".to_owned(), full)));
    assert_eq!(evaluator.phase(), Phase::Closed);
}

#[test]
fn close_without_any_bare_integer_owes_the_waiter_a_failure() {
    let mut evaluator = StreamingEvaluator::new("r2".to_owned());
    assert!(is_nothing(&evaluator.step(fragment("{\"relevance\": 7"))));
    assert!(is_nothing(&evaluator.step(fragment(", \"reason\": \"x\", \"keywords\": []}"))));
    let decoded = decode(evaluator.accumulated());
    assert!(decoded.is_some());
    let completion = expect_finish(evaluator.step(StreamEvent::Close(decoded)));
    assert_eq!(completion.waiter, Some(EvaluationError::NoPartialSignal));
    assert_eq!(
        completion.delivery,
        Ok((
            "r2".to_owned(),
            EvaluationResult { relevance: 7, keywords: vec![], reason: "x".to_owned() }
        ))
    );
    assert_eq!(evaluator.phase(), Phase::Closed);
    assert_eq!(evaluator.partial(), None);
}

#[test]
fn empty_stream_owes_the_waiter_a_failure_and_the_cache_nothing() {
    let mut cache = ResultCache::new();
    let mut evaluator = StreamingEvaluator::new("r3".to_owned());
    let decoded = decode(evaluator.accumulated());
    assert!(decoded.is_none());
    let completion = expect_finish(evaluator.step(StreamEvent::Close(decoded)));
    assert_eq!(completion.waiter, Some(EvaluationError::NoPartialSignal));
    assert_eq!(completion.delivery, Err(EvaluationError::Parse));
    assert_eq!(evaluator.phase(), Phase::StreamError);
    cache.settle(completion.delivery);
    assert_eq!(cache.complete("r3"), Err(EvaluationError::CacheMiss));
}

#[test]
fn text_that_does_not_decode_ends_in_stream_error_and_stores_nothing() {
    let mut cache = ResultCache::new();
    let mut evaluator = StreamingEvaluator::new("r4".to_owned());
    assert!(is_nothing(&evaluator.step(fragment("{\"relevance\":"))));
    assert!(matches!(evaluator.step(fragment("5")), StreamAction::EmitPartial(_)));
    assert!(is_nothing(&evaluator.step(fragment(",\"reason\":\"cut"))));
    let decoded = decode(evaluator.accumulated());
    assert!(decoded.is_none());
    let completion = expect_finish(evaluator.step(StreamEvent::Close(decoded)));
    assert_eq!(completion.waiter, None);
    assert_eq!(completion.delivery, Err(EvaluationError::Parse));
    assert_eq!(evaluator.phase(), Phase::StreamError);
    assert_eq!(evaluator.partial(), Some(PartialEvaluationPayload { relevance: 5 }));
    cache.settle(completion.delivery);
    assert!(cache.get("r4").is_none());
}

#[test]
fn other_events_change_nothing() {
    let mut evaluator = StreamingEvaluator::new("r".to_owned());
    assert!(is_nothing(&evaluator.step(StreamEvent::Other)));
    assert_eq!(evaluator.accept("1"), Some(PartialEvaluationPayload { relevance: 1 }));
    assert!(is_nothing(&evaluator.step(StreamEvent::Other)));
    assert_eq!(evaluator.accumulated(), "1");
    assert_eq!(evaluator.phase(), Phase::PartialEmitted);
}

#[test]
fn events_after_the_close_are_ignored() {
    let mut evaluator = StreamingEvaluator::new("r".to_owned());
    assert_eq!(evaluator.accept("x"), None);
    assert!(evaluator.close(None).is_some());
    assert_eq!(evaluator.phase(), Phase::StreamError);

    assert_eq!(evaluator.accept("7"), None);
    assert!(is_nothing(&evaluator.step(fragment("8"))));
    assert!(is_nothing(&evaluator.step(StreamEvent::Close(Some(EvaluationResult {
        relevance: 1,
        keywords: vec![],
        reason: String::new(),
    })))));
    assert!(evaluator.close(None).is_none());
    assert_eq!(evaluator.accumulated(), "x");
    assert_eq!(evaluator.partial(), None);
    assert_eq!(evaluator.phase(), Phase::StreamError);
}

#[test]
fn waiter_gets_what_was_handed_to_it() {
    let score = PartialEvaluationPayload { relevance: 6 };
    assert_eq!(awaited_partial(Some(Ok(score))), Ok(score));
    assert_eq!(
        awaited_partial(Some(Err(EvaluationError::Transport))),
        Err(EvaluationError::Transport)
    );
    assert_eq!(
        awaited_partial(Some(Err(EvaluationError::NoPartialSignal))),
        Err(EvaluationError::NoPartialSignal)
    );
}

#[test]
fn waiter_that_got_nothing_fails_with_no_partial_signal() {
    assert_eq!(awaited_partial(None), Err(EvaluationError::NoPartialSignal));
}

#[test]
fn scores_on_and_off_the_scale() {
    assert!(PartialEvaluationPayload { relevance: 0 }.is_on_scale());
    assert!(PartialEvaluationPayload { relevance: 10 }.is_on_scale());
    assert!(!PartialEvaluationPayload { relevance: 11 }.is_on_scale());
    let full = EvaluationResult { relevance: 10, keywords: vec![], reason: String::new() };
    assert!(full.is_on_scale());
    assert_eq!(full.partial(), PartialEvaluationPayload { relevance: 10 });
    let off = EvaluationResult { relevance: 200, keywords: vec![], reason: String::new() };
    assert!(!off.is_on_scale());
}

#[test]
fn clone_of_a_full_result_is_equal_field_for_field() {
    let full = EvaluationResult {
        relevance: 8,
        keywords: vec!["terraform".to_owned(), "aws".to_owned(), String::new()],
        reason: "On topic.".to_owned(),
    };
    let copy = full.clone();
    assert_eq!(copy.relevance, 8);
    assert_eq!(copy.keywords, vec!["terraform".to_owned(), "aws".to_owned(), String::new()]);
    assert_eq!(copy.reason, "On topic.");
    assert_eq!(copy, full);
}
