use jnv::context::Context;
use jnv::evaluator::{outcome_of_reply, passthrough_outcome, plan_evaluation, EngineReply, EvalPlan, Outcome};
use jnv::fold::FoldState;
use jnv::json::JsonValue;
use jnv::loader::SuggestionChunk;
use jnv::rows::{format_rows, StyleClass};
use jnv::spinner::SpinnerState;

/// The document {"a":[1,2,3],"b":"x"}.
fn sample_document() -> JsonValue {
    JsonValue::Object(vec![
        (
            "a".to_string(),
            JsonValue::Array(vec![
                JsonValue::Number("1".to_string()),
                JsonValue::Number("2".to_string()),
                JsonValue::Number("3".to_string()),
            ]),
        ),
        ("b".to_string(), JsonValue::Text("x".to_string())),
    ])
}

#[test]
fn formatter_expands_sample_document() {
    let doc = sample_document();
    let fold = FoldState::new(true);
    let rows = format_rows(&doc, &fold);
    let texts: Vec<&str> = rows.iter().map(|r| r.text.as_str()).collect();
    assert_eq!(texts, vec!["{", "[", "1", "2", "3", "]", "x", "}"]);
    let depths: Vec<usize> = rows.iter().map(|r| r.depth).collect();
    assert_eq!(depths, vec![0, 1, 2, 2, 2, 1, 1, 0]);
    assert_eq!(rows[1].key.as_deref(), Some("a"));
    assert_eq!(rows[6].key.as_deref(), Some("b"));
    assert!(rows.iter().all(|r| !r.collapsed));
    assert!(matches!(rows[0].style, StyleClass::Brace));
    assert!(matches!(rows[1].style, StyleClass::Bracket));
    assert!(matches!(rows[2].style, StyleClass::NumberValue));
    assert!(matches!(rows[6].style, StyleClass::StringValue));
}

#[test]
fn formatter_base_policy_collapses_below_root() {
    let doc = sample_document();
    let fold = FoldState::new(false);
    let rows = format_rows(&doc, &fold);
    let texts: Vec<&str> = rows.iter().map(|r| r.text.as_str()).collect();
    // the root stays open; each container child is one placeholder row
    assert_eq!(texts, vec!["{", "[…]", "x", "}"]);
    assert!(rows[1].collapsed);
}

#[test]
fn formatter_collapse_round_trip_is_one_placeholder() {
    let doc = sample_document();
    // first fully expanded ...
    let mut fold = FoldState::new(true);
    assert_eq!(format_rows(&doc, &fold).len(), 8);
    // ... then re-collapse the root container path
    fold.set_collapsed(Vec::new(), true);
    let collapsed = format_rows(&doc, &fold);
    assert_eq!(collapsed.len(), 1);
    assert!(collapsed[0].collapsed);
    assert_eq!(collapsed[0].text, "{…}");
    // collapsing an already-collapsed path changes nothing
    fold.set_collapsed(Vec::new(), true);
    let again = format_rows(&doc, &fold);
    assert_eq!(again.len(), 1);
    assert!(again[0].collapsed);
    assert_eq!(again[0].text, "{…}");
}

#[test]
fn formatter_is_pure() {
    let doc = sample_document();
    let fold = FoldState::new(true);
    let a = format_rows(&doc, &fold);
    let b = format_rows(&doc, &fold);
    assert_eq!(a.len(), b.len());
    for (x, y) in a.iter().zip(b.iter()) {
        assert_eq!(x.text, y.text);
        assert_eq!(x.depth, y.depth);
        assert_eq!(x.collapsed, y.collapsed);
        assert_eq!(x.key, y.key);
    }
}

#[test]
fn fold_toggle_flips_only_its_path() {
    let mut fold = FoldState::new(true);
    assert!(!fold.is_collapsed(&vec![0]));
    fold.toggle(vec![0]);
    assert!(fold.is_collapsed(&vec![0]));
    assert!(!fold.is_collapsed(&vec![1]));
    fold.toggle(vec![0]);
    assert!(!fold.is_collapsed(&vec![0]));
}

#[test]
fn json_deep_eq_and_clone() {
    let doc = sample_document();
    let copy = doc.deep_clone();
    assert!(doc.deep_eq(&copy));
    assert!(!doc.deep_eq(&JsonValue::Null));
    assert!(JsonValue::Bool(true).deep_eq(&JsonValue::Bool(true)));
    assert!(!JsonValue::Bool(true).deep_eq(&JsonValue::Bool(false)));
}

#[test]
fn evaluator_empty_expression_passes_document_through() {
    assert!(matches!(plan_evaluation(&"".to_string()), EvalPlan::Passthrough));
    assert!(matches!(plan_evaluation(&".a".to_string()), EvalPlan::Invoke));
    let doc = sample_document();
    match passthrough_outcome(&doc) {
        Outcome::Success(v) => assert!(v.deep_eq(&doc)),
        _ => panic!("passthrough must succeed"),
    }
}

#[test]
fn evaluator_maps_every_reply() {
    assert!(matches!(
        outcome_of_reply(EngineReply::Value(JsonValue::Null)),
        Outcome::Success(JsonValue::Null)
    ));
    assert!(matches!(outcome_of_reply(EngineReply::NoOutput), Outcome::Empty));
    match outcome_of_reply(EngineReply::Error("jq: syntax error".to_string())) {
        Outcome::EvalError(m) => assert_eq!(m, "jq: syntax error"),
        _ => panic!("an engine error maps to EvalError"),
    }
}

#[test]
fn stale_generation_result_is_discarded() {
    let mut ctx = Context::new(sample_document(), true);
    let stale = ctx.on_query_changed(".a".to_string());
    let latest = ctx.on_query_changed(".a | length".to_string());
    let before = ctx.snapshot();
    // a completion for the superseded keystroke arrives late
    ctx.on_eval_result(Outcome::Success(JsonValue::Null), stale.generation);
    let after = ctx.snapshot();
    assert!(matches!(after.outcome, Outcome::Pending));
    assert_eq!(after.query_text, before.query_text);
    assert_eq!(after.generation, before.generation);
    assert_eq!(after.rows.len(), before.rows.len());
    // the current generation's completion is published
    ctx.on_eval_result(
        Outcome::Success(JsonValue::Array(vec![JsonValue::Number("1".to_string())])),
        latest.generation,
    );
    let published = ctx.snapshot();
    assert!(matches!(published.outcome, Outcome::Success(_)));
}

#[test]
fn debounced_evaluation_of_dot_a_and_root_fold_toggle() {
    // expression `.a` on {"a":[1,2,3],"b":"x"}: the engine returns [1,2,3]
    let mut ctx = Context::new(sample_document(), true);
    let token = ctx.on_query_changed(".a".to_string());
    let engine_result = JsonValue::Array(vec![
        JsonValue::Number("1".to_string()),
        JsonValue::Number("2".to_string()),
        JsonValue::Number("3".to_string()),
    ]);
    ctx.on_eval_result(Outcome::Success(engine_result), token.generation);
    let snap = ctx.snapshot();
    match &snap.outcome {
        Outcome::Success(v) => {
            assert!(v.deep_eq(&JsonValue::Array(vec![
                JsonValue::Number("1".to_string()),
                JsonValue::Number("2".to_string()),
                JsonValue::Number("3".to_string()),
            ])));
        }
        _ => panic!("outcome must be the engine's value"),
    }
    let texts: Vec<&str> = snap.rows.iter().map(|r| r.text.as_str()).collect();
    assert_eq!(texts, vec!["[", "1", "2", "3", "]"]);
    // fold-toggle on the root path: a single collapsed placeholder row
    ctx.on_fold_toggle(Vec::new());
    let folded = ctx.snapshot();
    let texts: Vec<&str> = folded.rows.iter().map(|r| r.text.as_str()).collect();
    assert_eq!(texts, vec!["[…]"]);
    assert!(folded.rows[0].collapsed);
}

#[test]
fn eval_error_keeps_previous_result_and_suggestions() {
    // a valid result is on screen, suggestions delivered
    let mut ctx = Context::new(sample_document(), true);
    let token = ctx.on_query_changed(".a".to_string());
    ctx.on_eval_result(
        Outcome::Success(JsonValue::Array(vec![JsonValue::Number("1".to_string())])),
        token.generation,
    );
    ctx.on_suggestion_chunk(SuggestionChunk {
        items: vec![".a".to_string(), ".a[0]".to_string()],
        generation: token.generation,
        more_available: false,
    });
    let shown = ctx.snapshot();
    assert_eq!(shown.rows.len(), 3);
    assert_eq!(shown.suggestions.len(), 2);
    // the incomplete expression `.a |` makes the engine report a parse error
    let token2 = ctx.on_query_changed(".a |".to_string());
    ctx.on_eval_result(
        Outcome::EvalError("jq: error: syntax error, unexpected end of file".to_string()),
        token2.generation,
    );
    let after = ctx.snapshot();
    // the error indicator is set ...
    assert!(matches!(after.outcome, Outcome::EvalError(_)));
    // ... the previous valid result pane remains visible ...
    assert_eq!(after.rows.len(), 3);
    let texts: Vec<&str> = after.rows.iter().map(|r| r.text.as_str()).collect();
    assert_eq!(texts, vec!["[", "1", "]"]);
    // ... and the error did not clear what the pane held before it arrived
    assert!(ctx.displayed.is_some());
}

#[test]
fn suggestion_chunks_append_in_order_and_stale_chunks_drop() {
    let mut ctx = Context::new(sample_document(), true);
    let old_token = ctx.on_query_changed(".".to_string());
    ctx.on_suggestion_chunk(SuggestionChunk {
        items: vec!["one".to_string()],
        generation: old_token.generation,
        more_available: true,
    });
    ctx.on_suggestion_chunk(SuggestionChunk {
        items: vec!["two".to_string()],
        generation: old_token.generation,
        more_available: false,
    });
    let snap = ctx.snapshot();
    assert_eq!(snap.suggestions, vec!["one", "two"]);
    assert!(!snap.more_suggestions);
    // a new keystroke clears the page; late chunks of the old generation
    // are discarded
    ctx.on_query_changed(".a".to_string());
    ctx.on_suggestion_chunk(SuggestionChunk {
        items: vec!["three".to_string()],
        generation: old_token.generation,
        more_available: false,
    });
    let cleared = ctx.snapshot();
    assert_eq!(cleared.suggestions.len(), 0);
}

#[test]
fn spinner_tick_reaches_snapshot() {
    let mut ctx = Context::new(JsonValue::Null, true);
    ctx.on_spinner_tick(SpinnerState { active: true, phase: 4 });
    let snap = ctx.snapshot();
    assert!(snap.spinner.active);
    assert_eq!(snap.spinner.phase, 4);
}

#[test]
fn snapshot_is_immutable_after_handoff() {
    let mut ctx = Context::new(sample_document(), true);
    let before = ctx.snapshot();
    let rows_before = before.rows.len();
    let token = ctx.on_query_changed(".b".to_string());
    ctx.on_eval_result(Outcome::Success(JsonValue::Text("x".to_string())), token.generation);
    // the snapshot handed out earlier still shows the old state
    assert_eq!(before.rows.len(), rows_before);
    assert_eq!(before.query_text, "");
    assert!(matches!(before.outcome, Outcome::Success(_)));
}

#[test]
fn new_context_passes_document_through() {
    let ctx = Context::new(sample_document(), true);
    let snap = ctx.snapshot();
    assert_eq!(snap.query_text, "");
    assert_eq!(snap.generation, 0);
    match &snap.outcome {
        Outcome::Success(v) => assert!(v.deep_eq(&sample_document())),
        _ => panic!("an empty expression passes the document through"),
    }
    assert_eq!(snap.rows.len(), 8);
    assert!(!snap.spinner.active);
}

#[test]
fn generation_law_helper_discards_stale() {
    let mut ctx = Context::new(sample_document(), true);
    jnv::context::law_only_latest_generation_applies(
        &mut ctx,
        ".a".to_string(),
        ".b".to_string(),
        Outcome::Success(JsonValue::Null),
    );
    let snap = ctx.snapshot();
    assert_eq!(snap.query_text, ".b");
    assert!(matches!(snap.outcome, Outcome::Pending));
}
