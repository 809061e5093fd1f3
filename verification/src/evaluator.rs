//! Query evaluator: what is published for the current expression.
//!
//! The external engine is a black box invoked elsewhere with the expression
//! and the document; it reports back a value, no output, or an error
//! message. The decisions around that call live here and are verified: an
//! empty expression never consults the engine and passes the document
//! through unchanged, and every reply maps to exactly one published
//! outcome. An engine error is data, never fatal: it flows through the
//! same publishing path as a success.

use vstd::prelude::*;

verus! {

use crate::json::JsonValue;
use crate::json::spec_json_eq;

/// The evaluation outcome held in the query state.
pub enum Outcome {
    /// A run for this generation has been armed but has not reported yet.
    Pending,
    Success(JsonValue),
    /// The engine returned no output at all.
    Empty,
    /// The engine rejected the expression or raised a runtime error; the
    /// message is surfaced verbatim, never parsed.
    EvalError(String),
}

/// What the external engine reported for one invocation.
pub enum EngineReply {
    Value(JsonValue),
    NoOutput,
    Error(String),
}

/// Outcomes are the same up to structural equality of the carried value.
pub open spec fn spec_outcome_eq(a: Outcome, b: Outcome) -> bool {
    match (a, b) {
        (Outcome::Pending, Outcome::Pending) => true,
        (Outcome::Success(x), Outcome::Success(y)) => spec_json_eq(x, y),
        (Outcome::Empty, Outcome::Empty) => true,
        (Outcome::EvalError(x), Outcome::EvalError(y)) => x@ == y@,
        _ => false,
    }
}

/// Whether the engine must be consulted for this expression.
pub enum EvalPlan {
    /// Empty expression: pass the document through unchanged.
    Passthrough,
    /// Hand the expression and the document to the engine.
    Invoke,
}

/// Decides whether the engine is consulted: exactly the empty expression
/// passes the document through.
pub fn plan_evaluation(expression: &String) -> (p: EvalPlan)
    ensures
        (p is Passthrough) == (expression@.len() == 0),
{
    if expression.as_str().unicode_len() == 0 {
        EvalPlan::Passthrough
    } else {
        EvalPlan::Invoke
    }
}

/// The outcome of an empty expression: the document itself.
pub fn passthrough_outcome(document: &JsonValue) -> (o: Outcome)
    ensures
        o matches Outcome::Success(v) && spec_json_eq(v, *document),
{
    Outcome::Success(document.deep_clone())
}

/// Maps the engine's reply to the published outcome, one reply to one
/// outcome: a value is a success, silence is `Empty`, and an error is
/// carried verbatim as `EvalError`.
pub fn outcome_of_reply(reply: EngineReply) -> (o: Outcome)
    ensures
        reply matches EngineReply::Value(v) ==> o == Outcome::Success(v),
        reply is NoOutput ==> o is Empty,
        reply matches EngineReply::Error(m) ==> o == Outcome::EvalError(m),
{
    match reply {
        EngineReply::Value(v) => Outcome::Success(v),
        EngineReply::NoOutput => Outcome::Empty,
        EngineReply::Error(m) => Outcome::EvalError(m),
    }
}

} // verus!
