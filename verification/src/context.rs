//! View state aggregator: the single owner of current truth.
//!
//! The aggregator holds the latest query text and outcome, the suggestion
//! page, the spinner state and the fold state, and is the sole mutation
//! point for all of them: evaluator completions, loader chunks and spinner
//! ticks are funneled through its methods one at a time, so no snapshot can
//! ever show a torn state. A completion or chunk tagged with a generation
//! older than the current one is discarded without any observable state
//! transition. `snapshot` builds a fresh immutable composite each time; a
//! snapshot already handed to the renderer is never touched again.

use vstd::prelude::*;

verus! {

use crate::evaluator::Outcome;
use crate::evaluator::spec_outcome_eq;
use crate::fold::FoldState;
use crate::generation::CancellationToken;
use crate::generation::GenerationCounter;
use crate::json::JsonValue;
use crate::json::spec_json_eq;
use crate::loader::SuggestionChunk;
use crate::rows::Row;
use crate::rows::rows_view;
use crate::rows::spec_rows;
use crate::rows::format_rows;
use crate::spinner::SpinnerState;

/// The latest expression and what evaluating it produced.
pub struct QueryState {
    pub text: String,
    pub generation: u64,
    pub outcome: Outcome,
}

/// The suggestion candidates delivered so far for the current generation.
pub struct SuggestionPage {
    /// Insertion order is scan order, which is relevance order.
    pub items: Vec<String>,
    pub generation: u64,
    pub cursor: usize,
    pub more_available: bool,
}

/// An immutable point-in-time composite for the renderer.
pub struct RenderSnapshot {
    pub query_text: String,
    pub generation: u64,
    pub outcome: Outcome,
    pub suggestions: Vec<String>,
    pub suggestion_cursor: usize,
    pub more_suggestions: bool,
    pub spinner: SpinnerState,
    pub rows: Vec<Row>,
}

/// The aggregator.
pub struct Context {
    pub generations: GenerationCounter,
    pub query: QueryState,
    pub page: SuggestionPage,
    pub spinner: SpinnerState,
    pub fold: FoldState,
    /// Configured base fold policy applied whenever a fresh value arrives.
    pub expand_default: bool,
    /// The value currently shown in the result pane: the last successful
    /// result, kept visible underneath an error indicator.
    pub displayed: Option<JsonValue>,
    /// The formatted row list for `displayed` under `fold`.
    pub rows: Vec<Row>,
}

impl Context {
    /// Well-formedness: query and page carry the current generation, and
    /// the row list is exactly the formatted image of the displayed value.
    pub open spec fn wf(&self) -> bool {
        &&& self.query.generation == self.generations.current
        &&& self.page.generation == self.generations.current
        &&& match self.displayed {
            Some(v) => rows_view(self.rows@) == spec_rows(v, self.fold, Seq::empty(), None),
            None => rows_view(self.rows@) == Seq::<crate::rows::RowV>::empty(),
        }
    }

    /// A fresh aggregator showing the whole document: generation zero with
    /// the document passed through unchanged, no suggestions yet, spinner
    /// idle, fold state at the configured base policy.
    pub fn new(document: JsonValue, expand_default: bool) -> (r: Self)
        ensures
            r.wf(),
            r.generations.current == 0,
            r.query.text@ == Seq::<char>::empty(),
            r.query.outcome matches Outcome::Success(v) && spec_json_eq(v, document),
            r.displayed == Some(document),
            r.page.items@.len() == 0,
            r.page.cursor == 0,
            !r.page.more_available,
            !r.spinner.active,
            r.spinner.phase == 0,
            r.fold.expand_all == expand_default,
            r.fold.overrides@.len() == 0,
            r.expand_default == expand_default,
    {
        let fold = FoldState::new(expand_default);
        let rows = format_rows(&document, &fold);
        let outcome = Outcome::Success(document.deep_clone());
        Context {
            generations: GenerationCounter::new(),
            query: QueryState { text: String::new(), generation: 0, outcome },
            page: SuggestionPage {
                items: Vec::new(),
                generation: 0,
                cursor: 0,
                more_available: false,
            },
            spinner: SpinnerState { active: false, phase: 0 },
            fold,
            expand_default,
            displayed: Some(document),
            rows,
        }
    }

    /// A keystroke changed the expression: bumps the generation — which
    /// cancels every token issued before — clears the suggestion page,
    /// marks the query pending, and returns the new generation's token for
    /// the evaluator and loader runs armed through the debounce scheduler.
    /// Everything displayed stays as it was until a result arrives.
    pub fn on_query_changed(&mut self, text: String) -> (token: CancellationToken)
        requires
            old(self).wf(),
            old(self).generations.current < u64::MAX,
        ensures
            final(self).wf(),
            final(self).generations.current == old(self).generations.current + 1,
            token.generation == final(self).generations.current,
            final(self).query.text == text,
            final(self).query.generation == final(self).generations.current,
            final(self).query.outcome is Pending,
            final(self).page.items@.len() == 0,
            final(self).page.generation == final(self).generations.current,
            final(self).page.cursor == 0,
            !final(self).page.more_available,
            final(self).spinner == old(self).spinner,
            final(self).fold == old(self).fold,
            final(self).displayed == old(self).displayed,
            final(self).rows == old(self).rows,
            final(self).expand_default == old(self).expand_default,
    {
        let token = self.generations.begin_generation();
        self.query = QueryState {
            text,
            generation: token.generation,
            outcome: Outcome::Pending,
        };
        self.page = SuggestionPage {
            items: Vec::new(),
            generation: token.generation,
            cursor: 0,
            more_available: false,
        };
        token
    }

    /// An evaluator completion arrived. A completion tagged with a stale
    /// generation is discarded: no observable state transition occurs. A
    /// current one is published: the outcome is stored; a success replaces
    /// the displayed tree, resets the fold state to the base policy and
    /// reformats the rows, while an error or an empty result leaves the
    /// previously displayed value — and the suggestion page — untouched.
    pub fn on_eval_result(&mut self, outcome: Outcome, generation: u64)
        requires
            old(self).wf(),
        ensures
            final(self).wf(),
            generation != old(self).generations.current ==> *final(self) == *old(self),
            generation == old(self).generations.current ==> {
                &&& final(self).generations == old(self).generations
                &&& final(self).page == old(self).page
                &&& final(self).spinner == old(self).spinner
                &&& final(self).expand_default == old(self).expand_default
                &&& final(self).query.text == old(self).query.text
                &&& final(self).query.generation == generation
                &&& (outcome matches Outcome::Success(v) ==> {
                    &&& final(self).query.outcome matches Outcome::Success(w) && spec_json_eq(w, v)
                    &&& final(self).fold.expand_all == old(self).expand_default
                    &&& final(self).fold.overrides@.len() == 0
                    &&& final(self).displayed == Some(v)
                    &&& rows_view(final(self).rows@) == spec_rows(
                        v,
                        final(self).fold,
                        Seq::empty(),
                        None,
                    )
                })
                &&& !(outcome is Success) ==> {
                    &&& final(self).query.outcome == outcome
                    &&& final(self).fold == old(self).fold
                    &&& final(self).displayed == old(self).displayed
                    &&& final(self).rows == old(self).rows
                }
            },
    {
        if generation != self.generations.current {
            return;
        }
        self.query.generation = generation;
        match outcome {
            Outcome::Success(v) => {
                self.fold = FoldState::new(self.expand_default);
                self.rows = format_rows(&v, &self.fold);
                self.query.outcome = Outcome::Success(v.deep_clone());
                self.displayed = Some(v);
            },
            other => {
                self.query.outcome = other;
            },
        }
    }

    /// A loader chunk arrived. A chunk tagged with a stale generation is
    /// discarded without any observable state transition; a current one is
    /// appended to the suggestion page in delivery order, leaving every
    /// candidate delivered earlier in place.
    pub fn on_suggestion_chunk(&mut self, chunk: SuggestionChunk)
        requires
            old(self).wf(),
        ensures
            final(self).wf(),
            chunk.generation != old(self).generations.current ==> *final(self) == *old(self),
            chunk.generation == old(self).generations.current ==> {
                &&& final(self).generations == old(self).generations
                &&& final(self).query == old(self).query
                &&& final(self).spinner == old(self).spinner
                &&& final(self).fold == old(self).fold
                &&& final(self).displayed == old(self).displayed
                &&& final(self).rows == old(self).rows
                &&& final(self).expand_default == old(self).expand_default
                &&& final(self).page.items@ == old(self).page.items@ + chunk.items@
                &&& final(self).page.generation == old(self).page.generation
                &&& final(self).page.cursor == old(self).page.cursor
                &&& final(self).page.more_available == chunk.more_available
            },
    {
        if chunk.generation != self.generations.current {
            return;
        }
        let mut items = chunk.items;
        self.page.items.append(&mut items);
        self.page.more_available = chunk.more_available;
    }

    /// A spinner tick arrived: the published spinner state is replaced and
    /// nothing else moves.
    pub fn on_spinner_tick(&mut self, state: SpinnerState)
        requires
            old(self).wf(),
        ensures
            final(self).wf(),
            final(self).spinner == state,
            final(self).generations == old(self).generations,
            final(self).query == old(self).query,
            final(self).page == old(self).page,
            final(self).fold == old(self).fold,
            final(self).displayed == old(self).displayed,
            final(self).rows == old(self).rows,
            final(self).expand_default == old(self).expand_default,
    {
        self.spinner = state;
    }

    /// The user toggled a fold. The toggle applies to the currently
    /// displayed value only and is independent of the generation
    /// bookkeeping: it re-triggers no evaluation, and with nothing
    /// displayed it is a no-op. The rows are reformatted under the flipped
    /// fold state.
    pub fn on_fold_toggle(&mut self, path: Vec<usize>)
        requires
            old(self).wf(),
        ensures
            final(self).wf(),
            final(self).generations == old(self).generations,
            final(self).query == old(self).query,
            final(self).page == old(self).page,
            final(self).spinner == old(self).spinner,
            final(self).displayed == old(self).displayed,
            final(self).expand_default == old(self).expand_default,
            old(self).displayed is None ==> final(self).fold == old(self).fold && final(
                self).rows == old(self).rows,
            old(self).displayed is Some ==> {
                &&& final(self).fold.expand_all == old(self).fold.expand_all
                &&& final(self).fold.overrides@ == old(self).fold.overrides@.push(
                    (path, !old(self).fold.spec_collapsed(path@)),
                )
                &&& final(self).fold.spec_collapsed(path@) == !old(self).fold.spec_collapsed(
                    path@,
                )
            },
    {
        if self.displayed.is_some() {
            self.fold.toggle(path);
            let new_rows = match &self.displayed {
                Some(d) => format_rows(d, &self.fold),
                None => Vec::new(),
            };
            self.rows = new_rows;
        }
    }

    /// Builds a fresh immutable snapshot of everything the renderer draws.
    /// The snapshot is a copy: later mutations of the aggregator never
    /// reach a snapshot already handed out.
    pub fn snapshot(&self) -> (snap: RenderSnapshot)
        ensures
            snap.query_text == self.query.text,
            snap.generation == self.generations.current,
            spec_outcome_eq(snap.outcome, self.query.outcome),
            snap.suggestions@ == self.page.items@,
            snap.suggestion_cursor == self.page.cursor,
            snap.more_suggestions == self.page.more_available,
            snap.spinner == self.spinner,
            snap.rows@ == self.rows@,
    {
        RenderSnapshot {
            query_text: self.query.text.clone(),
            generation: self.generations.current,
            outcome: clone_outcome(&self.query.outcome),
            suggestions: clone_strings(&self.page.items),
            suggestion_cursor: self.page.cursor,
            more_suggestions: self.page.more_available,
            spinner: self.spinner,
            rows: clone_rows(&self.rows),
        }
    }
}

/// A copy of an outcome, equal up to structural equality of the value.
fn clone_outcome(o: &Outcome) -> (r: Outcome)
    ensures
        spec_outcome_eq(r, *o),
{
    match o {
        Outcome::Pending => Outcome::Pending,
        Outcome::Success(v) => Outcome::Success(v.deep_clone()),
        Outcome::Empty => Outcome::Empty,
        Outcome::EvalError(m) => Outcome::EvalError(m.clone()),
    }
}

/// An equal copy of a candidate list.
fn clone_strings(items: &Vec<String>) -> (r: Vec<String>)
    ensures
        r@ == items@,
{
    let mut r: Vec<String> = Vec::new();
    let mut i: usize = 0;
    while i < items.len()
        invariant
            i <= items@.len(),
            r@ == items@.take(i as int),
        decreases items@.len() - i,
    {
        r.push(items[i].clone());
        proof {
            assert(items@.take(i + 1) =~= items@.take(i as int).push(items@[i as int]));
        }
        i = i + 1;
    }
    proof {
        assert(items@.take(items@.len() as int) =~= items@);
    }
    r
}

/// An equal copy of a row list.
fn clone_rows(rows: &Vec<Row>) -> (r: Vec<Row>)
    ensures
        r@ == rows@,
{
    let mut r: Vec<Row> = Vec::new();
    let mut i: usize = 0;
    while i < rows.len()
        invariant
            i <= rows@.len(),
            r@ == rows@.take(i as int),
        decreases rows@.len() - i,
    {
        let row = &rows[i];
        let key = match &row.key {
            Some(k) => Some(k.clone()),
            None => None,
        };
        r.push(
            Row {
                depth: row.depth,
                key,
                style: row.style,
                collapsed: row.collapsed,
                text: row.text.clone(),
            },
        );
        proof {
            assert(r@.last() == rows@[i as int]);
            assert(rows@.take(i + 1) =~= rows@.take(i as int).push(rows@[i as int]));
        }
        i = i + 1;
    }
    proof {
        assert(rows@.take(rows@.len() as int) =~= rows@);
    }
    r
}

/// Generation law: after any two successive query changes, a result tagged
/// with the superseded generation is provably discarded — the state stays
/// exactly as the latest change left it: pending, with the latest text and
/// a cleared suggestion page. Only a delivery tagged with the latest
/// generation can publish, which is what `on_eval_result` ensures.
pub fn law_only_latest_generation_applies(
    ctx: &mut Context,
    first_text: String,
    latest_text: String,
    result: Outcome,
)
    requires
        old(ctx).wf(),
        old(ctx).generations.current + 2 <= u64::MAX,
    ensures
        final(ctx).wf(),
        final(ctx).generations.current == old(ctx).generations.current + 2,
        final(ctx).query.text == latest_text,
        final(ctx).query.outcome is Pending,
        final(ctx).page.items@.len() == 0,
        final(ctx).displayed == old(ctx).displayed,
        final(ctx).rows == old(ctx).rows,
{
    let stale = ctx.on_query_changed(first_text);
    let _latest = ctx.on_query_changed(latest_text);
    let ghost converged = *ctx;
    // the delivery below is tagged with the superseded token: the contract
    // forces it to leave no observable trace
    ctx.on_eval_result(result, stale.generation);
    proof {
        assert(*ctx == converged);
    }
}

} // verus!
