//! The batch runner and aggregator: classify a collection of buffers,
//! accumulate per-category counts, and compute the unclassified percentage.
//!
//! A buffer that fails to parse is skipped and counted as a failure, never as
//! `Unknown`: the run totals distinguish "could not parse" from "parsed but
//! matched no heuristic", and one corrupt buffer does not abort the batch.

use vstd::prelude::*;

use crate::classify::{classify_spec, infer_language, Language};
use crate::module::{module_view_of, wasm_symbol_tables, ParseError};

verus! {

/// The outcome of a classification run: one count per category, the number of
/// buffers that parsed and were classified, and the number that failed to
/// parse. The per-category counts always sum to `classified`.
pub struct RunResult {
    pub rust: u64,
    pub emscripten: u64,
    pub assembly_script: u64,
    pub blazor: u64,
    pub go: u64,
    pub likely_compressed: u64,
    pub unknown: u64,
    pub classified: u64,
    pub failed: u64,
}

/// Mathematical model of a run's outcome.
pub struct RunView {
    pub rust: nat,
    pub emscripten: nat,
    pub assembly_script: nat,
    pub blazor: nat,
    pub go: nat,
    pub likely_compressed: nat,
    pub unknown: nat,
    pub classified: nat,
    pub failed: nat,
}

impl View for RunResult {
    type V = RunView;

    open spec fn view(&self) -> RunView {
        RunView {
            rust: self.rust as nat,
            emscripten: self.emscripten as nat,
            assembly_script: self.assembly_script as nat,
            blazor: self.blazor as nat,
            go: self.go as nat,
            likely_compressed: self.likely_compressed as nat,
            unknown: self.unknown as nat,
            classified: self.classified as nat,
            failed: self.failed as nat,
        }
    }
}

impl RunView {
    /// The run before any buffer has been processed.
    pub open spec fn empty() -> RunView {
        RunView {
            rust: 0,
            emscripten: 0,
            assembly_script: 0,
            blazor: 0,
            go: 0,
            likely_compressed: 0,
            unknown: 0,
            classified: 0,
            failed: 0,
        }
    }

    /// The sum of all per-category counts.
    pub open spec fn sum(self) -> nat {
        self.rust + self.emscripten + self.assembly_script + self.blazor + self.go
            + self.likely_compressed + self.unknown
    }

    /// The aggregation invariant: the per-category counts account for exactly
    /// the classified buffers.
    pub open spec fn wf(self) -> bool {
        self.sum() == self.classified
    }

    /// One unit recorded against `lang`, and one more buffer classified.
    pub open spec fn record(self, lang: Language) -> RunView {
        match lang {
            Language::Rust => RunView { rust: self.rust + 1, classified: self.classified + 1, ..self },
            Language::Emscripten => RunView {
                emscripten: self.emscripten + 1,
                classified: self.classified + 1,
                ..self
            },
            Language::AssemblyScript => RunView {
                assembly_script: self.assembly_script + 1,
                classified: self.classified + 1,
                ..self
            },
            Language::Blazor => RunView {
                blazor: self.blazor + 1,
                classified: self.classified + 1,
                ..self
            },
            Language::Go => RunView { go: self.go + 1, classified: self.classified + 1, ..self },
            Language::LikelyCompressed => RunView {
                likely_compressed: self.likely_compressed + 1,
                classified: self.classified + 1,
                ..self
            },
            Language::Unknown => RunView {
                unknown: self.unknown + 1,
                classified: self.classified + 1,
                ..self
            },
        }
    }

    /// One more buffer that failed to parse; the counts are untouched.
    pub open spec fn record_failure(self) -> RunView {
        RunView { failed: self.failed + 1, ..self }
    }

    /// Two partial runs combined by per-category summation.
    pub open spec fn merge(self, other: RunView) -> RunView {
        RunView {
            rust: self.rust + other.rust,
            emscripten: self.emscripten + other.emscripten,
            assembly_script: self.assembly_script + other.assembly_script,
            blazor: self.blazor + other.blazor,
            go: self.go + other.go,
            likely_compressed: self.likely_compressed + other.likely_compressed,
            unknown: self.unknown + other.unknown,
            classified: self.classified + other.classified,
            failed: self.failed + other.failed,
        }
    }
}

/// Merging is commutative: partial results may be combined in any order.
pub proof fn lemma_merge_commutes(u: RunView, v: RunView)
    ensures
        u.merge(v) == v.merge(u),
{
}

/// Merging is associative.
pub proof fn lemma_merge_associates(u: RunView, v: RunView, w: RunView)
    ensures
        u.merge(v).merge(w) == u.merge(v.merge(w)),
{
}

/// Recording a classification preserves the aggregation invariant and moves
/// exactly one buffer into the classified total.
pub proof fn lemma_record_wf(v: RunView, lang: Language)
    requires
        v.wf(),
    ensures
        v.record(lang).wf(),
        v.record(lang).classified == v.classified + 1,
        v.record(lang).failed == v.failed,
{
}

/// The outcome of a whole run over a sequence of buffers, buffer by buffer:
/// a buffer that decodes is recorded under its category, one that does not is
/// recorded as a failure.
pub open spec fn spec_run(bufs: Seq<Seq<u8>>) -> RunView
    decreases bufs.len(),
{
    if bufs.len() == 0 {
        RunView::empty()
    } else {
        let prev = spec_run(bufs.drop_last());
        match wasm_symbol_tables(bufs.last()) {
            Some(t) => prev.record(classify_spec(module_view_of(t))),
            None => prev.record_failure(),
        }
    }
}

/// Every run satisfies the aggregation invariant, and every buffer is
/// accounted for either as classified or as failed.
pub proof fn lemma_spec_run_wf(bufs: Seq<Seq<u8>>)
    ensures
        spec_run(bufs).wf(),
        spec_run(bufs).classified + spec_run(bufs).failed == bufs.len(),
    decreases bufs.len(),
{
    if bufs.len() > 0 {
        lemma_spec_run_wf(bufs.drop_last());
        if wasm_symbol_tables(bufs.last()) is Some {
            lemma_record_wf(
                spec_run(bufs.drop_last()),
                classify_spec(module_view_of(wasm_symbol_tables(bufs.last())->Some_0)),
            );
        }
    }
}

/// Aggregation law: over a collection in which every buffer parses, no
/// failure is recorded and the per-category counts sum to the collection's
/// size.
pub proof fn lemma_aggregation_invariant(bufs: Seq<Seq<u8>>)
    requires
        forall|i: int| 0 <= i < bufs.len() ==> (#[trigger] wasm_symbol_tables(bufs[i])) is Some,
    ensures
        spec_run(bufs).failed == 0,
        spec_run(bufs).classified == bufs.len(),
        spec_run(bufs).sum() == bufs.len(),
    decreases bufs.len(),
{
    lemma_spec_run_wf(bufs);
    if bufs.len() > 0 {
        assert(forall|i: int|
            0 <= i < bufs.drop_last().len() ==> bufs.drop_last()[i] == bufs[i]);
        lemma_aggregation_invariant(bufs.drop_last());
        assert(wasm_symbol_tables(bufs.last()) is Some);
    }
}

/// Partition law: a run over a collection equals the merge of independent
/// runs over its parts. Sharding the input and merging the partial results is
/// therefore equivalent to one sequential run.
pub proof fn lemma_run_partition(a: Seq<Seq<u8>>, b: Seq<Seq<u8>>)
    ensures
        spec_run(a + b) == spec_run(a).merge(spec_run(b)),
    decreases b.len(),
{
    if b.len() == 0 {
        assert(a + b =~= a);
        assert(spec_run(a).merge(RunView::empty()) == spec_run(a));
    } else {
        lemma_run_partition(a, b.drop_last());
        assert((a + b).drop_last() =~= a + b.drop_last());
        assert((a + b).last() == b.last());
    }
}

/// The views of a collection of buffers.
pub open spec fn buf_views(bufs: Seq<Vec<u8>>) -> Seq<Seq<u8>> {
    bufs.map_values(|b: Vec<u8>| b@)
}

/// What the per-buffer outcome of a run must be: the classification of the
/// decoded module when the buffer parses, an error otherwise.
pub open spec fn outcome_matches(b: Seq<u8>, o: Result<Language, ParseError>) -> bool {
    match wasm_symbol_tables(b) {
        Some(t) => o == Result::<Language, ParseError>::Ok(classify_spec(module_view_of(t))),
        None => o is Err,
    }
}

impl RunResult {
    /// A fresh run with nothing recorded.
    pub fn new() -> (r: RunResult)
        ensures
            r@ == RunView::empty(),
    {
        RunResult {
            rust: 0,
            emscripten: 0,
            assembly_script: 0,
            blazor: 0,
            go: 0,
            likely_compressed: 0,
            unknown: 0,
            classified: 0,
            failed: 0,
        }
    }

    /// Record one classified buffer against its category.
    pub fn record(&mut self, lang: Language)
        requires
            old(self)@.wf(),
            old(self)@.classified < u64::MAX,
        ensures
            final(self)@ == old(self)@.record(lang),
    {
        match lang {
            Language::Rust => self.rust = self.rust + 1,
            Language::Emscripten => self.emscripten = self.emscripten + 1,
            Language::AssemblyScript => self.assembly_script = self.assembly_script + 1,
            Language::Blazor => self.blazor = self.blazor + 1,
            Language::Go => self.go = self.go + 1,
            Language::LikelyCompressed => self.likely_compressed = self.likely_compressed + 1,
            Language::Unknown => self.unknown = self.unknown + 1,
        }
        self.classified = self.classified + 1;
    }

    /// Record one buffer that failed to parse.
    pub fn record_failure(&mut self)
        requires
            old(self)@.failed < u64::MAX,
        ensures
            final(self)@ == old(self)@.record_failure(),
    {
        self.failed = self.failed + 1;
    }

    /// Fold another partial result into this one by per-category summation,
    /// as when partial runs over shards of a collection are combined.
    pub fn merge(&mut self, other: &RunResult)
        requires
            old(self)@.wf(),
            other@.wf(),
            old(self)@.classified + other@.classified <= u64::MAX,
            old(self)@.failed + other@.failed <= u64::MAX,
        ensures
            final(self)@ == old(self)@.merge(other@),
    {
        self.rust = self.rust + other.rust;
        self.emscripten = self.emscripten + other.emscripten;
        self.assembly_script = self.assembly_script + other.assembly_script;
        self.blazor = self.blazor + other.blazor;
        self.go = self.go + other.go;
        self.likely_compressed = self.likely_compressed + other.likely_compressed;
        self.unknown = self.unknown + other.unknown;
        self.classified = self.classified + other.classified;
        self.failed = self.failed + other.failed;
    }

    /// The unclassified share of the classified buffers, as a percentage
    /// rounded to the nearest integer. Must only be computed for a run that
    /// classified at least one buffer.
    pub fn unclassified_percentage(&self) -> (p: u64)
        requires
            self@.wf(),
            self@.classified > 0,
        ensures
            p == rounded_percent(self@.unknown, self@.classified),
    {
        let num: u128 = 200u128 * (self.unknown as u128) + (self.classified as u128);
        let den: u128 = 2u128 * (self.classified as u128);
        proof {
            lemma_rounded_percent_bound(self@.unknown, self@.classified);
        }
        (num / den) as u64
    }

    /// The unclassified percentage, or nothing for a run in which no buffer
    /// was classified: the computation is skipped, not attempted.
    pub fn unclassified_summary(&self) -> (p: Option<u64>)
        requires
            self@.wf(),
        ensures
            self@.classified == 0 ==> p is None,
            self@.classified > 0 ==> (p matches Some(v) && v == rounded_percent(
                self@.unknown,
                self@.classified,
            )),
    {
        if self.classified == 0 {
            None
        } else {
            Some(self.unclassified_percentage())
        }
    }
}

/// `part` out of `total` as a percentage, rounded to the nearest integer
/// (halves round up).
pub open spec fn rounded_percent(part: nat, total: nat) -> nat
    recommends
        total > 0,
{
    (200 * part + total) / (2 * total)
}

/// The rounded percentage of a part never exceeds 100.
pub proof fn lemma_rounded_percent_bound(part: nat, total: nat)
    requires
        part <= total,
        total > 0,
    ensures
        rounded_percent(part, total) <= 100,
{
    let n = (200 * part + total) as int;
    let m = (201 * total) as int;
    let d = (2 * total) as int;
    vstd::arithmetic::div_mod::lemma_div_is_ordered(n, m, d);
    vstd::arithmetic::div_mod::lemma_fundamental_div_mod_converse(m, d, 100, total as int);
}

/// Classify every buffer of a collection. Returns the per-buffer outcomes,
/// in order, and the aggregated run: a buffer that fails to parse is reported
/// as a failure and skipped, and never aborts the rest of the batch.
pub fn run_batch(bufs: &Vec<Vec<u8>>) -> (r: (Vec<Result<Language, ParseError>>, RunResult))
    ensures
        r.0@.len() == bufs@.len(),
        forall|i: int| 0 <= i < bufs@.len() ==> outcome_matches(bufs@[i]@, #[trigger] r.0@[i]),
        r.1@ == spec_run(buf_views(bufs@)),
        r.1@.wf(),
        r.1@.classified + r.1@.failed == bufs@.len(),
{
    let ghost views = buf_views(bufs@);
    let mut outcomes: Vec<Result<Language, ParseError>> = Vec::new();
    let mut agg = RunResult::new();
    let mut i: usize = 0;
    while i < bufs.len()
        invariant
            i <= bufs@.len(),
            outcomes@.len() == i,
            views == buf_views(bufs@),
            views.len() == bufs@.len(),
            forall|j: int| 0 <= j < i ==> outcome_matches(bufs@[j]@, #[trigger] outcomes@[j]),
            agg@ == spec_run(views.take(i as int)),
            agg@.wf(),
            agg@.classified + agg@.failed == i,
        decreases bufs@.len() - i,
    {
        proof {
            assert(views.take(i + 1).drop_last() =~= views.take(i as int));
            assert(views.take(i + 1).last() == bufs@[i as int]@);
        }
        let outcome = infer_language(&bufs[i]);
        match outcome {
            Ok(lang) => {
                proof {
                    lemma_record_wf(agg@, lang);
                }
                agg.record(lang);
            },
            Err(_) => {
                agg.record_failure();
            },
        }
        outcomes.push(outcome);
        i += 1;
    }
    proof {
        assert(views.take(i as int) =~= views);
    }
    (outcomes, agg)
}

} // verus!
