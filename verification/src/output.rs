//! The output pipeline: pluggable report generators and the registry that
//! runs every one of them over the same batch of per-file analysis results.

use vstd::prelude::*;

use crate::analyzer::PdfAnalysisResult;
use crate::analyzer::PdfAnalysisV;
use crate::analyzer::listed_params_view;
use crate::config::Config;
use crate::config::ConfigParam;
use crate::config::ConfigV;
use crate::config::ConfigValueV;
use crate::config::ParamV;
use crate::config::params_view;

pub mod cost;
pub mod summary;

verus! {

/// One row of a report: a file and its labelled values in column order.
#[derive(Debug, Clone)]
pub struct OutputRow {
    pub filename: String,
    pub values: Vec<(String, String)>,
}

/// The mathematical value of a sequence of strings.
pub open spec fn strings_view(ss: Seq<String>) -> Seq<Seq<char>> {
    ss.map_values(|c: String| c@)
}

/// The mathematical value of a sequence of labelled values.
pub open spec fn pairs_view(ps: Seq<(String, String)>) -> Seq<(Seq<char>, Seq<char>)> {
    ps.map_values(|v: (String, String)| (v.0@, v.1@))
}

/// The mathematical value of an [`OutputRow`].
#[verifier::ext_equal]
pub struct RowV {
    pub filename: Seq<char>,
    pub values: Seq<(Seq<char>, Seq<char>)>,
}

impl View for OutputRow {
    type V = RowV;

    open spec fn view(&self) -> RowV {
        RowV {
            filename: self.filename@,
            values: pairs_view(self.values@),
        }
    }
}

/// One generated report: a title, column headers, ordered per-file rows,
/// ordered totals, and a plain-text rendering for copy and export.
#[derive(Debug, Clone)]
pub struct OutputData {
    pub title: String,
    pub columns: Vec<String>,
    pub per_pdf: Vec<OutputRow>,
    pub totals: Vec<(String, String)>,
    pub copyable_text: String,
}

/// The mathematical value of a sequence of report rows.
pub open spec fn rows_view(rs: Seq<OutputRow>) -> Seq<RowV> {
    rs.map_values(|r: OutputRow| r@)
}

/// The mathematical value of an [`OutputData`].
#[verifier::ext_equal]
pub struct DataV {
    pub title: Seq<char>,
    pub columns: Seq<Seq<char>>,
    pub per_pdf: Seq<RowV>,
    pub totals: Seq<(Seq<char>, Seq<char>)>,
    pub copyable_text: Seq<char>,
}

impl View for OutputData {
    type V = DataV;

    open spec fn view(&self) -> DataV {
        DataV {
            title: self.title@,
            columns: strings_view(self.columns@),
            per_pdf: rows_view(self.per_pdf@),
            totals: pairs_view(self.totals@),
            copyable_text: self.copyable_text@,
        }
    }
}

/// The mathematical value of a batch of per-file analysis results.
pub open spec fn results_view(rs: Seq<PdfAnalysisResult>) -> Seq<PdfAnalysisV> {
    rs.map_values(|r: PdfAnalysisResult| r@)
}

/// A report generator plugin. Each module turns the whole batch of per-file
/// results into one report, independently of its siblings; `generate` is a
/// pure function of the batch and the module's configuration, stated by
/// `spec_generate`.
pub trait OutputModule: Send + Sync {
    /// What this module's report says for a given batch.
    spec fn spec_generate(&self, results: Seq<PdfAnalysisV>) -> DataV;

    /// The stable unique key used for configuration lookups, as a
    /// mathematical value.
    spec fn spec_id(&self) -> Seq<char>;

    /// The display label, as a mathematical value.
    spec fn spec_name(&self) -> Seq<char>;

    /// The options this module offers, as mathematical values.
    spec fn spec_params(&self) -> Seq<ParamV>;

    /// This module's configuration state, as plain values.
    spec fn spec_config_state(&self) -> Seq<ConfigValueV>;

    /// The configuration state this module takes from `config`, starting
    /// from its current state: what its own declared keys say, everything
    /// else ignored.
    spec fn spec_configured(&self, config: ConfigV) -> Seq<ConfigValueV>;

    /// The stable unique key used for configuration lookups.
    fn id(&self) -> (r: &'static str)
        ensures
            r@ == self.spec_id(),
    ;

    /// The display label.
    fn name(&self) -> (r: &'static str)
        ensures
            r@ == self.spec_name(),
    ;

    /// Builds this module's report for `results`: exactly
    /// [`OutputModule::spec_generate`] of the batch.
    fn generate(&self, results: &Vec<PdfAnalysisResult>) -> (r: OutputData)
        ensures
            r@ == self.spec_generate(results_view(results@)),
    ;

    /// The options this module offers, with their defaults: exactly
    /// [`OutputModule::spec_params`].
    fn config_params(&self) -> (r: Vec<ConfigParam>)
        ensures
            params_view(r@) == self.spec_params(),
    ;

    /// Reads this module's own keys out of the store; anything not declared
    /// by it is ignored: afterwards the module's configuration state is
    /// exactly [`OutputModule::spec_configured`] of the store, and reading
    /// the same store again would change nothing.
    fn apply_config(&mut self, config: &Config)
        ensures
            final(self).spec_config_state() == old(self).spec_configured(config@),
            final(self).spec_config_state() == final(self).spec_configured(config@),
    ;
}

/// Report generation is pure: any two reports generated from the same batch
/// by the same configured module are identical.
pub proof fn lemma_generate_idempotent<M: OutputModule + ?Sized>(
    m: &M,
    results: Seq<PdfAnalysisV>,
    d1: DataV,
    d2: DataV,
)
    requires
        d1 == m.spec_generate(results),
        d2 == m.spec_generate(results),
    ensures
        d1 == d2,
{
}

/// One registered output module in the pipeline, with its key and label
/// cached at registration (both are pure by the trait's contracts).
pub struct RegisteredOutput {
    pub output: Box<dyn OutputModule>,
    pub id: &'static str,
    pub name: &'static str,
}

impl RegisteredOutput {
    /// Wraps a boxed output module for the registry with its cached key
    /// and label.
    pub fn wrap(output: Box<dyn OutputModule>, id: &'static str, name: &'static str) -> (r:
        RegisteredOutput)
        ensures
            r.id == id,
            r.name == name,
    {
        RegisteredOutput { output, id, name }
    }
}

/// The declared options of the report pipeline: for exactly those modules
/// whose option list is non-empty, in registration order, the cached key
/// and label with the options.
pub open spec fn declared_output_params(ms: Seq<RegisteredOutput>) -> Seq<
    (Seq<char>, Seq<char>, Seq<ParamV>),
>
    decreases ms.len(),
{
    if ms.len() == 0 {
        Seq::empty()
    } else {
        declared_output_params(ms.drop_last()) + (if ms.last().output.spec_params().len() > 0 {
            seq![(ms.last().id@, ms.last().name@, ms.last().output.spec_params())]
        } else {
            Seq::<(Seq<char>, Seq<char>, Seq<ParamV>)>::empty()
        })
    }
}

/// The ordered list of registered output modules: registration order is
/// generation order and display order.
pub struct OutputRegistry {
    pub outputs: Vec<RegisteredOutput>,
}

impl OutputRegistry {
    /// A registry with no output modules.
    pub fn new() -> (r: OutputRegistry)
        ensures
            r.outputs@.len() == 0,
    {
        OutputRegistry { outputs: Vec::new() }
    }

    /// Appends `output` at the end of the pipeline: every earlier module
    /// stays in place, and the new one comes last, its key and label cached
    /// from its own contract-pure `id` and `name`.
    pub fn register(&mut self, output: Box<dyn OutputModule>)
        ensures
            final(self).outputs@.len() == old(self).outputs@.len() + 1,
            final(self).outputs@.take(old(self).outputs@.len() as int) == old(self).outputs@,
            final(self).outputs@.last().id@ == output.spec_id(),
            final(self).outputs@.last().name@ == output.spec_name(),
    {
        let id = output.id();
        let name = output.name();
        let slot = RegisteredOutput::wrap(output, id, name);
        self.outputs.push(slot);
        proof {
            assert(self.outputs@.take(old(self).outputs@.len() as int) =~= old(self).outputs@);
        }
    }

    /// The registered output modules, in registration order.
    pub fn outputs(&self) -> (r: &Vec<RegisteredOutput>)
        ensures
            r@ == self.outputs@,
    {
        &self.outputs
    }

    /// Hands the store to every output module, in registration order: each
    /// slot's key and label stay as they were, and each module's
    /// configuration state becomes exactly its own reading of the store.
    pub fn apply_config(&mut self, config: &Config)
        ensures
            final(self).outputs@.len() == old(self).outputs@.len(),
            forall|k: int|
                0 <= k < old(self).outputs@.len() ==> {
                    let slot = #[trigger] final(self).outputs@[k];
                    &&& slot.id == old(self).outputs@[k].id
                    &&& slot.name == old(self).outputs@[k].name
                    &&& slot.output.spec_config_state() == old(
                        self,
                    ).outputs@[k].output.spec_configured(config@)
                    &&& slot.output.spec_config_state() == slot.output.spec_configured(config@)
                },
    {
        let mut i: usize = 0;
        while i < self.outputs.len()
            invariant
                i <= self.outputs@.len(),
                self.outputs@.len() == old(self).outputs@.len(),
                forall|k: int|
                    i <= k < self.outputs@.len() ==> #[trigger] self.outputs@[k] == old(
                        self,
                    ).outputs@[k],
                forall|k: int|
                    0 <= k < i ==> {
                        let slot = #[trigger] self.outputs@[k];
                        &&& slot.id == old(self).outputs@[k].id
                        &&& slot.name == old(self).outputs@[k].name
                        &&& slot.output.spec_config_state() == old(
                            self,
                        ).outputs@[k].output.spec_configured(config@)
                        &&& slot.output.spec_config_state() == slot.output.spec_configured(
                            config@,
                        )
                    },
            decreases self.outputs@.len() - i,
        {
            let mut o = self.outputs.remove(i);
            o.output.apply_config(config);
            self.outputs.insert(i, o);
            i = i + 1;
        }
    }

    /// The declared options of exactly those modules that have any, with
    /// their cached keys and labels, in registration order.
    pub fn all_config_params(&self) -> (r: Vec<(&'static str, &'static str, Vec<ConfigParam>)>)
        ensures
            listed_params_view(r@) == declared_output_params(self.outputs@),
    {
        let mut out: Vec<(&'static str, &'static str, Vec<ConfigParam>)> = Vec::new();
        let mut i: usize = 0;
        proof {
            assert(self.outputs@.take(0) =~= Seq::<RegisteredOutput>::empty());
            assert(listed_params_view(out@) =~= Seq::<(Seq<char>, Seq<char>, Seq<ParamV>)>::empty());
        }
        while i < self.outputs.len()
            invariant
                i <= self.outputs@.len(),
                listed_params_view(out@) == declared_output_params(self.outputs@.take(i as int)),
            decreases self.outputs@.len() - i,
        {
            proof {
                assert(self.outputs@.take(i as int + 1).last() == self.outputs@[i as int]);
                assert(self.outputs@.take(i as int + 1).drop_last() =~= self.outputs@.take(
                    i as int,
                ));
            }
            let o = &self.outputs[i];
            let params = o.output.config_params();
            if params.len() > 0 {
                let ghost before = out@;
                out.push((o.id, o.name, params));
                proof {
                    assert(listed_params_view(out@) =~~= listed_params_view(before).push(
                        (o.id@, o.name@, o.output.spec_params()),
                    ));
                    assert(listed_params_view(out@) =~~= declared_output_params(
                        self.outputs@.take(i as int + 1),
                    ));
                }
            } else {
                proof {
                    assert(params_view(params@).len() == 0);
                    assert(listed_params_view(out@) =~~= declared_output_params(
                        self.outputs@.take(i as int + 1),
                    ));
                }
            }
            i = i + 1;
        }
        proof {
            assert(self.outputs@.take(self.outputs@.len() as int) =~= self.outputs@);
        }
        out
    }

    /// Runs every registered module over the same batch and returns their
    /// reports in registration order: one report per module, each exactly
    /// that module's `spec_generate` of the batch, none observing another's
    /// output.
    pub fn generate_all(&self, results: &Vec<PdfAnalysisResult>) -> (r: Vec<OutputData>)
        ensures
            r@.len() == self.outputs@.len(),
            forall|k: int|
                0 <= k < r@.len() ==> (#[trigger] r@[k])@ == self.outputs@[k].output.spec_generate(
                    results_view(results@),
                ),
    {
        let mut out: Vec<OutputData> = Vec::new();
        let mut i: usize = 0;
        while i < self.outputs.len()
            invariant
                i <= self.outputs@.len(),
                out@.len() == i,
                forall|k: int|
                    0 <= k < i ==> (#[trigger] out@[k])@ == self.outputs@[k].output.spec_generate(
                        results_view(results@),
                    ),
            decreases self.outputs@.len() - i,
        {
            let o = &self.outputs[i];
            let data = o.output.generate(results);
            out.push(data);
            i = i + 1;
        }
        out
    }
}

impl Default for OutputRegistry {
    /// The built-in reports: the page summary first, then the cost estimate.
    fn default() -> (r: OutputRegistry)
        ensures
            r.outputs@.len() == 2,
            r.outputs@[0].id@ == "summary"@,
            r.outputs@[0].name@ == "Summary"@,
            r.outputs@[1].id@ == "cost"@,
            r.outputs@[1].name@ == "Cost Calculation"@,
    {
        let mut registry = OutputRegistry::new();
        registry.register(Box::new(summary::SummaryOutput::default()));
        proof {
            assert(registry.outputs@.last() == registry.outputs@[0]);
        }
        let ghost first = registry.outputs@[0];
        registry.register(Box::new(cost::CostOutput::default()));
        proof {
            assert(registry.outputs@[0] == registry.outputs@.take(1)[0]);
            assert(registry.outputs@[0] == first);
            assert(registry.outputs@.last() == registry.outputs@[1]);
        }
        registry
    }
}


/// `x`, saturated at the largest `usize`.
pub open spec fn cap_usize(x: int) -> int {
    if x > usize::MAX as int {
        usize::MAX as int
    } else {
        x
    }
}

/// `x`, saturated at the largest `u64`.
pub open spec fn cap_u64(x: int) -> int {
    if x > u64::MAX as int {
        u64::MAX as int
    } else {
        x
    }
}

/// The page count one file reports: the value of its last page-count fact,
/// or 0 when it has none.
pub open spec fn file_pages(rs: Seq<crate::analyzer::AnalysisResult>) -> int
    decreases rs.len(),
{
    if rs.len() == 0 {
        0
    } else {
        match rs.last() {
            crate::analyzer::AnalysisResult::PageCount { total } => total as int,
            _ => file_pages(rs.drop_last()),
        }
    }
}

/// The black & white page count one file reports: from its last color
/// analysis fact, or 0 when it has none.
pub open spec fn file_bw(rs: Seq<crate::analyzer::AnalysisResult>) -> int
    decreases rs.len(),
{
    if rs.len() == 0 {
        0
    } else {
        match rs.last() {
            crate::analyzer::AnalysisResult::ColorAnalysis { bw_pages, color_pages } => bw_pages
                as int,
            _ => file_bw(rs.drop_last()),
        }
    }
}

/// The color page count one file reports: from its last color analysis
/// fact, or 0 when it has none.
pub open spec fn file_color(rs: Seq<crate::analyzer::AnalysisResult>) -> int
    decreases rs.len(),
{
    if rs.len() == 0 {
        0
    } else {
        match rs.last() {
            crate::analyzer::AnalysisResult::ColorAnalysis { bw_pages, color_pages } => color_pages
                as int,
            _ => file_color(rs.drop_last()),
        }
    }
}

/// The page, black & white and color counts one file reports.
pub fn file_counts(r: &PdfAnalysisResult) -> (t: (usize, usize, usize))
    ensures
        t.0 as int == file_pages(r@.results),
        t.1 as int == file_bw(r@.results),
        t.2 as int == file_color(r@.results),
{
    let ghost rv = r@.results;
    let mut pages: usize = 0;
    let mut bw: usize = 0;
    let mut color: usize = 0;
    let mut k: usize = 0;
    proof {
        assert(rv.take(0) =~= Seq::<crate::analyzer::AnalysisResult>::empty());
    }
    while k < r.results.len()
        invariant
            k <= r.results@.len(),
            rv == r@.results,
            rv == r.results@,
            pages as int == file_pages(rv.take(k as int)),
            bw as int == file_bw(rv.take(k as int)),
            color as int == file_color(rv.take(k as int)),
        decreases r.results@.len() - k,
    {
        proof {
            assert(rv.take(k as int + 1).last() == rv[k as int]);
            assert(rv.take(k as int + 1).drop_last() =~= rv.take(k as int));
        }
        match r.results[k] {
            crate::analyzer::AnalysisResult::PageCount { total } => {
                pages = total;
            },
            crate::analyzer::AnalysisResult::ColorAnalysis { bw_pages, color_pages } => {
                bw = bw_pages;
                color = color_pages;
            },
        }
        k = k + 1;
    }
    proof {
        assert(rv.take(r.results@.len() as int) =~= rv);
    }
    (pages, bw, color)
}

/// The batch's total pages: per-file page counts summed left to right, each
/// step saturating at the largest `usize`.
pub open spec fn sum_pages(rs: Seq<PdfAnalysisV>) -> int
    decreases rs.len(),
{
    if rs.len() == 0 {
        0
    } else {
        cap_usize(sum_pages(rs.drop_last()) + file_pages(rs.last().results))
    }
}

/// The batch's total black & white pages, saturating as [`sum_pages`] does.
pub open spec fn sum_bw(rs: Seq<PdfAnalysisV>) -> int
    decreases rs.len(),
{
    if rs.len() == 0 {
        0
    } else {
        cap_usize(sum_bw(rs.drop_last()) + file_bw(rs.last().results))
    }
}

/// The batch's total color pages, saturating as [`sum_pages`] does.
pub open spec fn sum_color(rs: Seq<PdfAnalysisV>) -> int
    decreases rs.len(),
{
    if rs.len() == 0 {
        0
    } else {
        cap_usize(sum_color(rs.drop_last()) + file_color(rs.last().results))
    }
}

} // verus!
