//! The analyzer pipeline: pluggable document analyzers and the registry that
//! runs them all over one loaded document, collecting partial failures.

use vstd::prelude::*;
use vstd::string::StringExecFns;

use pdfium_render::prelude::PdfDocument;

use crate::config::Config;
use crate::config::ConfigParam;
use crate::config::ConfigV;
use crate::config::ConfigValueV;
use crate::config::ParamV;
use crate::config::params_view;
use crate::error::AppResult;

pub mod color_analysis;
pub mod page_count;

verus! {

/// One structured fact an analyzer produced about one document.
#[derive(Debug, Clone, Copy, PartialEq, Eq, Structural)]
pub enum AnalysisResult {
    /// The document's total page count.
    PageCount { total: usize },
    /// How many pages are black & white and how many are color.
    ColorAnalysis { bw_pages: usize, color_pages: usize },
}

/// Everything the pipeline learned about one file: the facts the analyzers
/// produced, in registration order, and one message for each analyzer that
/// failed.
#[derive(Debug, Clone)]
pub struct PdfAnalysisResult {
    pub filename: String,
    pub path: String,
    pub results: Vec<AnalysisResult>,
    pub errors: Vec<String>,
}

/// The mathematical value of a [`PdfAnalysisResult`].
#[verifier::ext_equal]
pub struct PdfAnalysisV {
    pub filename: Seq<char>,
    pub path: Seq<char>,
    pub results: Seq<AnalysisResult>,
    pub errors: Seq<Seq<char>>,
}

impl View for PdfAnalysisResult {
    type V = PdfAnalysisV;

    open spec fn view(&self) -> PdfAnalysisV {
        PdfAnalysisV {
            filename: self.filename@,
            path: self.path@,
            results: self.results@,
            errors: messages_view(self.errors@),
        }
    }
}

/// A document analyzer plugin. Each analyzer turns one loaded document into
/// one structured fact, or fails on its own without disturbing its siblings.
pub trait Analyzer: Send + Sync {
    /// The stable unique key used for configuration lookups, as a
    /// mathematical value.
    spec fn spec_id(&self) -> Seq<char>;

    /// The display label, as a mathematical value.
    spec fn spec_name(&self) -> Seq<char>;

    /// Which facts this analyzer can produce.
    spec fn valid_result(&self, result: AnalysisResult) -> bool;

    /// The options this analyzer offers, as mathematical values.
    spec fn spec_params(&self) -> Seq<ParamV>;

    /// This analyzer's configuration state, as plain values.
    spec fn spec_config_state(&self) -> Seq<ConfigValueV>;

    /// The configuration state this analyzer takes from `config`, starting
    /// from its current state: what its own declared keys say, everything
    /// else ignored.
    spec fn spec_configured(&self, config: ConfigV) -> Seq<ConfigValueV>;

    /// The stable unique key used for configuration lookups.
    fn id(&self) -> (r: &'static str)
        ensures
            r@ == self.spec_id(),
    ;

    /// The display label.
    fn name(&self) -> (r: &'static str)
        ensures
            r@ == self.spec_name(),
    ;

    /// Inspects `document` and produces one fact, or this analyzer's error.
    fn analyze(&self, document: &PdfDocument, path: &str) -> (r: AppResult<AnalysisResult>)
        ensures
            r matches Ok(a) ==> self.valid_result(a),
    ;

    /// The options this analyzer offers, with their defaults: exactly
    /// [`Analyzer::spec_params`].
    fn config_params(&self) -> (r: Vec<ConfigParam>)
        ensures
            params_view(r@) == self.spec_params(),
    ;

    /// Reads this analyzer's own keys out of the store; anything not
    /// declared by it is ignored: afterwards the analyzer's configuration
    /// state is exactly [`Analyzer::spec_configured`] of the store, and
    /// reading the same store again would change nothing.
    fn apply_config(&mut self, config: &Config)
        ensures
            final(self).spec_config_state() == old(self).spec_configured(config@),
            final(self).spec_config_state() == final(self).spec_configured(config@),
    ;
}

/// One registered analyzer in the pipeline, with its key and label cached
/// at registration (both are pure by the trait's contracts).
pub struct RegisteredAnalyzer {
    pub analyzer: Box<dyn Analyzer>,
    pub id: &'static str,
    pub name: &'static str,
}

impl RegisteredAnalyzer {
    /// Wraps a boxed analyzer for the registry with its cached key and
    /// label.
    pub fn wrap(analyzer: Box<dyn Analyzer>, id: &'static str, name: &'static str) -> (r:
        RegisteredAnalyzer)
        ensures
            r.id == id,
            r.name == name,
    {
        RegisteredAnalyzer { analyzer, id, name }
    }
}

/// The mathematical value of a list of messages.
pub open spec fn messages_view(es: Seq<String>) -> Seq<Seq<char>> {
    es.map_values(|e: String| e@)
}

/// A message for one failed analyzer: its display label, a colon and a
/// space, then the reason.
pub open spec fn error_message_for(name: Seq<char>, msg: Seq<char>) -> bool {
    exists|reason: Seq<char>| msg == name + ": "@ + reason
}

/// How one pipeline run relates to the registered analyzers: `ok` says for
/// each analyzer, in registration order, whether it succeeded; the facts
/// are the successful analyzers' results in that order, each one a result
/// its analyzer can produce, and the errors are the failing analyzers'
/// messages in that order, each formatted from its analyzer's label.
pub open spec fn pipeline_consistent(
    analyzers: Seq<RegisteredAnalyzer>,
    ok: Seq<bool>,
    results: Seq<AnalysisResult>,
    errors: Seq<Seq<char>>,
) -> bool
    decreases analyzers.len(),
{
    if analyzers.len() == 0 {
        ok.len() == 0 && results.len() == 0 && errors.len() == 0
    } else {
        &&& ok.len() == analyzers.len()
        &&& if ok.last() {
            &&& results.len() > 0
            &&& analyzers.last().analyzer.valid_result(results.last())
            &&& pipeline_consistent(
                analyzers.drop_last(),
                ok.drop_last(),
                results.drop_last(),
                errors,
            )
        } else {
            &&& errors.len() > 0
            &&& error_message_for(analyzers.last().analyzer.spec_name(), errors.last())
            &&& pipeline_consistent(
                analyzers.drop_last(),
                ok.drop_last(),
                results,
                errors.drop_last(),
            )
        }
    }
}

/// The declared options of a pipeline: for exactly those analyzers whose
/// option list is non-empty, in registration order, the cached key and
/// label with the options.
pub open spec fn declared_analyzer_params(ms: Seq<RegisteredAnalyzer>) -> Seq<
    (Seq<char>, Seq<char>, Seq<ParamV>),
>
    decreases ms.len(),
{
    if ms.len() == 0 {
        Seq::empty()
    } else {
        declared_analyzer_params(ms.drop_last()) + (if ms.last().analyzer.spec_params().len() > 0 {
            seq![(ms.last().id@, ms.last().name@, ms.last().analyzer.spec_params())]
        } else {
            Seq::<(Seq<char>, Seq<char>, Seq<ParamV>)>::empty()
        })
    }
}

/// The mathematical value of a listing of modules' declared options.
pub open spec fn listed_params_view(
    xs: Seq<(&'static str, &'static str, Vec<ConfigParam>)>,
) -> Seq<(Seq<char>, Seq<char>, Seq<ParamV>)> {
    xs.map_values(|x: (&'static str, &'static str, Vec<ConfigParam>)| (x.0@, x.1@, params_view(x.2@)))
}

/// The ordered list of registered analyzers: registration order is execution
/// order and output order.
pub struct AnalyzerRegistry {
    pub analyzers: Vec<RegisteredAnalyzer>,
}

impl AnalyzerRegistry {
    /// A registry with no analyzers.
    pub fn new() -> (r: AnalyzerRegistry)
        ensures
            r.analyzers@.len() == 0,
    {
        AnalyzerRegistry { analyzers: Vec::new() }
    }

    /// Appends `analyzer` at the end of the pipeline: every earlier
    /// analyzer stays in place, and the new one comes last, its key and
    /// label cached from its own contract-pure `id` and `name`.
    pub fn register(&mut self, analyzer: Box<dyn Analyzer>)
        ensures
            final(self).analyzers@.len() == old(self).analyzers@.len() + 1,
            final(self).analyzers@.take(old(self).analyzers@.len() as int) == old(self).analyzers@,
            final(self).analyzers@.last().id@ == analyzer.spec_id(),
            final(self).analyzers@.last().name@ == analyzer.spec_name(),
    {
        let id = analyzer.id();
        let name = analyzer.name();
        let slot = RegisteredAnalyzer::wrap(analyzer, id, name);
        self.analyzers.push(slot);
        proof {
            assert(self.analyzers@.take(old(self).analyzers@.len() as int) =~= old(
                self,
            ).analyzers@);
        }
    }

    /// The registered analyzers, in registration order.
    pub fn analyzers(&self) -> (r: &Vec<RegisteredAnalyzer>)
        ensures
            r@ == self.analyzers@,
    {
        &self.analyzers
    }

    /// Hands the store to every analyzer, in registration order: each
    /// slot's key and label stay as they were, and each analyzer's
    /// configuration state becomes exactly its own reading of the store.
    pub fn apply_config(&mut self, config: &Config)
        ensures
            final(self).analyzers@.len() == old(self).analyzers@.len(),
            forall|k: int|
                0 <= k < old(self).analyzers@.len() ==> {
                    let slot = #[trigger] final(self).analyzers@[k];
                    &&& slot.id == old(self).analyzers@[k].id
                    &&& slot.name == old(self).analyzers@[k].name
                    &&& slot.analyzer.spec_config_state() == old(
                        self,
                    ).analyzers@[k].analyzer.spec_configured(config@)
                    &&& slot.analyzer.spec_config_state() == slot.analyzer.spec_configured(config@)
                },
    {
        let mut i: usize = 0;
        while i < self.analyzers.len()
            invariant
                i <= self.analyzers@.len(),
                self.analyzers@.len() == old(self).analyzers@.len(),
                forall|k: int|
                    i <= k < self.analyzers@.len() ==> #[trigger] self.analyzers@[k] == old(
                        self,
                    ).analyzers@[k],
                forall|k: int|
                    0 <= k < i ==> {
                        let slot = #[trigger] self.analyzers@[k];
                        &&& slot.id == old(self).analyzers@[k].id
                        &&& slot.name == old(self).analyzers@[k].name
                        &&& slot.analyzer.spec_config_state() == old(
                            self,
                        ).analyzers@[k].analyzer.spec_configured(config@)
                        &&& slot.analyzer.spec_config_state() == slot.analyzer.spec_configured(
                            config@,
                        )
                    },
            decreases self.analyzers@.len() - i,
        {
            let mut a = self.analyzers.remove(i);
            a.analyzer.apply_config(config);
            self.analyzers.insert(i, a);
            i = i + 1;
        }
    }

    /// The declared options of exactly those analyzers that have any, with
    /// their cached keys and labels, in registration order.
    pub fn all_config_params(&self) -> (r: Vec<(&'static str, &'static str, Vec<ConfigParam>)>)
        ensures
            listed_params_view(r@) == declared_analyzer_params(self.analyzers@),
    {
        let mut out: Vec<(&'static str, &'static str, Vec<ConfigParam>)> = Vec::new();
        let mut i: usize = 0;
        proof {
            assert(self.analyzers@.take(0) =~= Seq::<RegisteredAnalyzer>::empty());
            assert(listed_params_view(out@) =~= Seq::<(Seq<char>, Seq<char>, Seq<ParamV>)>::empty());
        }
        while i < self.analyzers.len()
            invariant
                i <= self.analyzers@.len(),
                listed_params_view(out@) == declared_analyzer_params(
                    self.analyzers@.take(i as int),
                ),
            decreases self.analyzers@.len() - i,
        {
            proof {
                assert(self.analyzers@.take(i as int + 1).last() == self.analyzers@[i as int]);
                assert(self.analyzers@.take(i as int + 1).drop_last() =~= self.analyzers@.take(
                    i as int,
                ));
            }
            let a = &self.analyzers[i];
            let params = a.analyzer.config_params();
            if params.len() > 0 {
                let ghost before = out@;
                out.push((a.id, a.name, params));
                proof {
                    assert(listed_params_view(out@) =~~= listed_params_view(before).push(
                        (a.id@, a.name@, a.analyzer.spec_params()),
                    ));
                    assert(listed_params_view(out@) =~~= declared_analyzer_params(
                        self.analyzers@.take(i as int + 1),
                    ));
                }
            } else {
                proof {
                    assert(params_view(params@).len() == 0);
                    assert(listed_params_view(out@) =~~= declared_analyzer_params(
                        self.analyzers@.take(i as int + 1),
                    ));
                }
            }
            i = i + 1;
        }
        proof {
            assert(self.analyzers@.take(self.analyzers@.len() as int) =~= self.analyzers@);
        }
        out
    }

    /// Runs every analyzer over `document` in registration order. Exactly
    /// one of the two lists grows per analyzer: a fact on success, a
    /// message formatted from the analyzer's label on failure; both lists
    /// keep registration order, as [`pipeline_consistent`] states. One
    /// analyzer's failure never prevents the others from running.
    pub fn analyze_all(&self, document: &PdfDocument, path: &str) -> (r: (
        Vec<AnalysisResult>,
        Vec<String>,
    ))
        ensures
            r.0@.len() + r.1@.len() == self.analyzers@.len(),
            exists|ok: Seq<bool>|
                #[trigger] pipeline_consistent(self.analyzers@, ok, r.0@, messages_view(r.1@)),
    {
        let mut results: Vec<AnalysisResult> = Vec::new();
        let mut errors: Vec<String> = Vec::new();
        let ghost mut ok: Seq<bool> = Seq::empty();
        let mut i: usize = 0;
        proof {
            assert(self.analyzers@.take(0) =~= Seq::<RegisteredAnalyzer>::empty());
            assert(messages_view(errors@) =~= Seq::<Seq<char>>::empty());
        }
        while i < self.analyzers.len()
            invariant
                i <= self.analyzers@.len(),
                results@.len() + errors@.len() == i,
                ok.len() == i,
                pipeline_consistent(
                    self.analyzers@.take(i as int),
                    ok,
                    results@,
                    messages_view(errors@),
                ),
            decreases self.analyzers@.len() - i,
        {
            proof {
                assert(self.analyzers@.take(i as int + 1).last() == self.analyzers@[i as int]);
                assert(self.analyzers@.take(i as int + 1).drop_last() =~= self.analyzers@.take(
                    i as int,
                ));
            }
            let a = &self.analyzers[i];
            match a.analyzer.analyze(document, path) {
                Ok(result) => {
                    let ghost ok_before = ok;
                    let ghost results_before = results@;
                    results.push(result);
                    proof {
                        ok = ok.push(true);
                        assert(ok.drop_last() =~= ok_before);
                        assert(results@.drop_last() =~= results_before);
                        assert(results@.last() == result);
                        assert(pipeline_consistent(
                            self.analyzers@.take(i as int + 1),
                            ok,
                            results@,
                            messages_view(errors@),
                        ));
                    }
                },
                Err(e) => {
                    let name = a.analyzer.name();
                    let mut msg = String::from_str(name);
                    msg.append(": ");
                    msg.append(e.message().as_str());
                    let ghost msgv = msg@;
                    let ghost ok_before = ok;
                    let ghost errs_before = messages_view(errors@);
                    errors.push(msg);
                    proof {
                        ok = ok.push(false);
                        assert(ok.drop_last() =~= ok_before);
                        assert(messages_view(errors@) =~= errs_before.push(msgv));
                        assert(messages_view(errors@).drop_last() =~= errs_before);
                        assert(messages_view(errors@).last() == msgv);
                        assert(msgv =~= a.analyzer.spec_name() + ": "@ + crate::error::spec_message(
                            e,
                        ));
                        assert(error_message_for(a.analyzer.spec_name(), msgv));
                        assert(pipeline_consistent(
                            self.analyzers@.take(i as int + 1),
                            ok,
                            results@,
                            messages_view(errors@),
                        ));
                    }
                },
            }
            i = i + 1;
        }
        let r = (results, errors);
        proof {
            assert(self.analyzers@.take(self.analyzers@.len() as int) =~= self.analyzers@);
            assert(pipeline_consistent(self.analyzers@, ok, r.0@, messages_view(r.1@)));
        }
        r
    }
}

impl Default for AnalyzerRegistry {
    /// The built-in pipeline: page count first, then color analysis.
    fn default() -> (r: AnalyzerRegistry)
        ensures
            r.analyzers@.len() == 2,
            r.analyzers@[0].id@ == "page_count"@,
            r.analyzers@[0].name@ == "Page Count"@,
            r.analyzers@[1].id@ == "color_analysis"@,
            r.analyzers@[1].name@ == "Color Analysis"@,
    {
        let mut registry = AnalyzerRegistry::new();
        registry.register(Box::new(page_count::PageCountAnalyzer));
        proof {
            assert(registry.analyzers@.last() == registry.analyzers@[0]);
        }
        let ghost first = registry.analyzers@[0];
        registry.register(Box::new(color_analysis::ColorAnalysisAnalyzer));
        proof {
            assert(registry.analyzers@[0] == registry.analyzers@.take(1)[0]);
            assert(registry.analyzers@[0] == first);
            assert(registry.analyzers@.last() == registry.analyzers@[1]);
        }
        registry
    }
}

} // verus!
