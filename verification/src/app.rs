//! The application core: the batch state machine, the orchestrator that
//! drives a batch of files through the worker service one at a time, and
//! the event stream it reports progress on.

use vstd::prelude::*;
use vstd::string::StringExecFns;

use crate::analyzer::AnalysisResult;
use crate::analyzer::AnalyzerRegistry;
use crate::analyzer::PdfAnalysisResult;
use crate::analyzer::PdfAnalysisV;
use crate::analyzer::messages_view;
use crate::channels::queue_channel;
use crate::channels::queue_send;
use crate::channels::queue_try_recv;
use crate::config::Config;
use crate::config::FlatEntry;
use crate::config::config_to_flats;
use crate::config::flats_view;
use crate::error::AppError;
use crate::error::AppResult;
use crate::output::OutputData;
use crate::output::OutputRegistry;
use crate::output::results_view;
use crate::pdf::PdfFile;
use crate::pdf::file_name_of;
use crate::pdf::service::PdfiumService;
use crate::pdf::service::SinglePdfAnalysis;

verus! {

/// Which tab the shell is showing.
#[derive(Debug, Clone, PartialEq, Eq, Structural)]
pub enum AppTab {
    PdfList,
    Results,
}

/// The batch state machine: `Ready` to `Analyzing` when a non-empty batch
/// starts, `Analyzing` to `Results` when it completes, and back to `Ready`
/// by an explicit clear.
#[derive(Debug, Clone, PartialEq, Eq, Structural)]
pub enum AppState {
    Ready,
    Analyzing,
    Results,
}

/// A progress report: which file is being worked on, what stage it is in,
/// and how far the batch has come.
#[derive(Debug, Clone)]
pub struct AnalysisProgress {
    pub current_file: String,
    pub current_analyzer: String,
    pub files_done: usize,
    pub files_total: usize,
}

/// One event on the batch's event stream, drained without blocking by the
/// caller.
pub enum AnalysisMessage {
    /// The batch reached a new file or stage.
    Progress(AnalysisProgress),
    /// The batch finished; carries every file that succeeded, in input
    /// order.
    Complete(Vec<PdfAnalysisResult>),
    /// One file failed; the batch goes on without it.
    Error(String),
}

/// What happened to one file of a batch.
pub enum FileOutcome {
    /// The worker analyzed the file.
    Analyzed(SinglePdfAnalysis),
    /// The worker answered with this file's error.
    Failed { filename: String, error: AppError },
    /// The worker was gone before this file's answer arrived.
    WorkerGone { filename: String },
}

/// The analysis a successful outcome carries.
pub open spec fn analysis_of(o: FileOutcome) -> PdfAnalysisV {
    match o {
        FileOutcome::Analyzed(a) => a@,
        _ => arbitrary(),
    }
}

/// The analyses of the successful outcomes, in outcome order.
pub open spec fn successes(os: Seq<FileOutcome>) -> Seq<PdfAnalysisV>
    decreases os.len(),
{
    if os.len() == 0 {
        Seq::empty()
    } else {
        successes(os.drop_last()) + (if os.last() is Analyzed {
            seq![analysis_of(os.last())]
        } else {
            Seq::<PdfAnalysisV>::empty()
        })
    }
}

/// The positions of the successful outcomes, in outcome order.
pub open spec fn success_indices(os: Seq<FileOutcome>) -> Seq<int>
    decreases os.len(),
{
    if os.len() == 0 {
        Seq::empty()
    } else {
        success_indices(os.drop_last()) + (if os.last() is Analyzed {
            seq![os.len() - 1]
        } else {
            Seq::<int>::empty()
        })
    }
}

/// Whether `o` can be the outcome for the file at `path`: a failed or
/// worker-lost outcome names that file's display name; a success carries
/// whatever the worker produced.
pub open spec fn outcome_matches_path(o: FileOutcome, path: Seq<char>) -> bool {
    match o {
        FileOutcome::Analyzed(_) => true,
        FileOutcome::Failed { filename, .. } => filename@ == crate::pdf::display_name(path),
        FileOutcome::WorkerGone { filename } => filename@ == crate::pdf::display_name(path),
    }
}

/// A batch's result list never exceeds its input count: at most one result
/// per file.
pub proof fn lemma_successes_len(os: Seq<FileOutcome>)
    ensures
        successes(os).len() <= os.len(),
    decreases os.len(),
{
    if os.len() > 0 {
        lemma_successes_len(os.drop_last());
    }
}

/// A batch's result list preserves input order: the k-th result is the
/// analysis of the k-th successful file, and those files appear in strictly
/// increasing input positions.
pub proof fn lemma_successes_order(os: Seq<FileOutcome>)
    ensures
        success_indices(os).len() == successes(os).len(),
        forall|a: int, b: int|
            0 <= a < b < success_indices(os).len() ==> success_indices(os)[a] < success_indices(
                os,
            )[b],
        forall|a: int|
            0 <= a < success_indices(os).len() ==> {
                let idx = #[trigger] success_indices(os)[a];
                &&& 0 <= idx < os.len()
                &&& os[idx] is Analyzed
                &&& successes(os)[a] == analysis_of(os[idx])
            },
    decreases os.len(),
{
    if os.len() > 0 {
        lemma_successes_order(os.drop_last());
        let pre_i = success_indices(os.drop_last());
        let pre_s = successes(os.drop_last());
        assert(forall|a: int|
            0 <= a < pre_i.len() ==> os.drop_last()[#[trigger] pre_i[a]] == os[pre_i[a]]);
        if os.last() is Analyzed {
            assert(success_indices(os) =~= pre_i.push(os.len() - 1));
            assert(successes(os) =~= pre_s.push(analysis_of(os.last())));
        } else {
            assert(success_indices(os) =~= pre_i);
            assert(successes(os) =~= pre_s);
        }
    }
}

/// An exact copy of one result list entry, as the batch's result type.
fn dup_analysis(a: &SinglePdfAnalysis) -> (r: PdfAnalysisResult)
    ensures
        r@ == a@,
{
    let mut results: Vec<AnalysisResult> = Vec::new();
    let mut i: usize = 0;
    while i < a.results.len()
        invariant
            i <= a.results@.len(),
            results@ =~= a.results@.take(i as int),
        decreases a.results@.len() - i,
    {
        results.push(a.results[i]);
        i = i + 1;
    }
    let mut errors: Vec<String> = Vec::new();
    let mut k: usize = 0;
    while k < a.errors.len()
        invariant
            k <= a.errors@.len(),
            messages_view(errors@) =~= messages_view(a.errors@).take(k as int),
        decreases a.errors@.len() - k,
    {
        let ghost before = messages_view(errors@);
        errors.push(a.errors[k].clone());
        proof {
            assert(messages_view(errors@) =~= before.push(a.errors@[k as int]@));
        }
        k = k + 1;
    }
    proof {
        assert(a.results@.take(a.results@.len() as int) =~= a.results@);
        assert(messages_view(a.errors@).take(a.errors@.len() as int) =~= messages_view(a.errors@));
    }
    let r = PdfAnalysisResult {
        filename: a.filename.clone(),
        path: a.path.clone(),
        results,
        errors,
    };
    proof {
        assert(r@ =~~= a@);
    }
    r
}

/// The results of the batch's successful files, in input order: exactly
/// [`successes`] of the outcomes.
pub fn collect_successes(outcomes: &Vec<FileOutcome>) -> (r: Vec<PdfAnalysisResult>)
    ensures
        results_view(r@) == successes(outcomes@),
{
    let mut out: Vec<PdfAnalysisResult> = Vec::new();
    let mut i: usize = 0;
    proof {
        assert(outcomes@.take(0) =~= Seq::<FileOutcome>::empty());
        assert(results_view(out@) =~= Seq::<PdfAnalysisV>::empty());
    }
    while i < outcomes.len()
        invariant
            i <= outcomes@.len(),
            results_view(out@) == successes(outcomes@.take(i as int)),
        decreases outcomes@.len() - i,
    {
        proof {
            assert(outcomes@.take(i as int + 1).last() == outcomes@[i as int]);
            assert(outcomes@.take(i as int + 1).drop_last() =~= outcomes@.take(i as int));
        }
        match &outcomes[i] {
            FileOutcome::Analyzed(a) => {
                let ghost before = out@;
                let dup = dup_analysis(a);
                out.push(dup);
                proof {
                    assert(results_view(out@) =~= results_view(before).push(a@));
                    assert(successes(outcomes@.take(i as int + 1)) =~= successes(
                        outcomes@.take(i as int),
                    ).push(analysis_of(outcomes@[i as int])));
                }
            },
            _ => {
                proof {
                    assert(successes(outcomes@.take(i as int + 1)) =~= successes(
                        outcomes@.take(i as int),
                    ));
                }
            },
        }
        i = i + 1;
    }
    proof {
        assert(outcomes@.take(outcomes@.len() as int) =~= outcomes@);
    }
    out
}

/// Drives one batch: for each file in input order, reports progress, asks
/// the worker for that file's analysis and blocks until the answer arrives
/// (a dead worker reads as an error, never a hang), then moves on. A
/// failed file is reported as an error event naming it and omitted; the
/// batch never stops early for one file. When every file is processed,
/// one terminal `Complete` event carries every success in input order, and
/// the same list is returned: exactly the successes of one outcome per
/// input file, each failure attributed to its file — never more entries
/// than input files.
pub fn run_analysis(
    paths: &Vec<String>,
    worker: &PdfiumService,
    events: &crossbeam_channel::Sender<AnalysisMessage>,
) -> (r: Vec<PdfAnalysisResult>)
    ensures
        r@.len() <= paths@.len(),
        exists|os: Seq<FileOutcome>|
            {
                &&& os.len() == paths@.len()
                &&& (forall|k: int|
                    0 <= k < os.len() ==> outcome_matches_path(#[trigger] os[k], paths@[k]@))
                &&& results_view(r@) == #[trigger] successes(os)
            },
{
    let total = paths.len();
    let mut outcomes: Vec<FileOutcome> = Vec::new();
    let mut i: usize = 0;
    while i < total
        invariant
            total == paths@.len(),
            i <= total,
            outcomes@.len() == i,
            forall|k: int|
                0 <= k < i ==> outcome_matches_path(#[trigger] outcomes@[k], paths@[k]@),
        decreases total - i,
    {
        let path = &paths[i];
        let filename = file_name_of(path.as_str());
        let _ = queue_send(
            events,
            AnalysisMessage::Progress(
                AnalysisProgress {
                    current_file: filename.clone(),
                    current_analyzer: String::from_str("Analyzing..."),
                    files_done: i,
                    files_total: total,
                },
            ),
        );
        match worker.analyze_pdf(path.as_str()) {
            Ok(analysis) => {
                outcomes.push(FileOutcome::Analyzed(analysis));
            },
            Err(e) => {
                match e {
                    AppError::WorkerUnavailable { .. } => {
                        let mut msg = String::from_str("Worker died while analyzing ");
                        msg.append(filename.as_str());
                        let _ = queue_send(events, AnalysisMessage::Error(msg));
                        outcomes.push(FileOutcome::WorkerGone { filename });
                    },
                    other => {
                        let mut msg = String::from_str("Failed to analyze ");
                        msg.append(filename.as_str());
                        msg.append(": ");
                        msg.append(other.message().as_str());
                        let _ = queue_send(events, AnalysisMessage::Error(msg));
                        outcomes.push(FileOutcome::Failed { filename, error: other });
                    },
                }
            },
        }
        i = i + 1;
    }
    let for_event = collect_successes(&outcomes);
    let _ = queue_send(events, AnalysisMessage::Complete(for_event));
    let results = collect_successes(&outcomes);
    proof {
        lemma_successes_len(outcomes@);
        assert(results@.len() == results_view(results@).len());
        assert(results_view(results@) == successes(outcomes@));
    }
    results
}

/// What a caller needs to run one batch on a thread of its own: the file
/// paths in input order, a worker handle, and the sending end of the event
/// stream.
pub struct BatchJob {
    pub paths: Vec<String>,
    pub worker: PdfiumService,
    pub events: crossbeam_channel::Sender<AnalysisMessage>,
}

/// The application core: the loaded files, the settings, the two registries
/// and the batch state machine, without any of the shell around them.
pub struct App {
    pub state: AppState,
    pub current_tab: AppTab,
    pub pdfs: Vec<PdfFile>,
    pub config: Config,
    pub analyzer_registry: AnalyzerRegistry,
    pub output_registry: OutputRegistry,
    pub progress: Option<AnalysisProgress>,
    pub analysis_results: Vec<PdfAnalysisResult>,
    pub output_data: Vec<OutputData>,
    pub show_settings: bool,
    pub errors: Vec<String>,
    pub analysis_receiver: Option<crossbeam_channel::Receiver<AnalysisMessage>>,
    pub service: PdfiumService,
}

impl App {
    /// A fresh core over a worker handle: the built-in pipelines are
    /// registered in their standard order, the given settings are handed to
    /// both registries (every module's configuration state is its own
    /// reading of the store), the file list is empty, and the batch is
    /// `Ready`.
    pub fn new(config: Config, service: PdfiumService) -> (r: App)
        ensures
            r.state is Ready,
            r.current_tab is PdfList,
            r.pdfs@.len() == 0,
            r.analysis_results@.len() == 0,
            r.output_data@.len() == 0,
            r.errors@.len() == 0,
            r.progress is None,
            r.analysis_receiver is None,
            !r.show_settings,
            r.config == config,
            r.analyzer_registry.analyzers@.len() == 2,
            r.analyzer_registry.analyzers@[0].id@ == "page_count"@,
            r.analyzer_registry.analyzers@[0].name@ == "Page Count"@,
            r.analyzer_registry.analyzers@[1].id@ == "color_analysis"@,
            r.analyzer_registry.analyzers@[1].name@ == "Color Analysis"@,
            r.output_registry.outputs@.len() == 2,
            r.output_registry.outputs@[0].id@ == "summary"@,
            r.output_registry.outputs@[0].name@ == "Summary"@,
            r.output_registry.outputs@[1].id@ == "cost"@,
            r.output_registry.outputs@[1].name@ == "Cost Calculation"@,
            forall|k: int|
                0 <= k < r.analyzer_registry.analyzers@.len() ==> (#[trigger] r.analyzer_registry.analyzers@[k]).analyzer.spec_config_state()
                    == r.analyzer_registry.analyzers@[k].analyzer.spec_configured(config@),
            forall|k: int|
                0 <= k < r.output_registry.outputs@.len() ==> (#[trigger] r.output_registry.outputs@[k]).output.spec_config_state()
                    == r.output_registry.outputs@[k].output.spec_configured(config@),
    {
        let mut analyzer_registry = AnalyzerRegistry::default();
        let mut output_registry = OutputRegistry::default();
        analyzer_registry.apply_config(&config);
        output_registry.apply_config(&config);
        App {
            state: AppState::Ready,
            current_tab: AppTab::PdfList,
            pdfs: Vec::new(),
            config,
            analyzer_registry,
            output_registry,
            progress: None,
            analysis_results: Vec::new(),
            output_data: Vec::new(),
            show_settings: false,
            errors: Vec::new(),
            analysis_receiver: None,
            service,
        }
    }

    /// Loads one file through the worker and appends it to the list; a file
    /// that cannot be loaded changes nothing and is the caller's error.
    pub fn add_pdf(&mut self, path: &str) -> (r: AppResult<()>)
        ensures
            r is Ok ==> final(self).pdfs@.len() == old(self).pdfs@.len() + 1 && final(self).pdfs@.take(old(self).pdfs@.len() as int) =~= old(self).pdfs@,
            r is Err ==> final(self).pdfs@ == old(self).pdfs@,
    {
        match self.service.load_pdf(path) {
            Ok(file) => {
                self.pdfs.push(file);
                proof {
                    assert(self.pdfs@.take(old(self).pdfs@.len() as int) =~= old(self).pdfs@);
                }
                Ok(())
            },
            Err(e) => Err(e),
        }
    }

    /// Removes the file at `index`; an index past the list changes
    /// nothing. No other part of the core is touched either way.
    pub fn remove_pdf(&mut self, index: usize)
        ensures
            index < old(self).pdfs@.len() ==> final(self).pdfs@ == old(self).pdfs@.remove(
                index as int,
            ),
            index >= old(self).pdfs@.len() ==> final(self).pdfs@ == old(self).pdfs@,
            final(self).state == old(self).state,
            final(self).current_tab == old(self).current_tab,
            final(self).config == old(self).config,
            final(self).analyzer_registry.analyzers@ == old(self).analyzer_registry.analyzers@,
            final(self).output_registry.outputs@ == old(self).output_registry.outputs@,
            final(self).progress == old(self).progress,
            final(self).analysis_results@ == old(self).analysis_results@,
            final(self).output_data@ == old(self).output_data@,
            final(self).show_settings == old(self).show_settings,
            final(self).errors@ == old(self).errors@,
            final(self).analysis_receiver == old(self).analysis_receiver,
            final(self).service == old(self).service,
    {
        if index < self.pdfs.len() {
            let _ = self.pdfs.remove(index);
        }
    }

    /// The explicit clear transition: drops the files, the results, the
    /// reports, the progress and the errors, and returns to `Ready`. The
    /// settings, both registries, the worker handle, the settings-window
    /// flag and the event receiver are untouched.
    pub fn clear(&mut self)
        ensures
            final(self).pdfs@.len() == 0,
            final(self).analysis_results@.len() == 0,
            final(self).output_data@.len() == 0,
            final(self).errors@.len() == 0,
            final(self).progress is None,
            final(self).state is Ready,
            final(self).current_tab is PdfList,
            final(self).config == old(self).config,
            final(self).analyzer_registry.analyzers@ == old(self).analyzer_registry.analyzers@,
            final(self).output_registry.outputs@ == old(self).output_registry.outputs@,
            final(self).service == old(self).service,
            final(self).show_settings == old(self).show_settings,
            final(self).analysis_receiver == old(self).analysis_receiver,
    {
        self.pdfs.clear();
        self.analysis_results.clear();
        self.output_data.clear();
        self.progress = None;
        self.state = AppState::Ready;
        self.current_tab = AppTab::PdfList;
        self.errors.clear();
    }

    /// Starts a batch over the loaded files: with an empty list nothing
    /// happens; otherwise the state moves to `Analyzing`, a fresh event
    /// stream is kept for draining, and the returned job holds one path per
    /// loaded file, in list order, for a thread of the caller's to run
    /// [`run_analysis`] on.
    pub fn start_analysis(&mut self) -> (r: Option<BatchJob>)
        ensures
            old(self).pdfs@.len() == 0 ==> r is None && *final(self) == *old(self),
            old(self).pdfs@.len() > 0 ==> (r matches Some(job) && final(self).state is Analyzing
                && job.paths@.len() == old(self).pdfs@.len() && (forall|k: int|
                0 <= k < job.paths@.len() ==> (#[trigger] job.paths@[k])@ == old(self).pdfs@[k].path@) && final(self).pdfs@ == old(self).pdfs@ && (final(self).progress matches Some(p)
                && p.files_done == 0 && p.files_total == old(self).pdfs@.len()) && final(self).analysis_receiver is Some && final(self).config == old(self).config && final(self).analysis_results@ == old(self).analysis_results@ && final(self).output_data@ == old(self).output_data@ && final(self).errors@ == old(self).errors@),
    {
        if self.pdfs.len() == 0 {
            return None;
        }
        let ch = queue_channel::<AnalysisMessage>();
        self.analysis_receiver = Some(ch.1);
        self.state = AppState::Analyzing;
        self.progress = Some(
            AnalysisProgress {
                current_file: String::new(),
                current_analyzer: String::new(),
                files_done: 0,
                files_total: self.pdfs.len(),
            },
        );
        let mut paths: Vec<String> = Vec::new();
        let mut i: usize = 0;
        while i < self.pdfs.len()
            invariant
                i <= self.pdfs@.len(),
                paths@.len() == i,
                self.pdfs@ == old(self).pdfs@,
                forall|k: int|
                    0 <= k < i ==> (#[trigger] paths@[k])@ == self.pdfs@[k].path@,
            decreases self.pdfs@.len() - i,
        {
            paths.push(self.pdfs[i].path.clone());
            i = i + 1;
        }
        let worker = self.service.clone();
        Some(BatchJob { paths, worker, events: ch.0 })
    }

    /// Drains the event stream without blocking and applies each event:
    /// progress updates the progress report, an error joins the error list
    /// (earlier errors are never dropped), and completion stores the
    /// results, generates every report over them, and moves the state
    /// machine to `Results`. Afterwards either nothing of the batch state
    /// changed, or the batch completed: the reports are exactly every
    /// registered module's `spec_generate` of the stored results, the state
    /// and tab stand at `Results`, and the event stream is dropped.
    pub fn update_analysis(&mut self)
        ensures
            final(self).pdfs@ == old(self).pdfs@,
            final(self).config == old(self).config,
            final(self).output_registry.outputs@ == old(self).output_registry.outputs@,
            final(self).analyzer_registry.analyzers@ == old(self).analyzer_registry.analyzers@,
            final(self).errors@.len() >= old(self).errors@.len(),
            final(self).errors@.take(old(self).errors@.len() as int) == old(self).errors@,
            (final(self).output_data@ == old(self).output_data@ && final(self).analysis_results@
                == old(self).analysis_results@ && final(self).state == old(self).state && final(self).current_tab == old(self).current_tab && final(self).analysis_receiver == old(self).analysis_receiver) || (final(self).output_data@.len() == final(self).output_registry.outputs@.len() && (forall|k: int|
                0 <= k < final(self).output_data@.len() ==> (#[trigger] final(self).output_data@[k])@ == final(self).output_registry.outputs@[k].output.spec_generate(
                    results_view(final(self).analysis_results@),
                )) && final(self).state is Results && final(self).current_tab is Results && final(self).analysis_receiver is None),
    {
        let mut completed = false;
        let mut budget: u64 = u64::MAX;
        let has_receiver = self.analysis_receiver.is_some();
        if !has_receiver {
            return ;
        }
        while budget > 0
            invariant
                self.pdfs@ == old(self).pdfs@,
                self.config == old(self).config,
                self.analysis_receiver == old(self).analysis_receiver,
                self.output_registry.outputs@ == old(self).output_registry.outputs@,
                self.analyzer_registry.analyzers@ == old(self).analyzer_registry.analyzers@,
                self.errors@.len() >= old(self).errors@.len(),
                self.errors@.take(old(self).errors@.len() as int) == old(self).errors@,
                !completed ==> self.output_data@ == old(self).output_data@
                    && self.analysis_results@ == old(self).analysis_results@ && self.state == old(self).state && self.current_tab == old(self).current_tab,
                completed ==> self.output_data@.len() == self.output_registry.outputs@.len() && (
                forall|k: int|
                    0 <= k < self.output_data@.len() ==> (#[trigger] self.output_data@[k])@
                        == self.output_registry.outputs@[k].output.spec_generate(
                        results_view(self.analysis_results@),
                    )) && self.state is Results && self.current_tab is Results,
            decreases budget,
        {
            let msg = match &self.analysis_receiver {
                Some(rx) => queue_try_recv(rx),
                None => None,
            };
            match msg {
                None => {
                    break ;
                },
                Some(AnalysisMessage::Progress(progress)) => {
                    self.progress = Some(progress);
                },
                Some(AnalysisMessage::Complete(results)) => {
                    self.analysis_results = results;
                    self.output_data = self.output_registry.generate_all(&self.analysis_results);
                    self.state = AppState::Results;
                    self.current_tab = AppTab::Results;
                    completed = true;
                },
                Some(AnalysisMessage::Error(e)) => {
                    let ghost errs_before = self.errors@;
                    self.errors.push(e);
                    proof {
                        assert(self.errors@.take(old(self).errors@.len() as int) =~= errs_before.take(
                            old(self).errors@.len() as int,
                        ));
                    }
                },
            }
            budget = budget - 1;
        }
        if completed {
            self.analysis_receiver = None;
        }
    }

    /// Applies the current settings to both registries and hands back the
    /// settings' flat entries, in stored order, for the caller to persist.
    /// A store that cannot be persisted is the caller's error to report;
    /// the in-memory settings stay in effect either way.
    pub fn save_config(&mut self) -> (entries: Vec<FlatEntry>)
        ensures
            flats_view(entries@) == config_to_flats(old(self).config@),
            final(self).config == old(self).config,
            final(self).pdfs@ == old(self).pdfs@,
    {
        let entries = self.config.to_entries();
        self.analyzer_registry.apply_config(&self.config);
        self.output_registry.apply_config(&self.config);
        entries
    }
}

} // verus!
