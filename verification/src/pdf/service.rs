//! The engine worker service: one dedicated thread owns the engine, serves
//! typed requests from a queue in arrival order, and answers each over its
//! own one-shot response channel.
//!
//! The engine binding is not safely shareable across threads, so every
//! engine access is funnelled through [`run_worker`], which a caller runs on
//! one dedicated thread. Any thread holding a [`PdfiumService`] can submit
//! requests; each blocking call resolves even if the worker has died: a
//! dropped response channel reads as [`AppError::WorkerUnavailable`], never
//! a hang. Dropping a service handle never shuts the worker down by itself;
//! shutdown is an explicit request.

use vstd::prelude::*;
use vstd::string::StringExecFns;

use pdfium_render::prelude::Pdfium;

use crate::analyzer::AnalysisResult;
use crate::analyzer::AnalyzerRegistry;
use crate::analyzer::PdfAnalysisV;
use crate::analyzer::messages_view;
use crate::analyzer::pipeline_consistent;
use crate::channels::queue_channel;
use crate::channels::queue_recv;
use crate::channels::queue_send;
use crate::channels::queue_sender_clone;
use crate::channels::response_channel;
use crate::channels::response_recv;
use crate::channels::response_send;
use crate::engine::engine_new;
use crate::engine::load_document;
use crate::error::AppError;
use crate::error::AppResult;
use crate::pdf::PdfFile;
use crate::pdf::display_name;
use crate::pdf::file_name_of;

verus! {

/// Everything the pipeline learned about one file, as produced by the
/// worker: facts in analyzer registration order, plus one message per
/// failed analyzer.
#[derive(Debug, Clone)]
pub struct SinglePdfAnalysis {
    pub filename: String,
    pub path: String,
    pub results: Vec<AnalysisResult>,
    pub errors: Vec<String>,
}

impl View for SinglePdfAnalysis {
    type V = PdfAnalysisV;

    open spec fn view(&self) -> PdfAnalysisV {
        PdfAnalysisV {
            filename: self.filename@,
            path: self.path@,
            results: self.results@,
            errors: messages_view(self.errors@),
        }
    }
}

/// Requests the worker serves, in arrival order.
pub enum PdfRequest {
    /// Load one document's metadata and thumbnail; the answer goes to
    /// `response`.
    LoadPdf { path: String, response: oneshot::Sender<AppResult<PdfFile>> },
    /// Run the whole analyzer pipeline over one document; the answer goes
    /// to `response`.
    AnalyzePdf { path: String, response: oneshot::Sender<AppResult<SinglePdfAnalysis>> },
    /// Stop the worker. Requests already queued ahead of this one are still
    /// served first; requests behind it are not.
    Shutdown,
}

/// Opens the document at `path` and runs every registered analyzer over it
/// in registration order. A document that cannot be loaded is the file's
/// error; a failing analyzer contributes a message formatted from its
/// label instead of a fact, and exactly one of the two per analyzer, both
/// lists in registration order ([`pipeline_consistent`]).
pub fn analyze_pdf_with(pdfium: &Pdfium, registry: &AnalyzerRegistry, path: &str) -> (r: AppResult<
    SinglePdfAnalysis,
>)
    ensures
        (r matches Ok(a) ==> a@.results.len() + a@.errors.len() == registry.analyzers@.len()),
        (r matches Ok(a) ==> exists|ok: Seq<bool>|
            #[trigger] pipeline_consistent(registry.analyzers@, ok, a@.results, a@.errors)),
        (r matches Ok(a) ==> a@.path == path@ && a@.filename == display_name(path@)),
        (r matches Err(e) ==> e is PdfLoad),
{
    let filename = file_name_of(path);
    let document = match load_document(pdfium, path) {
        Ok(d) => d,
        Err(reason) => {
            return Err(AppError::PdfLoad { path: path.to_owned(), reason });
        },
    };
    let out = registry.analyze_all(&document, path);
    let ghost resultsv = out.0@;
    let ghost errorsv = messages_view(out.1@);
    let analysis = SinglePdfAnalysis {
        filename,
        path: path.to_owned(),
        results: out.0,
        errors: out.1,
    };
    proof {
        let ok = choose|ok: Seq<bool>|
            pipeline_consistent(registry.analyzers@, ok, resultsv, errorsv);
        assert(pipeline_consistent(registry.analyzers@, ok, analysis@.results, analysis@.errors));
    }
    Ok(analysis)
}

/// A handle to the worker any thread can clone and use.
pub struct PdfiumService {
    tx: crossbeam_channel::Sender<PdfRequest>,
}

impl Clone for PdfiumService {
    /// A second handle feeding the same worker.
    fn clone(&self) -> (r: PdfiumService) {
        PdfiumService { tx: queue_sender_clone(&self.tx) }
    }
}

/// A fresh request queue: the service handle for callers, and the receiving
/// end to hand to [`run_worker`] on the worker thread.
pub fn service_channel() -> (r: (PdfiumService, crossbeam_channel::Receiver<PdfRequest>)) {
    let ch = queue_channel::<PdfRequest>();
    (PdfiumService { tx: ch.0 }, ch.1)
}

impl PdfiumService {
    /// A second handle feeding the same worker.
    pub fn sender(&self) -> (r: crossbeam_channel::Sender<PdfRequest>) {
        queue_sender_clone(&self.tx)
    }

    /// Loads one document on the worker thread, blocking until its answer
    /// arrives. Every outcome resolves: a worker that is gone, either
    /// before the request is queued or before it answers, reads as
    /// `WorkerUnavailable`, never a hang.
    pub fn load_pdf(&self, path: &str) -> (r: AppResult<PdfFile>)
    {
        let ch = response_channel::<AppResult<PdfFile>>();
        let sent = queue_send(
            &self.tx,
            PdfRequest::LoadPdf { path: path.to_owned(), response: ch.0 },
        );
        if !sent {
            return Err(
                AppError::WorkerUnavailable {
                    reason: String::from_str("worker thread not responding"),
                },
            );
        }
        match response_recv(ch.1) {
            Some(r) => r,
            None => Err(
                AppError::WorkerUnavailable { reason: String::from_str("worker thread died") },
            ),
        }
    }

    /// Runs the analyzer pipeline over one document on the worker thread,
    /// blocking until its answer arrives; resolves as [`PdfiumService::load_pdf`]
    /// does when the worker is gone.
    pub fn analyze_pdf(&self, path: &str) -> (r: AppResult<SinglePdfAnalysis>)
    {
        let ch = response_channel::<AppResult<SinglePdfAnalysis>>();
        let sent = queue_send(
            &self.tx,
            PdfRequest::AnalyzePdf { path: path.to_owned(), response: ch.0 },
        );
        if !sent {
            return Err(
                AppError::WorkerUnavailable {
                    reason: String::from_str("worker thread not responding"),
                },
            );
        }
        match response_recv(ch.1) {
            Some(r) => r,
            None => Err(
                AppError::WorkerUnavailable { reason: String::from_str("worker thread died") },
            ),
        }
    }

    /// Asks the worker to stop once every request queued before this one is
    /// served. An already-gone worker is fine: there is nothing to stop.
    pub fn shutdown(&self) {
        let _ = queue_send(&self.tx, PdfRequest::Shutdown);
    }
}

/// The worker body: binds the engine in the calling thread, then serves
/// requests in arrival order, one to completion before the next, until a
/// shutdown request arrives or every service handle is gone. Run this on
/// one dedicated thread.
///
/// An engine that cannot be bound is startup-fatal and returned to the
/// thread's owner. A failing document never kills the worker: every
/// per-request failure travels back over that request's response channel.
/// The serving loop carries a `u64` request budget for termination; no real
/// session approaches it.
pub fn run_worker(rx: crossbeam_channel::Receiver<PdfRequest>) -> (r: AppResult<()>)
    ensures
        r matches Err(e) ==> e is PdfLoad,
{
    let pdfium = match engine_new() {
        Ok(p) => p,
        Err(reason) => {
            return Err(AppError::PdfLoad { path: String::from_str("pdfium library"), reason });
        },
    };
    let registry = AnalyzerRegistry::default();
    let mut budget: u64 = u64::MAX;
    while budget > 0
        decreases budget,
    {
        match queue_recv(&rx) {
            None => {
                return Ok(());
            },
            Some(PdfRequest::LoadPdf { path, response }) => {
                let answer = PdfFile::load(path.as_str(), &pdfium);
                let _ = response_send(response, answer);
            },
            Some(PdfRequest::AnalyzePdf { path, response }) => {
                let answer = analyze_pdf_with(&pdfium, &registry, path.as_str());
                let _ = response_send(response, answer);
            },
            Some(PdfRequest::Shutdown) => {
                return Ok(());
            },
        }
        budget = budget - 1;
    }
    Ok(())
}

} // verus!
