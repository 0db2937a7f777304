//! Error taxonomy for the library: loading, rendering, configuration,
//! per-analyzer failures, and an unreachable worker.

use vstd::prelude::*;
use vstd::string::StringExecFns;

use crate::text::dec_str;
use crate::text::fmt_usize;

verus! {

/// Errors surfaced by the library.
///
/// `RenderError` inside the color analysis is caught per page and downgraded
/// to a conservative classification; `AnalyzerError` is caught per analyzer
/// by the registry; `PdfLoad` aborts one file only; `WorkerUnavailable` is
/// terminal for one file in a batch but never for the process.
#[derive(Debug, Clone)]
pub enum AppError {
    /// A document could not be loaded or parsed.
    PdfLoad { path: String, reason: String },
    /// A page could not be rasterized.
    RenderError { page: usize, reason: String },
    /// The settings store could not be read or written.
    ConfigError(String),
    /// One analyzer failed on one document.
    AnalyzerError { analyzer: String, file: String, reason: String },
    /// The worker thread is not responding or has terminated.
    WorkerUnavailable { reason: String },
}

pub type AppResult<T> = Result<T, AppError>;

/// The one-line description of an error.
pub open spec fn spec_message(e: AppError) -> Seq<char> {
    match e {
        AppError::PdfLoad { path, reason } => "Failed to load PDF '"@ + path@ + "': "@ + reason@,
        AppError::RenderError { page, reason } => "Failed to render page "@ + dec_str(page as nat)
            + ": "@ + reason@,
        AppError::ConfigError(m) => "Config error: "@ + m@,
        AppError::AnalyzerError { analyzer, file, reason } => "Analyzer '"@ + analyzer@
            + "' failed on '"@ + file@ + "': "@ + reason@,
        AppError::WorkerUnavailable { reason } => "Worker unavailable: "@ + reason@,
    }
}

impl AppError {
    /// The one-line description of this error, exactly [`spec_message`].
    pub fn message(&self) -> (r: String)
        ensures
            r@ == spec_message(*self),
    {
        match self {
            AppError::PdfLoad { path, reason } => {
                let mut s = String::from_str("Failed to load PDF '");
                s.append(path.as_str());
                s.append("': ");
                s.append(reason.as_str());
                proof {
                    assert(s@ =~= spec_message(*self));
                }
                s
            },
            AppError::RenderError { page, reason } => {
                let mut s = String::from_str("Failed to render page ");
                let n = fmt_usize(*page);
                s.append(n.as_str());
                s.append(": ");
                s.append(reason.as_str());
                proof {
                    assert(s@ =~= spec_message(*self));
                }
                s
            },
            AppError::ConfigError(m) => {
                let mut s = String::from_str("Config error: ");
                s.append(m.as_str());
                proof {
                    assert(s@ =~= spec_message(*self));
                }
                s
            },
            AppError::AnalyzerError { analyzer, file, reason } => {
                let mut s = String::from_str("Analyzer '");
                s.append(analyzer.as_str());
                s.append("' failed on '");
                s.append(file.as_str());
                s.append("': ");
                s.append(reason.as_str());
                proof {
                    assert(s@ =~= spec_message(*self));
                }
                s
            },
            AppError::WorkerUnavailable { reason } => {
                let mut s = String::from_str("Worker unavailable: ");
                s.append(reason.as_str());
                proof {
                    assert(s@ =~= spec_message(*self));
                }
                s
            },
        }
    }
}

} // verus!
