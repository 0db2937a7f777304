use pdf_analyzer::error::AppError;

#[test]
fn load_error_message() {
    let e = AppError::PdfLoad {
        path: String::from("/tmp/a.pdf"),
        reason: String::from("corrupt"),
    };
    assert_eq!(e.message(), "Failed to load PDF '/tmp/a.pdf': corrupt");
}

#[test]
fn render_error_message() {
    let e = AppError::RenderError {
        page: 12,
        reason: String::from("bad page"),
    };
    assert_eq!(e.message(), "Failed to render page 12: bad page");
}

#[test]
fn config_error_message() {
    let e = AppError::ConfigError(String::from("no directory"));
    assert_eq!(e.message(), "Config error: no directory");
}

#[test]
fn analyzer_error_message() {
    let e = AppError::AnalyzerError {
        analyzer: String::from("Color Analysis"),
        file: String::from("a.pdf"),
        reason: String::from("boom"),
    };
    assert_eq!(e.message(), "Analyzer 'Color Analysis' failed on 'a.pdf': boom");
}

#[test]
fn worker_unavailable_message() {
    let e = AppError::WorkerUnavailable {
        reason: String::from("gone"),
    };
    assert_eq!(e.message(), "Worker unavailable: gone");
}
