use pdf_analyzer::error::AppError;
use pdf_analyzer::pdf::PdfProcessor;
use pdf_analyzer::pdf::service::run_worker;
use pdf_analyzer::pdf::service::service_channel;

#[test]
fn the_worker_returns_instead_of_hanging() {
    // Queue a shutdown before the worker starts, then drop the handle: the
    // worker either stops on the engine binding (no engine library in this
    // environment) or serves the queue to the shutdown and stops.
    let (service, receiver) = service_channel();
    service.shutdown();
    drop(service);
    match run_worker(receiver) {
        Ok(()) => {},
        Err(AppError::PdfLoad { .. }) => {},
        Err(_) => panic!("a worker failure must be an engine load error"),
    }
}

#[test]
fn a_processor_without_an_engine_reports_a_load_error() {
    match PdfProcessor::new() {
        Ok(_) => {},
        Err(AppError::PdfLoad { .. }) => {},
        Err(_) => panic!("engine binding failure must be a load error"),
    }
}
