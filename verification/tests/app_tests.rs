use pdf_analyzer::analyzer::AnalysisResult;
use pdf_analyzer::analyzer::PdfAnalysisResult;
use pdf_analyzer::app::AnalysisMessage;
use pdf_analyzer::app::App;
use pdf_analyzer::app::AppState;
use pdf_analyzer::app::AppTab;
use pdf_analyzer::app::FileOutcome;
use pdf_analyzer::app::collect_successes;
use pdf_analyzer::app::run_analysis;
use pdf_analyzer::config::Config;
use pdf_analyzer::error::AppError;
use pdf_analyzer::pdf::PdfFile;
use pdf_analyzer::pdf::file_name_of;
use pdf_analyzer::pdf::service::PdfiumService;
use pdf_analyzer::pdf::service::SinglePdfAnalysis;
use pdf_analyzer::pdf::service::service_channel;

fn analysis(name: &str, pages: usize) -> SinglePdfAnalysis {
    SinglePdfAnalysis {
        filename: String::from(name),
        path: format!("/tmp/{}", name),
        results: vec![AnalysisResult::PageCount { total: pages }],
        errors: Vec::new(),
    }
}

fn fake_pdf(name: &str) -> PdfFile {
    PdfFile {
        path: format!("/tmp/{}", name),
        filename: String::from(name),
        page_count: 1,
        thumbnail: None,
    }
}

fn dead_service() -> PdfiumService {
    let (service, receiver) = service_channel();
    drop(receiver);
    service
}

#[test]
fn file_names_come_from_the_last_separator() {
    assert_eq!(file_name_of("dir/sub/a.pdf"), "a.pdf");
    assert_eq!(file_name_of("a.pdf"), "a.pdf");
    assert_eq!(file_name_of("dir\\b.pdf"), "b.pdf");
    assert_eq!(file_name_of(""), "Unknown");
}

#[test]
fn trailing_separators_do_not_hide_the_file_name() {
    assert_eq!(file_name_of("a/b/"), "b");
    assert_eq!(file_name_of("dir///"), "dir");
}

#[test]
fn dot_components_have_no_file_name() {
    assert_eq!(file_name_of(".."), "Unknown");
    assert_eq!(file_name_of("."), "Unknown");
    assert_eq!(file_name_of("a/.."), "Unknown");
    assert_eq!(file_name_of("/"), "Unknown");
}

#[test]
fn current_directory_components_are_skipped() {
    assert_eq!(file_name_of("a/."), "a");
    assert_eq!(file_name_of("a/./"), "a");
    assert_eq!(file_name_of("../."), "Unknown");
    assert_eq!(file_name_of("..."), "...");
}

#[test]
fn successes_keep_input_order_and_skip_failures() {
    let outcomes = vec![
        FileOutcome::Analyzed(analysis("a.pdf", 2)),
        FileOutcome::WorkerGone { filename: String::from("b.pdf") },
        FileOutcome::Analyzed(analysis("c.pdf", 5)),
        FileOutcome::Failed {
            filename: String::from("d.pdf"),
            error: AppError::PdfLoad {
                path: String::from("/tmp/d.pdf"),
                reason: String::from("corrupt"),
            },
        },
    ];
    let results: Vec<PdfAnalysisResult> = collect_successes(&outcomes);
    assert_eq!(results.len(), 2);
    assert_eq!(results[0].filename, "a.pdf");
    assert_eq!(results[1].filename, "c.pdf");
}

#[test]
fn a_dead_worker_yields_errors_and_an_empty_complete_event() {
    let service = dead_service();
    let (events_tx, events_rx) = crossbeam_channel::unbounded::<AnalysisMessage>();
    let paths = vec![String::from("/tmp/a.pdf"), String::from("/tmp/b.pdf")];

    let results = run_analysis(&paths, &service, &events_tx);
    assert!(results.is_empty());

    let mut progress = 0;
    let mut errors = Vec::new();
    let mut complete: Option<Vec<PdfAnalysisResult>> = None;
    while let Ok(msg) = events_rx.try_recv() {
        match msg {
            AnalysisMessage::Progress(_) => progress += 1,
            AnalysisMessage::Error(e) => errors.push(e),
            AnalysisMessage::Complete(r) => complete = Some(r),
        }
    }
    assert_eq!(progress, 2);
    assert_eq!(
        errors,
        vec![
            String::from("Worker died while analyzing a.pdf"),
            String::from("Worker died while analyzing b.pdf"),
        ]
    );
    assert!(complete.expect("a terminal Complete event").is_empty());
}

#[test]
fn calls_on_a_dead_worker_resolve_instead_of_hanging() {
    let service = dead_service();
    match service.load_pdf("/tmp/a.pdf") {
        Err(AppError::WorkerUnavailable { .. }) => {},
        _ => panic!("a dead worker must read as WorkerUnavailable"),
    }
    match service.analyze_pdf("/tmp/a.pdf") {
        Err(AppError::WorkerUnavailable { .. }) => {},
        _ => panic!("a dead worker must read as WorkerUnavailable"),
    }
}

#[test]
fn dropping_one_handle_keeps_the_queue_alive() {
    let (service, receiver) = service_channel();
    let second = service.clone();
    drop(second);
    // The queue is still connected: a request can be submitted, and the
    // worker side can still read it.
    service.shutdown();
    assert!(receiver.try_recv().is_ok());
}

#[test]
fn starting_with_no_files_changes_nothing() {
    let mut app = App::new(Config::new(), dead_service());
    assert!(app.start_analysis().is_none());
    assert!(matches!(app.state, AppState::Ready));
    assert!(app.analysis_receiver.is_none());
}

#[test]
fn a_batch_runs_through_the_state_machine() {
    let mut app = App::new(Config::new(), dead_service());
    app.pdfs.push(fake_pdf("a.pdf"));
    app.pdfs.push(fake_pdf("b.pdf"));

    let job = app.start_analysis().expect("a job for a non-empty list");
    assert!(matches!(app.state, AppState::Analyzing));
    assert_eq!(job.paths, vec![String::from("/tmp/a.pdf"), String::from("/tmp/b.pdf")]);

    // Stand in for the orchestrator thread: report one error, then the
    // completed batch.
    job.events
        .send(AnalysisMessage::Error(String::from("Failed to analyze b.pdf: corrupt")))
        .unwrap();
    let done = vec![PdfAnalysisResult {
        filename: String::from("a.pdf"),
        path: String::from("/tmp/a.pdf"),
        results: vec![AnalysisResult::PageCount { total: 3 }],
        errors: Vec::new(),
    }];
    job.events.send(AnalysisMessage::Complete(done)).unwrap();

    app.update_analysis();
    assert!(matches!(app.state, AppState::Results));
    assert!(matches!(app.current_tab, AppTab::Results));
    assert_eq!(app.errors, vec![String::from("Failed to analyze b.pdf: corrupt")]);
    assert_eq!(app.analysis_results.len(), 1);
    assert_eq!(app.output_data.len(), 2);
    assert_eq!(app.output_data[0].title, "Page Summary");
    assert!(app.analysis_receiver.is_none());
}

#[test]
fn clear_returns_to_ready() {
    let mut app = App::new(Config::new(), dead_service());
    app.pdfs.push(fake_pdf("a.pdf"));
    app.errors.push(String::from("leftover"));
    app.clear();
    assert!(app.pdfs.is_empty());
    assert!(app.errors.is_empty());
    assert!(app.analysis_results.is_empty());
    assert!(app.output_data.is_empty());
    assert!(matches!(app.state, AppState::Ready));
    assert!(matches!(app.current_tab, AppTab::PdfList));
}

#[test]
fn remove_pdf_drops_exactly_one_entry() {
    let mut app = App::new(Config::new(), dead_service());
    app.pdfs.push(fake_pdf("a.pdf"));
    app.pdfs.push(fake_pdf("b.pdf"));
    app.remove_pdf(0);
    assert_eq!(app.pdfs.len(), 1);
    assert_eq!(app.pdfs[0].filename, "b.pdf");
    app.remove_pdf(5);
    assert_eq!(app.pdfs.len(), 1);
}

#[test]
fn add_pdf_on_a_dead_worker_fails_and_keeps_the_list() {
    let mut app = App::new(Config::new(), dead_service());
    assert!(app.add_pdf("/tmp/a.pdf").is_err());
    assert!(app.pdfs.is_empty());
}

#[test]
fn save_config_hands_back_the_stored_entries() {
    let mut app = App::new(Config::new(), dead_service());
    app.config.set_output_value(
        "summary",
        "show_per_pdf",
        pdf_analyzer::config::ConfigValue::Bool(false),
    );
    let entries = app.save_config();
    assert_eq!(entries.len(), 1);
    assert_eq!(entries[0].module, "summary");
    assert_eq!(entries[0].key, "show_per_pdf");
}

#[test]
fn oneshot_receiver_unblocks_when_sender_is_dropped() {
    let (tx, rx) = oneshot::channel::<u32>();
    drop(tx);
    assert!(rx.recv().is_err());
}
