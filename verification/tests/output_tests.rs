use pdf_analyzer::analyzer::AnalysisResult;
use pdf_analyzer::analyzer::PdfAnalysisResult;
use pdf_analyzer::config::Config;
use pdf_analyzer::config::ConfigValue;
use pdf_analyzer::output::OutputData;
use pdf_analyzer::output::OutputModule;
use pdf_analyzer::output::OutputRegistry;
use pdf_analyzer::output::cost::CostOutput;
use pdf_analyzer::output::summary::SummaryOutput;

fn file(name: &str, pages: usize, bw: usize, color: usize) -> PdfAnalysisResult {
    PdfAnalysisResult {
        filename: String::from(name),
        path: format!("/tmp/{}", name),
        results: vec![
            AnalysisResult::PageCount { total: pages },
            AnalysisResult::ColorAnalysis { bw_pages: bw, color_pages: color },
        ],
        errors: Vec::new(),
    }
}

fn assert_same_output(a: &OutputData, b: &OutputData) {
    assert_eq!(a.title, b.title);
    assert_eq!(a.columns, b.columns);
    assert_eq!(a.per_pdf.len(), b.per_pdf.len());
    for (ra, rb) in a.per_pdf.iter().zip(b.per_pdf.iter()) {
        assert_eq!(ra.filename, rb.filename);
        assert_eq!(ra.values, rb.values);
    }
    assert_eq!(a.totals, b.totals);
    assert_eq!(a.copyable_text, b.copyable_text);
}

#[test]
fn summary_totals_for_three_files() {
    let results = vec![
        file("a.pdf", 2, 2, 0),
        file("b.pdf", 3, 3, 0),
        file("c.pdf", 5, 5, 0),
    ];
    let summary = SummaryOutput::default();
    let data = summary.generate(&results);
    assert_eq!(data.title, "Page Summary");
    assert_eq!(
        data.totals,
        vec![
            (String::from("Total Pages"), String::from("10")),
            (String::from("Total B&W"), String::from("10")),
            (String::from("Total Color"), String::from("0")),
        ]
    );
    assert_eq!(data.per_pdf.len(), 3);
    assert_eq!(data.per_pdf[0].filename, "a.pdf");
    assert_eq!(
        data.per_pdf[0].values,
        vec![
            (String::from("Pages"), String::from("2")),
            (String::from("B&W"), String::from("2")),
            (String::from("Color"), String::from("0")),
        ]
    );
    let expected_text = "=== Page Summary ===\n\nPer-PDF Breakdown:\n  a.pdf: 2 pages (2 B&W, 0 color)\n  b.pdf: 3 pages (3 B&W, 0 color)\n  c.pdf: 5 pages (5 B&W, 0 color)\n\nTotal: 10 pages (10 B&W, 0 color)\n";
    assert_eq!(data.copyable_text, expected_text);
}

#[test]
fn summary_without_breakdown_has_no_rows() {
    let results = vec![file("a.pdf", 2, 1, 1)];
    let summary = SummaryOutput { show_per_pdf: false };
    let data = summary.generate(&results);
    assert!(data.per_pdf.is_empty());
    assert_eq!(
        data.copyable_text,
        "=== Page Summary ===\n\nTotal: 2 pages (1 B&W, 1 color)\n"
    );
}

#[test]
fn summary_generation_is_idempotent() {
    let results = vec![file("a.pdf", 4, 1, 3), file("b.pdf", 2, 2, 0)];
    let summary = SummaryOutput::default();
    let first = summary.generate(&results);
    let second = summary.generate(&results);
    assert_same_output(&first, &second);
}

#[test]
fn cost_row_for_default_rates() {
    let results = vec![file("a.pdf", 6, 4, 2)];
    let cost = CostOutput::default();
    let data = cost.generate(&results);
    assert_eq!(data.title, "Cost Calculation");
    assert_eq!(data.per_pdf.len(), 1);
    assert_eq!(
        data.per_pdf[0].values,
        vec![
            (String::from("B&W Cost"), String::from("0.20")),
            (String::from("Color Cost"), String::from("0.30")),
            (String::from("Total"), String::from("0.50")),
        ]
    );
    assert_eq!(
        data.totals,
        vec![
            (String::from("Total B&W Cost"), String::from("0.20")),
            (String::from("Total Color Cost"), String::from("0.30")),
            (String::from("Grand Total"), String::from("0.50")),
        ]
    );
    assert!(data.copyable_text.contains("Rates: B&W = 0.05/page, Color = 0.15/page"));
    assert!(data.copyable_text.contains("Grand Total: 0.50\n"));
}

#[test]
fn cost_generation_is_idempotent() {
    let results = vec![file("a.pdf", 6, 4, 2), file("b.pdf", 3, 0, 3)];
    let cost = CostOutput::default();
    let first = cost.generate(&results);
    let second = cost.generate(&results);
    assert_same_output(&first, &second);
}

#[test]
fn cost_rates_come_from_the_config() {
    let mut cfg = Config::new();
    cfg.set_output_value("cost", "cost_bw", ConfigValue::Decimal(100));
    cfg.set_output_value("cost", "cost_color", ConfigValue::Decimal(200));
    let mut cost = CostOutput::default();
    cost.apply_config(&cfg);
    assert_eq!(cost.cost_bw, 100);
    assert_eq!(cost.cost_color, 200);

    let results = vec![file("a.pdf", 2, 1, 1)];
    let data = cost.generate(&results);
    assert_eq!(
        data.per_pdf[0].values,
        vec![
            (String::from("B&W Cost"), String::from("1.00")),
            (String::from("Color Cost"), String::from("2.00")),
            (String::from("Total"), String::from("3.00")),
        ]
    );
}

#[test]
fn negative_rate_is_ignored() {
    let mut cfg = Config::new();
    cfg.set_output_value("cost", "cost_bw", ConfigValue::Decimal(-3));
    let mut cost = CostOutput::default();
    cost.apply_config(&cfg);
    assert_eq!(cost.cost_bw, 5);
}

#[test]
fn summary_toggle_comes_from_the_config() {
    let mut cfg = Config::new();
    cfg.set_output_value("summary", "show_per_pdf", ConfigValue::Bool(false));
    let mut summary = SummaryOutput::default();
    summary.apply_config(&cfg);
    assert!(!summary.show_per_pdf);
}

#[test]
fn unknown_keys_do_not_disturb_a_module() {
    let mut cfg = Config::new();
    cfg.set_output_value("summary", "mystery_key", ConfigValue::Int(9));
    let mut summary = SummaryOutput::default();
    summary.apply_config(&cfg);
    assert!(summary.show_per_pdf);
}

#[test]
fn registry_generates_one_report_per_module_in_order() {
    let results = vec![file("a.pdf", 2, 2, 0)];
    let registry = OutputRegistry::default();
    let reports = registry.generate_all(&results);
    assert_eq!(reports.len(), 2);
    assert_eq!(reports[0].title, "Page Summary");
    assert_eq!(reports[1].title, "Cost Calculation");
}

#[test]
fn registry_reports_each_module_params() {
    let registry = OutputRegistry::default();
    let params = registry.all_config_params();
    assert_eq!(params.len(), 2);
    assert_eq!(params[0].0, "summary");
    assert_eq!(params[0].2.len(), 1);
    assert_eq!(params[1].0, "cost");
    assert_eq!(params[1].2.len(), 3);
}

#[test]
fn last_fact_of_a_kind_wins() {
    let mut f = file("a.pdf", 2, 1, 1);
    f.results.push(AnalysisResult::PageCount { total: 7 });
    let summary = SummaryOutput::default();
    let data = summary.generate(&vec![f]);
    assert_eq!(data.totals[0], (String::from("Total Pages"), String::from("7")));
}

#[test]
fn a_file_without_facts_counts_zero() {
    let f = PdfAnalysisResult {
        filename: String::from("empty.pdf"),
        path: String::from("/tmp/empty.pdf"),
        results: Vec::new(),
        errors: vec![String::from("Page Count: boom")],
    };
    let summary = SummaryOutput::default();
    let data = summary.generate(&vec![f]);
    assert_eq!(
        data.totals,
        vec![
            (String::from("Total Pages"), String::from("0")),
            (String::from("Total B&W"), String::from("0")),
            (String::from("Total Color"), String::from("0")),
        ]
    );
}

#[test]
fn summary_totals_saturate_instead_of_overflowing() {
    let results = vec![file("a.pdf", usize::MAX, 0, 0), file("b.pdf", 5, 0, 0)];
    let summary = SummaryOutput { show_per_pdf: false };
    let data = summary.generate(&results);
    assert_eq!(data.totals[0].1, usize::MAX.to_string());
}

#[test]
fn cost_totals_saturate_instead_of_overflowing() {
    let results = vec![file("a.pdf", 4, 3, 0)];
    let mut cost = CostOutput::default();
    cost.cost_bw = u64::MAX;
    let data = cost.generate(&results);
    // 3 pages at the largest possible rate saturates at the largest amount.
    assert_eq!(data.per_pdf[0].values[0].1, format!("{}.15", u64::MAX / 100));
}

#[test]
fn registry_apply_config_reaches_every_module() {
    let mut cfg = Config::new();
    cfg.set_output_value("cost", "cost_bw", ConfigValue::Decimal(100));
    cfg.set_output_value("cost", "cost_color", ConfigValue::Decimal(200));
    cfg.set_output_value("summary", "show_per_pdf", ConfigValue::Bool(false));

    let mut registry = OutputRegistry::default();
    registry.apply_config(&cfg);

    let results = vec![file("a.pdf", 2, 1, 1)];
    let reports = registry.generate_all(&results);
    // The summary dropped its breakdown; the cost report uses the new rates.
    assert!(reports[0].per_pdf.is_empty());
    assert_eq!(
        reports[1].per_pdf[0].values,
        vec![
            (String::from("B&W Cost"), String::from("1.00")),
            (String::from("Color Cost"), String::from("2.00")),
            (String::from("Total"), String::from("3.00")),
        ]
    );
}
