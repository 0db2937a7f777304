use pdf_analyzer::config::Config;
use pdf_analyzer::config::ConfigValue;
use pdf_analyzer::config::FlatEntry;
use pdf_analyzer::config::Section;

fn value_bool(v: &ConfigValue) -> Option<bool> {
    v.as_bool()
}

#[test]
fn get_returns_what_set_stored() {
    let mut cfg = Config::new();
    cfg.set_analyzer_value("color_analysis", "tolerance", ConfigValue::Int(12));
    cfg.set_output_value("summary", "show_per_pdf", ConfigValue::Bool(false));

    match cfg.get_analyzer_value("color_analysis", "tolerance") {
        Some(ConfigValue::Int(v)) => assert_eq!(*v, 12),
        _ => panic!("stored analyzer value not found"),
    }
    assert_eq!(
        cfg.get_output_value("summary", "show_per_pdf").and_then(value_bool),
        Some(false)
    );
}

#[test]
fn set_replaces_an_existing_key() {
    let mut cfg = Config::new();
    cfg.set_output_value("cost", "cost_bw", ConfigValue::Decimal(5));
    cfg.set_output_value("cost", "cost_bw", ConfigValue::Decimal(9));
    match cfg.get_output_value("cost", "cost_bw") {
        Some(ConfigValue::Decimal(v)) => assert_eq!(*v, 9),
        _ => panic!("replaced value not found"),
    }
}

#[test]
fn namespaces_do_not_collide() {
    let mut cfg = Config::new();
    cfg.set_analyzer_value("mod", "show_per_pdf", ConfigValue::Bool(true));
    cfg.set_output_value("mod", "show_per_pdf", ConfigValue::Bool(false));
    assert_eq!(
        cfg.get_analyzer_value("mod", "show_per_pdf").and_then(value_bool),
        Some(true)
    );
    assert_eq!(
        cfg.get_output_value("mod", "show_per_pdf").and_then(value_bool),
        Some(false)
    );
}

#[test]
fn missing_module_or_key_reads_as_none() {
    let mut cfg = Config::new();
    cfg.set_analyzer_value("a", "k", ConfigValue::Int(1));
    assert!(cfg.get_analyzer_value("b", "k").is_none());
    assert!(cfg.get_analyzer_value("a", "other").is_none());
    assert!(cfg.get_output_value("a", "k").is_none());
}

#[test]
fn saved_entries_reproduce_every_pair_on_load() {
    let mut cfg = Config::new();
    cfg.set_analyzer_value("color_analysis", "tolerance", ConfigValue::Int(10));
    cfg.set_output_value("summary", "show_per_pdf", ConfigValue::Bool(true));
    cfg.set_output_value("cost", "cost_bw", ConfigValue::Decimal(7));
    cfg.set_output_value("cost", "cost_color", ConfigValue::Decimal(21));
    cfg.set_output_value("cost", "label", ConfigValue::Text(String::from("per page")));

    let entries = cfg.to_entries();
    let reloaded = Config::from_entries(&entries);

    match reloaded.get_analyzer_value("color_analysis", "tolerance") {
        Some(ConfigValue::Int(v)) => assert_eq!(*v, 10),
        _ => panic!("analyzer pair lost in round trip"),
    }
    assert_eq!(
        reloaded.get_output_value("summary", "show_per_pdf").and_then(value_bool),
        Some(true)
    );
    match reloaded.get_output_value("cost", "cost_bw") {
        Some(ConfigValue::Decimal(v)) => assert_eq!(*v, 7),
        _ => panic!("rate lost in round trip"),
    }
    match reloaded.get_output_value("cost", "cost_color") {
        Some(ConfigValue::Decimal(v)) => assert_eq!(*v, 21),
        _ => panic!("rate lost in round trip"),
    }
    match reloaded.get_output_value("cost", "label") {
        Some(ConfigValue::Text(v)) => assert_eq!(v, "per page"),
        _ => panic!("text lost in round trip"),
    }
}

#[test]
fn unknown_entries_load_without_error_and_are_kept() {
    let mut entries: Vec<FlatEntry> = Vec::new();
    entries.push(FlatEntry {
        section: Section::Outputs,
        module: String::from("summary"),
        key: String::from("show_per_pdf"),
        value: ConfigValue::Bool(false),
    });
    entries.push(FlatEntry {
        section: Section::Analyzers,
        module: String::from("not_a_module"),
        key: String::from("mystery"),
        value: ConfigValue::Int(42),
    });
    let cfg = Config::from_entries(&entries);
    assert_eq!(
        cfg.get_output_value("summary", "show_per_pdf").and_then(value_bool),
        Some(false)
    );
    match cfg.get_analyzer_value("not_a_module", "mystery") {
        Some(ConfigValue::Int(v)) => assert_eq!(*v, 42),
        _ => panic!("unknown entry should load without error"),
    }
}

#[test]
fn value_accessors_match_variants() {
    assert_eq!(ConfigValue::Bool(true).as_bool(), Some(true));
    assert_eq!(ConfigValue::Int(3).as_bool(), None);
    assert_eq!(ConfigValue::Decimal(15).as_decimal(), Some(15));
    assert_eq!(ConfigValue::Bool(false).as_decimal(), None);
}
