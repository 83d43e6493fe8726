use webpage_save::batch::{BatchRun, OutputFormat, SearchToPdfConfig};
use webpage_save::errors::PipelineError;
use webpage_save::naming::{base_filename, generate_filename, sanitize_filename, NamingStrategy};
use webpage_save::records::{extract_urls_from_results, SearchResult};

#[test]
fn test_sanitize_filename() {
    assert_eq!(sanitize_filename("test.txt"), "test.txt");
    assert_eq!(sanitize_filename("test/file.txt"), "test_file.txt");
    assert_eq!(sanitize_filename("test:file*.txt"), "test_file_.txt");
    assert_eq!(sanitize_filename("test<file>?.txt"), "test_file__.txt");
}

#[test]
fn test_search_to_pdf_config_default() {
    let config = SearchToPdfConfig::default();
    assert_eq!(config.max_results, 5);
    assert_eq!(config.output_dir, String::from("./pdf_downloads"));
    assert!(config.include_metadata);
    assert_eq!(config.naming_strategy, NamingStrategy::TitleDomain);
    assert_eq!(config.output_format, OutputFormat::Pdf);
}

#[test]
fn test_naming_strategy() {
    let result = SearchResult {
        title: "Test Title".to_string(),
        url: "https://example.com/path".to_string(),
        description: "Test description".to_string(),
    };

    let _config = SearchToPdfConfig {
        naming_strategy: NamingStrategy::Title,
        output_format: OutputFormat::Pdf,
        ..Default::default()
    };

    assert_eq!(result.title, "Test Title");
    assert_eq!(result.url, "https://example.com/path");
}

#[test]
fn sanitize_replaces_control_characters_and_trims() {
    assert_eq!(sanitize_filename("a\tb"), "a_b");
    assert_eq!(sanitize_filename("  spaced name  "), "spaced name");
    assert_eq!(sanitize_filename("back\\slash|pipe"), "back_slash_pipe");
}

#[test]
fn parser_recovers_labelled_triples_in_order() {
    let raw = "Title: First\nURL: https://one.example/a\nDescription: about one\n\
               Title: Second\nURL: https://two.example/b\nDescription: about two\n\
               Title: Third\nURL: https://three.example/c\nDescription: about three\n";
    let records = extract_urls_from_results(raw);
    assert_eq!(records.len(), 3);
    assert_eq!(records[0].title, "First");
    assert_eq!(records[0].url, "https://one.example/a");
    assert_eq!(records[1].title, "Second");
    assert_eq!(records[1].url, "https://two.example/b");
    assert_eq!(records[2].title, "Third");
    assert_eq!(records[2].url, "https://three.example/c");
    // A record is emitted as soon as title and url are known, before its own
    // Description line arrives: descriptions attach one record late.
    assert_eq!(records[0].description, "");
    assert_eq!(records[1].description, "about one");
    assert_eq!(records[2].description, "about two");
}

#[test]
fn parser_skips_blank_and_separator_lines() {
    let raw = "=====\nTitle: Only\n-----\nURL: https://only.example/\n\n";
    let records = extract_urls_from_results(raw);
    assert_eq!(records.len(), 1);
    assert_eq!(records[0].title, "Only");
    assert_eq!(records[0].url, "https://only.example/");
}

#[test]
fn parser_takes_bare_url_line_then_title_line() {
    let raw = "https://bare.example/page\nA headline for it\n";
    let records = extract_urls_from_results(raw);
    assert_eq!(records.len(), 1);
    assert_eq!(records[0].url, "https://bare.example/page");
    assert_eq!(records[0].title, "A headline for it");
    assert_eq!(records[0].description, "");
}

#[test]
fn fallback_extracts_bare_urls_with_synthesized_titles() {
    let raw = "no recognizable structure here https://a.b/c and then https://d.e/f trailing words";
    let records = extract_urls_from_results(raw);
    assert_eq!(records.len(), 2);
    assert_eq!(records[0].title, "Search Result 1");
    assert_eq!(records[0].url, "https://a.b/c");
    assert_eq!(records[0].description, "");
    assert_eq!(records[1].title, "Search Result 2");
    assert_eq!(records[1].url, "https://d.e/f");
    assert_eq!(records[1].description, "");
}

#[test]
fn fallback_yields_nothing_for_plain_prose() {
    let records = extract_urls_from_results("just words, no links at all");
    assert_eq!(records.len(), 0);
}

#[test]
fn parser_returns_nothing_for_empty_text() {
    assert_eq!(extract_urls_from_results("").len(), 0);
}

#[test]
fn parser_handles_carriage_return_line_endings() {
    let raw = "Title: Windows Style\r\nURL: https://crlf.example/page\r\n";
    let records = extract_urls_from_results(raw);
    assert_eq!(records.len(), 1);
    assert_eq!(records[0].title, "Windows Style");
    assert_eq!(records[0].url, "https://crlf.example/page");
}

#[test]
fn filename_strategies_produce_expected_names() {
    let record = SearchResult {
        title: "Test Title".to_string(),
        url: "https://example.com/path".to_string(),
        description: String::new(),
    };
    assert_eq!(
        generate_filename(&record, 0, NamingStrategy::Title, "pdf").unwrap(),
        "Test Title.pdf"
    );
    assert_eq!(
        generate_filename(&record, 0, NamingStrategy::Domain, "pdf").unwrap(),
        "example.com.pdf"
    );
    assert_eq!(
        generate_filename(&record, 0, NamingStrategy::Sequential, "pdf").unwrap(),
        "search_result_1.pdf"
    );
    assert_eq!(
        generate_filename(&record, 11, NamingStrategy::Sequential, "md").unwrap(),
        "search_result_12.md"
    );
    assert_eq!(
        generate_filename(&record, 0, NamingStrategy::TitleDomain, "pdf").unwrap(),
        "Test Title_example.com.pdf"
    );
}

#[test]
fn filename_strategy_falls_back_for_empty_title() {
    let record = SearchResult {
        title: String::new(),
        url: "https://example.com/".to_string(),
        description: String::new(),
    };
    assert_eq!(
        generate_filename(&record, 2, NamingStrategy::Title, "pdf").unwrap(),
        "search_result_3.pdf"
    );
    assert_eq!(
        generate_filename(&record, 2, NamingStrategy::TitleDomain, "pdf").unwrap(),
        "result_3_example.com.pdf"
    );
}

#[test]
fn filename_strategy_rejects_unparsable_url_for_domain_naming() {
    let record = SearchResult {
        title: "Has Title".to_string(),
        url: "not a url".to_string(),
        description: String::new(),
    };
    let err = base_filename(&record, 0, NamingStrategy::Domain).unwrap_err();
    assert!(matches!(err, PipelineError::Validation(_)));
    // A strategy that never reads the URL still succeeds.
    assert_eq!(
        base_filename(&record, 0, NamingStrategy::Sequential).unwrap(),
        "search_result_1"
    );
}

#[test]
fn filename_strategy_is_idempotent() {
    let record = SearchResult {
        title: "Stable Name".to_string(),
        url: "https://stable.example/x".to_string(),
        description: String::new(),
    };
    let first = base_filename(&record, 4, NamingStrategy::TitleDomain).unwrap();
    let second = base_filename(&record, 4, NamingStrategy::TitleDomain).unwrap();
    assert_eq!(first, second);
}

#[test]
fn batch_truncates_to_max_results() {
    let mut raw = String::new();
    for i in 1..=7 {
        raw.push_str(&format!(
            "Title: Result {i}\nURL: https://site{i}.example/page\n"
        ));
    }
    let records = extract_urls_from_results(&raw);
    assert_eq!(records.len(), 7);

    let config = SearchToPdfConfig {
        max_results: 3,
        ..Default::default()
    };
    let run = BatchRun::start(&raw, &config);
    assert_eq!(run.record_count(), 3);
    assert_eq!(run.record_at(0).title, "Result 1");
    assert_eq!(run.record_at(2).title, "Result 3");
}

#[test]
fn batch_with_no_successes_reports_empty_batch() {
    let raw = "Title: Only\nURL: https://only.example/\n";
    let config = SearchToPdfConfig::default();
    let run = BatchRun::start(raw, &config);
    assert_eq!(run.record_count(), 1);
    // Every per-record conversion failed, so nothing was ever recorded.
    let outcome = run.finish();
    assert!(matches!(outcome, Err(PipelineError::EmptyBatch)));
}

#[test]
fn batch_collects_successes_in_order() {
    let raw = "Title: One\nURL: https://one.example/\nTitle: Two\nURL: https://two.example/\n";
    let config = SearchToPdfConfig::default();
    let mut run = BatchRun::start(raw, &config);
    assert_eq!(run.record_count(), 2);
    run.record_success(vec!["out/one.pdf".to_string()]);
    run.record_success(vec!["out/two.pdf".to_string(), "out/two.md".to_string()]);
    let paths = run.finish().unwrap();
    assert_eq!(paths, vec!["out/one.pdf", "out/two.pdf", "out/two.md"]);
}
