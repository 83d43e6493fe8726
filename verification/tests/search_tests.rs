use webpage_save::batch::{plan_record_files, OutputFormat, SearchToPdfConfig};
use webpage_save::errors::PipelineError;
use webpage_save::naming::NamingStrategy;
use webpage_save::records::SearchResult;
use webpage_save::search::{check_search_response, plan_search, SearchConfig, SearchType};

#[test]
fn test_search_type_from_str() {
    assert_eq!("web".parse::<SearchType>().unwrap(), SearchType::Web);
    assert_eq!("news".parse::<SearchType>().unwrap(), SearchType::News);
    assert_eq!("local".parse::<SearchType>().unwrap(), SearchType::Local);
    assert_eq!("WEB".parse::<SearchType>().unwrap(), SearchType::Web);
    assert!("invalid".parse::<SearchType>().is_err());
}

#[test]
fn test_search_type_display() {
    assert_eq!(SearchType::Web.to_string(), "web");
    assert_eq!(SearchType::News.to_string(), "news");
    assert_eq!(SearchType::Local.to_string(), "local");
}

#[test]
fn test_search_config_default() {
    let config = SearchConfig::default();
    assert!(config.count.is_none());
    assert!(config.offset.is_none());
    assert!(config.country.is_none());
    assert!(config.language.is_none());
    assert!(config.freshness.is_none());
}

#[test]
fn search_response_error_prefix_is_a_provider_error() {
    let err = check_search_response("Error: quota exceeded".to_string()).unwrap_err();
    match err {
        PipelineError::Provider(message) => {
            assert_eq!(message, "Search failed: Error: quota exceeded");
        }
        other => panic!("expected a provider error, got {other:?}"),
    }
}

#[test]
fn search_response_text_passes_through() {
    let ok = check_search_response("Title: A\nURL: https://a.example/\n".to_string()).unwrap();
    assert_eq!(ok, "Title: A\nURL: https://a.example/\n");
}

#[test]
fn plan_search_keeps_only_the_options_each_type_honours() {
    let config = SearchConfig {
        count: Some(4),
        offset: Some(2),
        country: Some("de".to_string()),
        language: Some("de".to_string()),
        freshness: Some("w".to_string()),
    };

    let web = plan_search(SearchType::Web, "rust", Some(config.clone()));
    assert_eq!(web.query, "rust");
    assert_eq!(web.count, Some(4));
    assert_eq!(web.offset, Some(2));
    assert!(web.country.is_none() && web.language.is_none() && web.freshness.is_none());

    let news = plan_search(SearchType::News, "rust", Some(config.clone()));
    assert_eq!(news.count, Some(4));
    assert_eq!(news.offset, Some(2));
    assert_eq!(news.country.as_deref(), Some("de"));
    assert_eq!(news.language.as_deref(), Some("de"));
    assert_eq!(news.freshness.as_deref(), Some("w"));

    let local = plan_search(SearchType::Local, "coffee", Some(config));
    assert_eq!(local.count, Some(4));
    assert!(local.offset.is_none());
    assert!(local.country.is_none() && local.language.is_none() && local.freshness.is_none());

    let bare = plan_search(SearchType::Web, "rust", None);
    assert!(bare.count.is_none() && bare.offset.is_none());
}

#[test]
fn planned_files_follow_the_output_format() {
    let record = SearchResult {
        title: "Doc".to_string(),
        url: "https://docs.example/a".to_string(),
        description: String::new(),
    };
    let mut config = SearchToPdfConfig {
        naming_strategy: NamingStrategy::Title,
        output_format: OutputFormat::Pdf,
        ..Default::default()
    };
    assert_eq!(plan_record_files(&record, 0, &config).unwrap(), vec!["Doc.pdf"]);

    config.output_format = OutputFormat::Markdown;
    assert_eq!(plan_record_files(&record, 0, &config).unwrap(), vec!["Doc.md"]);

    config.output_format = OutputFormat::Both;
    assert_eq!(
        plan_record_files(&record, 0, &config).unwrap(),
        vec!["Doc.pdf", "Doc.md"]
    );
}

#[test]
fn planned_files_fail_per_record_on_a_bad_url() {
    let record = SearchResult {
        title: "Doc".to_string(),
        url: "::not-a-url::".to_string(),
        description: String::new(),
    };
    let config = SearchToPdfConfig {
        naming_strategy: NamingStrategy::TitleDomain,
        ..Default::default()
    };
    assert!(matches!(
        plan_record_files(&record, 0, &config),
        Err(PipelineError::Validation(_))
    ));
}
