use webpage_save::errors::PipelineError;
use webpage_save::html::{extract_main_content, extract_title};
use webpage_save::markdown::html_to_markdown;
use webpage_save::urls::{url_host_or_unknown, validate_fetch_url, validate_render_url};

#[test]
fn test_html_to_markdown() {
    let html = r#"
        <html>
        <head>
            <title>Test Markdown</title>
        </head>
        <body>
            <h1>Test Markdown</h1>
            <p>This is a test <strong>markdown</strong> generated from HTML.</p>
            <ul>
                <li>Item 1</li>
                <li>Item 2</li>
            </ul>
        </body>
        </html>
    "#;

    let markdown_content = html_to_markdown(html, None);
    assert!(!markdown_content.is_empty());
    assert!(markdown_content.contains("# Test Markdown"));
    assert!(markdown_content.contains("**markdown**"));
}

#[test]
fn test_extract_main_content() {
    let html = r#"
        <html>
        <body>
            <header>Header content</header>
            <main>
                <h1>Main Content</h1>
                <p>This is the main content.</p>
            </main>
            <footer>Footer content</footer>
        </body>
        </html>
    "#;

    let main_content = extract_main_content(html);
    assert!(main_content.contains("Main Content"));
    assert!(main_content.contains("main content"));
    assert!(!main_content.contains("Header content"));
    assert!(!main_content.contains("Footer content"));
}

#[test]
fn test_extract_title() {
    let html = r#"
        <html>
        <head>
            <title>Page Title</title>
        </head>
        <body>
            <h1>Main Heading</h1>
            <p>Content</p>
        </body>
        </html>
    "#;

    let title = extract_title(html);
    assert_eq!(title, Some("Main Heading".to_string()));
}

#[test]
fn test_url_validation() {
    let result = validate_fetch_url("invalid-url");
    assert!(result.is_err());
}

#[test]
fn markdown_test_unsupported_scheme() {
    let result = validate_fetch_url("ftp://example.com");
    assert!(matches!(result, Err(PipelineError::Validation(_))));
}

#[test]
fn pdf_test_unsupported_scheme() {
    let result = validate_render_url("ftp://example.com");
    assert!(matches!(result, Err(PipelineError::Validation(_))));
}

#[test]
fn test_url_to_pdf_invalid_url() {
    let result = validate_render_url("invalid-url");
    assert!(result.is_err());
}

#[test]
fn render_accepts_file_urls_but_fetch_does_not() {
    assert!(validate_render_url("file:///tmp/page.html").is_ok());
    assert!(validate_fetch_url("file:///tmp/page.html").is_err());
    assert!(validate_fetch_url("https://example.com").is_ok());
    assert!(validate_render_url("http://example.com").is_ok());
}

#[test]
fn test_html_to_markdown_with_base_url() {
    let html = r#"
        <html>
        <head>
            <title>Test Page</title>
        </head>
        <body>
            <h1>Test Page</h1>
            <p>Test content</p>
        </body>
        </html>
    "#;

    let markdown_content = html_to_markdown(html, Some("https://example.com"));
    assert!(markdown_content.contains("Source: [https://example.com](https://example.com)"));
    assert!(markdown_content.contains("# Test Page"));
}

#[test]
fn markdown_conversion_uses_only_the_main_content() {
    let html = "<html><body><main><p>kept words</p></main><footer>dropped words</footer></body></html>";
    let md = html_to_markdown(html, None);
    assert!(md.contains("kept words"));
    assert!(!md.contains("dropped words"));
}

#[test]
fn markdown_header_says_untitled_when_no_title_found() {
    let markdown_content = html_to_markdown("<p>just a paragraph</p>", Some("https://x.example"));
    assert!(markdown_content.starts_with("# Untitled"));
}

#[test]
fn title_cascade_prefers_title_tag_over_meta() {
    let html = r#"<html><head><title>From Title Tag</title>
        <meta property="og:title" content="From Open Graph"></head>
        <body><p>no h1 here</p></body></html>"#;
    assert_eq!(extract_title(html), Some("From Title Tag".to_string()));
}

#[test]
fn title_cascade_reads_open_graph_then_twitter_meta() {
    let html = r#"<html><head>
        <meta property="og:title" content="From Open Graph"></head>
        <body><p>no headline</p></body></html>"#;
    assert_eq!(extract_title(html), Some("From Open Graph".to_string()));

    let html = r#"<html><head>
        <meta name="twitter:title" content="From Twitter"></head>
        <body><p>no headline</p></body></html>"#;
    assert_eq!(extract_title(html), Some("From Twitter".to_string()));
}

#[test]
fn title_cascade_falls_back_to_title_class() {
    let html = r#"<html><body><div class="title">Classy Title</div></body></html>"#;
    assert_eq!(extract_title(html), Some("Classy Title".to_string()));
}

#[test]
fn title_cascade_skips_empty_headings() {
    let html = r#"<html><head><title>Real Title</title></head>
        <body><h1>   </h1></body></html>"#;
    assert_eq!(extract_title(html), Some("Real Title".to_string()));
}

#[test]
fn extract_title_absent_when_nothing_matches() {
    assert_eq!(extract_title("<p></p>"), None);
}

#[test]
fn main_content_prefers_article_when_no_main() {
    let html = r#"<html><body>
        <article><p>The article body.</p></article>
        <footer>fine print</footer>
    </body></html>"#;
    let content = extract_main_content(html);
    assert!(content.contains("The article body."));
    assert!(!content.contains("fine print"));
}

#[test]
fn url_host_is_extracted_for_naming() {
    assert_eq!(
        url_host_or_unknown("https://example.com/path").unwrap(),
        "example.com"
    );
    assert_eq!(url_host_or_unknown("data:text/plain,hi").unwrap(), "unknown");
    assert!(matches!(
        url_host_or_unknown("not a url"),
        Err(PipelineError::Validation(_))
    ));
}
