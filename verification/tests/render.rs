use std::collections::BTreeMap;

use website::documents::DocumentTable;
use website::markdown::{assemble, dialect, split_text, FrontMatter, Markdown, RenderError};

/// Decodes a payload the way the site does: a mapping with a `title` string.
fn decode(payload: &str) -> Option<FrontMatter> {
    let fields: BTreeMap<String, serde_yml::Value> = serde_yml::from_str(payload).ok()?;
    match fields.get("title") {
        Some(serde_yml::Value::String(title)) => Some(FrontMatter { title: title.clone() }),
        _ => None,
    }
}

fn render(table: &DocumentTable, file_name: &str) -> Result<(String, String), RenderError> {
    let page = Markdown(table, file_name, decode)?;
    Ok((page.title, page.html))
}

fn table_with(name: &str, text: &str) -> DocumentTable {
    let mut table = DocumentTable::new();
    assert!(table.insert(name, text.as_bytes().to_vec()));
    table
}

#[test]
fn heading_and_paragraph_after_front_matter() {
    let table = table_with("hello.md", "---\ntitle: Test\n---\n# Hello\n\nWorld");
    let (title, html) = render(&table, "hello").unwrap();
    assert_eq!(title, "Test");
    assert_eq!(html, "<h1>Hello</h1>\n<p>World</p>\n");
}

#[test]
fn title_is_the_front_matter_title_exactly() {
    let table = table_with("x.md", "---\ntitle: \"X: a title, with  spaces \"\n---\nBody\n");
    let (title, html) = render(&table, "x").unwrap();
    assert_eq!(title, "X: a title, with  spaces ");
    assert_eq!(html, "<p>Body</p>\n");
}

#[test]
fn html_holds_neither_delimiters_nor_payload() {
    let split = split_text("---\ntitle: Contact me\n---\n\nWrite a letter.\n");
    assert_eq!(split.payloads, vec!["title: Contact me\n".to_string()]);
    assert_eq!(split.html, "<p>Write a letter.</p>\n");
    assert!(!split.html.contains("---"));
    assert!(!split.html.contains("title"));
    assert!(!split.html.contains("Contact me"));
}

#[test]
fn table_footnote_and_heading_id_are_rendered() {
    let text = "---\ntitle: Round trip\n---\n# Heading {#intro}\n\n| a | b |\n|---|---|\n| 1 | 2 |\n\nText with a note[^1].\n\n[^1]: The note.\n";
    let table = table_with("all.md", text);
    let (title, html) = render(&table, "all").unwrap();
    assert_eq!(title, "Round trip");
    assert!(html.contains("<h1 id=\"intro\">Heading</h1>"));
    assert!(html.contains("<table><thead><tr><th>a</th><th>b</th></tr></thead><tbody>"));
    assert!(html.contains("<tr><td>1</td><td>2</td></tr>"));
    assert!(html.contains("</tbody></table>"));
    assert!(html.contains("<sup class=\"footnote-reference\"><a href=\"#1\">1</a></sup>"));
    assert!(html.contains("<div class=\"footnote-definition\" id=\"1\">"));
    assert!(html.contains("The note."));
}

#[test]
fn last_metadata_block_wins() {
    let text = "---\ntitle: First\n---\n\nBody\n\n---\ntitle: Second\n---\n\nMore\n";
    let table = table_with("two.md", text);
    let split = split_text(text);
    assert_eq!(
        split.payloads,
        vec!["title: First\n".to_string(), "title: Second\n".to_string()]
    );
    let (title, html) = render(&table, "two").unwrap();
    assert_eq!(title, "Second");
    assert_eq!(html, "<p>Body</p>\n<p>More</p>\n");
}

#[test]
fn unknown_document_is_not_found() {
    let table = table_with("contact.md", "---\ntitle: Contact\n---\n");
    let error = render(&table, "about").unwrap_err();
    assert_eq!(error, RenderError::DocumentNotFound("about".to_string()));
    assert_eq!(error.message(), "File not found: about");
    assert_eq!(
        render(&DocumentTable::new(), "contact").unwrap_err(),
        RenderError::DocumentNotFound("contact".to_string())
    );
}

#[test]
fn the_resource_is_the_identifier_with_md() {
    let table = table_with("contact", "---\ntitle: Contact\n---\n");
    assert_eq!(
        render(&table, "contact").unwrap_err(),
        RenderError::DocumentNotFound("contact".to_string())
    );
    let table = table_with("contact.md", "---\ntitle: Contact\n---\n");
    assert_eq!(
        render(&table, "contact.md").unwrap_err(),
        RenderError::DocumentNotFound("contact.md".to_string())
    );
    assert!(render(&table, "contact").is_ok());
}

#[test]
fn front_matter_without_title_is_malformed() {
    let table = table_with("notitle.md", "---\nauthor: Someone\n---\n# Hello\n");
    let error = render(&table, "notitle").unwrap_err();
    assert_eq!(error, RenderError::MalformedFrontMatter("notitle".to_string()));
    assert_eq!(error.message(), "Front matter malformed: notitle");
}

#[test]
fn front_matter_that_is_no_yaml_is_malformed() {
    let table = table_with("bad.md", "---\ntitle: [unclosed\n---\n# Hello\n");
    assert_eq!(
        render(&table, "bad").unwrap_err(),
        RenderError::MalformedFrontMatter("bad".to_string())
    );
}

#[test]
fn one_malformed_block_fails_the_document() {
    let text = "---\nauthor: Someone\n---\n\nBody\n\n---\ntitle: Second\n---\n";
    let table = table_with("mixed.md", text);
    assert_eq!(
        render(&table, "mixed").unwrap_err(),
        RenderError::MalformedFrontMatter("mixed".to_string())
    );
}

#[test]
fn document_without_front_matter_is_missing_it() {
    let table = table_with("plain.md", "# Hello\n\nWorld\n");
    let split = split_text("# Hello\n\nWorld\n");
    assert!(split.payloads.is_empty());
    assert_eq!(split.html, "<h1>Hello</h1>\n<p>World</p>\n");
    let error = render(&table, "plain").unwrap_err();
    assert_eq!(error, RenderError::MissingFrontMatter("plain".to_string()));
    assert_eq!(error.message(), "Front matter missing: plain");
}

#[test]
fn unknown_fields_are_ignored() {
    let table = table_with("more.md", "---\nauthor: Someone\ntitle: Kept\ndraft: true\n---\nBody\n");
    let (title, html) = render(&table, "more").unwrap();
    assert_eq!(title, "Kept");
    assert_eq!(html, "<p>Body</p>\n");
}

#[test]
fn unclosed_block_is_body_text() {
    let split = split_text("---\ntitle: example\nanother_field: 0\n");
    assert!(split.payloads.is_empty());
    assert_eq!(split.html, "<hr />\n<p>title: example\nanother_field: 0</p>\n");
}

#[test]
fn the_dialect_has_block_quote_tags_and_no_strikethrough() {
    let split = split_text("> [!NOTE]\n> Mind this.\n\n~~kept~~ as it is\n\n- [ ] no task list\n");
    assert!(split.html.contains("<blockquote class=\"markdown-alert-note\">"));
    assert!(split.html.contains("~~kept~~ as it is"));
    assert!(!split.html.contains("<del>"));
    assert!(!split.html.contains("<input"));
}

#[test]
fn pluses_delimit_no_metadata_block() {
    let split = split_text("+++\ntitle: Test\n+++\n");
    assert!(split.payloads.is_empty());
    assert_eq!(split.html, "<p>+++\ntitle: Test\n+++</p>\n");
}

#[test]
fn every_payload_is_decoded_in_order() {
    let text = "---\ntitle: First\n---\n\nBody\n\n---\ntitle: Second\n---\n";
    let table = table_with("two.md", text);
    let seen = std::cell::RefCell::new(Vec::new());
    let page = Markdown(&table, "two", |payload: &str| {
        seen.borrow_mut().push(payload.to_string());
        decode(payload)
    })
    .unwrap();
    assert_eq!(page.title, "Second");
    assert_eq!(*seen.borrow(), vec!["title: First\n".to_string(), "title: Second\n".to_string()]);
}

#[test]
fn the_decoder_decides_what_is_malformed() {
    let table = table_with("doc.md", "---\ntitle: Test\n---\nBody\n");
    assert_eq!(
        Markdown(&table, "doc", |_: &str| None).unwrap_err(),
        RenderError::MalformedFrontMatter("doc".to_string())
    );
    let page = Markdown(&table, "doc", |payload: &str| {
        Some(FrontMatter { title: payload.to_uppercase() })
    })
    .unwrap();
    assert_eq!(page.title, "TITLE: TEST\n");
    assert_eq!(page.html, "<p>Body</p>\n");
}

#[test]
fn assemble_takes_the_last_title() {
    let decoded = vec![
        Some(FrontMatter { title: "First".to_string() }),
        Some(FrontMatter { title: "Second".to_string() }),
        Some(FrontMatter { title: "Third".to_string() }),
    ];
    let page = assemble("doc", decoded, "<p>x</p>".to_string()).unwrap();
    assert_eq!(page.title, "Third");
    assert_eq!(page.html, "<p>x</p>");
}

#[test]
fn assemble_reports_each_failure() {
    let failed = vec![Some(FrontMatter { title: "First".to_string() }), None];
    assert_eq!(
        assemble("doc", failed, String::new()).unwrap_err(),
        RenderError::MalformedFrontMatter("doc".to_string())
    );
    let failed = vec![None, Some(FrontMatter { title: "Second".to_string() })];
    assert_eq!(
        assemble("doc", failed, String::new()).unwrap_err(),
        RenderError::MalformedFrontMatter("doc".to_string())
    );
    assert_eq!(
        assemble("doc", Vec::new(), "<p>x</p>".to_string()).unwrap_err(),
        RenderError::MissingFrontMatter("doc".to_string())
    );
}

#[test]
fn carriage_returns_part_the_payload() {
    let split = split_text("---\r\ntitle: Test\r\n---\r\nBody\r\n");
    assert_eq!(split.payloads, vec!["title: Test".to_string(), "\n".to_string()]);
    assert_eq!(split.html, "<p>Body</p>\n");
}

#[test]
fn body_may_say_what_the_front_matter_says() {
    let table = table_with("echo.md", "---\ntitle: T\n---\n\ntitle: T and `---`\n");
    let (title, html) = render(&table, "echo").unwrap();
    assert_eq!(title, "T");
    assert_eq!(html, "<p>title: T and <code>---</code></p>\n");
}

#[test]
fn html_is_the_same_whatever_the_front_matter_says() {
    let one = split_text("---\ntitle: One\n---\n# Same\n\nBody\n");
    let other = split_text("---\ntitle: Another\nauthor: Someone\n---\n# Same\n\nBody\n");
    assert_ne!(one.payloads, other.payloads);
    assert_eq!(one.html, other.html);
    assert_eq!(one.html, "<h1>Same</h1>\n<p>Body</p>\n");
}

#[test]
fn the_site_dialect_switches_its_extensions_on() {
    let dialect = dialect();
    assert!(dialect.tables);
    assert!(dialect.footnotes);
    assert!(dialect.heading_attributes);
    assert!(dialect.yaml_metadata_blocks);
    assert!(dialect.gfm);
}
