//! The boundary to the Markdown parser and HTML writer of `pulldown_cmark`.
//!
//! Nothing in this file is proved: each contract here is taken on trust from
//! the parser crate's source.

use crate::markdown::scan::{Token, TokenView};
use pulldown_cmark::{Event, MetadataBlockKind, Options, Parser, Tag, TagEnd};
use vstd::prelude::*;

verus! {

/// A Markdown event of `pulldown_cmark`. Its contents are not visible to
/// verified code, which only passes events on.
#[verifier::external_type_specification]
#[verifier::external_body]
pub struct ExEvent<'a>(Event<'a>);

/// The dialect extensions that the parser can be asked to recognise. An
/// extension that has no field here is always switched off.
#[derive(Clone, Copy, Debug)]
pub struct Dialect {
    /// Pipe tables.
    pub tables: bool,
    /// Footnote references and definitions.
    pub footnotes: bool,
    /// `{ #id .class }` after a heading.
    pub heading_attributes: bool,
    /// Metadata blocks between `---` lines.
    pub yaml_metadata_blocks: bool,
    /// GitHub's block quote tags such as `[!NOTE]`.
    pub gfm: bool,
}

/// The events that `pulldown_cmark::Parser::new_ext` yields, in order, for a
/// text and a set of extensions.
pub uninterp spec fn markdown_events(text: Seq<char>, dialect: Dialect) -> Seq<Event<'static>>;

/// What an event is to the scan: one of the two boundaries of a YAML-style
/// metadata block, a text run with its characters, or anything else.
pub uninterp spec fn token_of(event: Event<'static>) -> TokenView;

/// The HTML that `pulldown_cmark::html::push_html` writes for a sequence of
/// events.
pub uninterp spec fn html_of(events: Seq<Event<'static>>) -> Seq<char>;

/// Runs `pulldown_cmark::Parser::new_ext` over `text` with the extensions of
/// `dialect` and collects the events. The parser is a function of the text
/// and the options alone; the contract gives its result a name and claims
/// nothing else.
#[verifier::external_body]
pub(crate) fn parse<'a>(text: &'a str, dialect: &Dialect) -> (events: Vec<Event<'a>>)
    ensures
        events@ == markdown_events(text@, *dialect),
{
    let mut options = Options::empty();
    options.set(Options::ENABLE_TABLES, dialect.tables);
    options.set(Options::ENABLE_FOOTNOTES, dialect.footnotes);
    options.set(Options::ENABLE_HEADING_ATTRIBUTES, dialect.heading_attributes);
    options.set(Options::ENABLE_YAML_STYLE_METADATA_BLOCKS, dialect.yaml_metadata_blocks);
    options.set(Options::ENABLE_GFM, dialect.gfm);
    Parser::new_ext(text, options).collect()
}

/// Tells the variants of `pulldown_cmark::Event` apart: the start and the end
/// of a YAML-style metadata block, a text event, whose string is handed out
/// as it is, and every other event. The contract only names this reading of
/// the event.
#[verifier::external_body]
pub(crate) fn classify<'e, 'a>(event: &'e Event<'a>) -> (token: Token<'e>)
    ensures
        token@ == token_of(*event),
{
    match event {
        Event::Start(Tag::MetadataBlock(MetadataBlockKind::YamlStyle)) => Token::MetadataStart,
        Event::End(TagEnd::MetadataBlock(MetadataBlockKind::YamlStyle)) => Token::MetadataEnd,
        Event::Text(text) => Token::Text(text),
        _ => Token::Other,
    }
}

/// Calls `pulldown_cmark::html::push_html` on an empty string with the given
/// events. The writer is a function of the events alone and cannot fail on a
/// `String`; the contract gives its output a name and claims nothing else.
#[verifier::external_body]
pub(crate) fn render_html<'a>(events: Vec<Event<'a>>) -> (html: String)
    ensures
        html@ == html_of(events@),
{
    let mut html = String::new();
    pulldown_cmark::html::push_html(&mut html, events.into_iter());
    html
}

} // verus!
