//! Rendering of embedded Markdown documents.
//!
//! [`Markdown`] renders a document of the table of embedded resources. It
//! parses the text, parts the front-matter payloads from the body, which it
//! serialises to HTML, hands each payload to the caller's decoder, and
//! assembles the page from the decoded front matter and the HTML. Decoding
//! YAML into a record is the caller's part; everything around it is done
//! here. [`split_text`] and [`assemble`] are the two halves on their own.

pub mod events;
pub mod laws;
pub mod scan;

use crate::documents::DocumentTable;
use crate::markdown::events::{html_of, markdown_events, parse, render_html, Dialect};
use crate::markdown::scan::{body_of, payloads, split_events, texts, tokens_of};
use pulldown_cmark::Event;
use vstd::prelude::*;
use vstd::string::StringExecFns;

verus! {

/// The decoded metadata of a document.
#[derive(Debug, Clone)]
pub struct FrontMatter {
    /// The page title.
    pub title: String,
}

/// A document after the scan: the raw text of each metadata block, in
/// document order, and the HTML of everything else.
#[derive(Debug, Clone)]
pub struct SplitDocument {
    /// The front-matter payloads, still to be decoded.
    pub payloads: Vec<String>,
    /// The serialised body.
    pub html: String,
}

/// A rendered page.
#[derive(Debug, Clone)]
pub struct Rendered {
    /// The page title, from the front matter.
    pub title: String,
    /// The HTML fragment of the body.
    pub html: String,
}

/// Why a document could not be rendered. Each variant carries the
/// identifier of the document.
#[derive(Debug, Clone, PartialEq, Eq)]
pub enum RenderError {
    /// No embedded resource belongs to the identifier.
    DocumentNotFound(String),
    /// The document has no metadata block.
    MissingFrontMatter(String),
    /// A metadata block of the document could not be decoded.
    MalformedFrontMatter(String),
}

/// A rendered page as a mathematical value.
pub struct RenderedView {
    pub title: Seq<char>,
    pub html: Seq<char>,
}

/// A render error as a mathematical value.
pub enum RenderErrorView {
    DocumentNotFound(Seq<char>),
    MissingFrontMatter(Seq<char>),
    MalformedFrontMatter(Seq<char>),
}

impl View for FrontMatter {
    type V = Seq<char>;

    /// A front matter is its title.
    open spec fn view(&self) -> Seq<char> {
        self.title@
    }
}

impl View for Rendered {
    type V = RenderedView;

    open spec fn view(&self) -> RenderedView {
        RenderedView { title: self.title@, html: self.html@ }
    }
}

impl View for RenderError {
    type V = RenderErrorView;

    open spec fn view(&self) -> RenderErrorView {
        match *self {
            RenderError::DocumentNotFound(document) => RenderErrorView::DocumentNotFound(
                document@,
            ),
            RenderError::MissingFrontMatter(document) => RenderErrorView::MissingFrontMatter(
                document@,
            ),
            RenderError::MalformedFrontMatter(document) => RenderErrorView::MalformedFrontMatter(
                document@,
            ),
        }
    }
}

impl RenderError {
    /// The identifier of the document that failed.
    pub open spec fn document(&self) -> Seq<char> {
        match *self {
            RenderError::DocumentNotFound(document) => document@,
            RenderError::MissingFrontMatter(document) => document@,
            RenderError::MalformedFrontMatter(document) => document@,
        }
    }

    /// The words that introduce the document's identifier in the message.
    pub open spec fn prefix(&self) -> Seq<char> {
        match *self {
            RenderError::DocumentNotFound(_) => "File not found: "@,
            RenderError::MissingFrontMatter(_) => "Front matter missing: "@,
            RenderError::MalformedFrontMatter(_) => "Front matter malformed: "@,
        }
    }

    /// A message for the user: what went wrong, and with which document.
    pub fn message(&self) -> (text: String)
        ensures
            text@ == self.prefix() + self.document(),
    {
        match self {
            RenderError::DocumentNotFound(document) => String::from_str("File not found: ").concat(
                document.as_str(),
            ),
            RenderError::MissingFrontMatter(document) => String::from_str(
                "Front matter missing: ",
            ).concat(document.as_str()),
            RenderError::MalformedFrontMatter(document) => String::from_str(
                "Front matter malformed: ",
            ).concat(document.as_str()),
        }
    }
}

/// The extensions with which the site's documents are parsed.
pub open spec fn site_dialect() -> Dialect {
    Dialect {
        tables: true,
        footnotes: true,
        heading_attributes: true,
        yaml_metadata_blocks: true,
        gfm: true,
    }
}

/// The extensions with which the site's documents are parsed: tables,
/// footnotes, heading attributes, YAML-style metadata blocks and GitHub's
/// block quote tags.
pub fn dialect() -> (dialect: Dialect)
    ensures
        dialect == site_dialect(),
{
    Dialect {
        tables: true,
        footnotes: true,
        heading_attributes: true,
        yaml_metadata_blocks: true,
        gfm: true,
    }
}

/// The name of the embedded resource that holds a document.
pub open spec fn resource_name(identifier: Seq<char>) -> Seq<char> {
    identifier + ".md"@
}

/// Whether `split` is what the scan makes of `events`: its payloads are the
/// texts met inside metadata blocks, and its HTML is the serialised body.
pub open spec fn splits(split: SplitDocument, events: Seq<Event<'static>>) -> bool {
    &&& texts(split.payloads@) == payloads(tokens_of(events))
    &&& split.html@ == html_of(body_of(events))
}

/// Scans a document's events and serialises the body.
pub fn split_document<'a>(events: Vec<Event<'a>>) -> (split: SplitDocument)
    ensures
        splits(split, events@),
{
    let (payloads, body) = split_events(events);
    let html = render_html(body);
    SplitDocument { payloads, html }
}

/// Parses a document in the site's dialect, scans it and serialises the
/// body.
pub fn split_text(text: &str) -> (split: SplitDocument)
    ensures
        splits(split, markdown_events(text@, site_dialect())),
{
    let dialect = dialect();
    let events = parse(text, &dialect);
    split_document(events)
}

/// The title of decoded front matter, `None` where decoding failed.
pub open spec fn title_of(front_matter: Option<FrontMatter>) -> Option<Seq<char>> {
    match front_matter {
        Some(front_matter) => Some(front_matter@),
        None => None,
    }
}

/// The titles of a document's decoded front matter.
pub open spec fn titles(decoded: Seq<Option<FrontMatter>>) -> Seq<Option<Seq<char>>> {
    decoded.map_values(|front_matter: Option<FrontMatter>| title_of(front_matter))
}

/// The page for a document, given the outcome of decoding each of its
/// payloads in document order. A payload that failed to decode makes the
/// front matter malformed; a document without payloads has none; otherwise
/// the title is that of the last payload.
pub open spec fn assembled(
    document: Seq<char>,
    decoded: Seq<Option<Seq<char>>>,
    html: Seq<char>,
) -> Result<RenderedView, RenderErrorView> {
    if exists|i: int| 0 <= i < decoded.len() && decoded[i] is None {
        Err(RenderErrorView::MalformedFrontMatter(document))
    } else if decoded.len() == 0 {
        Err(RenderErrorView::MissingFrontMatter(document))
    } else {
        Ok(RenderedView { title: decoded.last()->Some_0, html })
    }
}

/// The mathematical value of a render's outcome.
pub open spec fn outcome(result: Result<Rendered, RenderError>) -> Result<
    RenderedView,
    RenderErrorView,
> {
    match result {
        Ok(page) => Ok(page@),
        Err(error) => Err(error@),
    }
}

/// Joins the decoded front matter of a document and its HTML into the page.
/// `decoded` holds, for each payload of the document in order, the front
/// matter that it decoded to, or `None` where it could not be decoded.
pub fn assemble(document: &str, decoded: Vec<Option<FrontMatter>>, html: String) -> (result:
    Result<Rendered, RenderError>)
    ensures
        outcome(result) == assembled(document@, titles(decoded@), html@),
{
    let mut results = decoded;
    let ghost all = results@;
    let mut i: usize = 0;
    while i < results.len()
        invariant
            results@ == all,
            all == decoded@,
            i <= all.len(),
            forall|j: int| 0 <= j < i ==> all[j] is Some,
        decreases all.len() - i,
    {
        if results[i].is_none() {
            assert(titles(all)[i as int] is None);
            return Err(RenderError::MalformedFrontMatter(String::from_str(document)));
        }
        i += 1;
    }
    assert(forall|j: int| 0 <= j < titles(all).len() ==> titles(all)[j] is Some);
    match results.pop() {
        Some(Some(front_matter)) => Ok(Rendered { title: front_matter.title, html }),
        Some(None) => Err(RenderError::MalformedFrontMatter(String::from_str(document))),
        None => Err(RenderError::MissingFrontMatter(String::from_str(document))),
    }
}

/// The events of a document of the table, parsed in the site's dialect.
pub open spec fn document_events(
    table: Map<Seq<char>, Seq<char>>,
    identifier: Seq<char>,
) -> Seq<Event<'static>> {
    markdown_events(table[resource_name(identifier)], site_dialect())
}

/// Whether `front_matter` is something that the decoder returned for a
/// string of the payload's characters.
pub open spec fn decoded_to<F: Fn(&str) -> Option<FrontMatter>>(
    decode: F,
    payload: Seq<char>,
    front_matter: Option<FrontMatter>,
) -> bool {
    exists|text: &str| text@ == payload && #[trigger] call_ensures(decode, (text,), front_matter)
}

/// Whether `decoded` holds, for each payload in order, something that the
/// decoder returned for it.
pub open spec fn decoded_by<F: Fn(&str) -> Option<FrontMatter>>(
    decode: F,
    payloads: Seq<Seq<char>>,
    decoded: Seq<Option<FrontMatter>>,
) -> bool {
    &&& decoded.len() == payloads.len()
    &&& forall|i: int|
        0 <= i < payloads.len() ==> #[trigger] decoded_to(decode, payloads[i], decoded[i])
}

/// What a render may return for a document of the table: the document is
/// not found exactly when the table holds no resource of its name, and any
/// other outcome is assembled from what the decoder returned for the
/// document's payloads and from the HTML of its body.
pub open spec fn renders<F: Fn(&str) -> Option<FrontMatter>>(
    table: Map<Seq<char>, Seq<char>>,
    identifier: Seq<char>,
    decode: F,
    result: Result<RenderedView, RenderErrorView>,
) -> bool {
    if table.contains_key(resource_name(identifier)) {
        exists|decoded: Seq<Option<FrontMatter>>|
            #[trigger] decoded_by(
                decode,
                payloads(tokens_of(document_events(table, identifier))),
                decoded,
            ) && result == assembled(
                identifier,
                titles(decoded),
                html_of(body_of(document_events(table, identifier))),
            )
    } else {
        result == Err::<RenderedView, RenderErrorView>(
            RenderErrorView::DocumentNotFound(identifier),
        )
    }
}

/// Whether a decoder computes `model`: for a payload it returns front matter
/// with the title that `model` gives, or `None` where `model` gives none.
pub open spec fn follows<F: Fn(&str) -> Option<FrontMatter>>(
    decode: F,
    model: spec_fn(Seq<char>) -> Option<Seq<char>>,
) -> bool {
    forall|text: &str, front_matter: Option<FrontMatter>| #[trigger]
        call_ensures(decode, (text,), front_matter) ==> title_of(front_matter) == model(text@)
}

/// The page of a document of the table, for a decoder that is the function
/// `model` of a payload's characters.
pub open spec fn page(
    table: Map<Seq<char>, Seq<char>>,
    identifier: Seq<char>,
    model: spec_fn(Seq<char>) -> Option<Seq<char>>,
) -> Result<RenderedView, RenderErrorView> {
    if table.contains_key(resource_name(identifier)) {
        assembled(
            identifier,
            payloads(tokens_of(document_events(table, identifier))).map_values(model),
            html_of(body_of(document_events(table, identifier))),
        )
    } else {
        Err(RenderErrorView::DocumentNotFound(identifier))
    }
}

/// Hands each payload to the decoder, in document order, and collects what
/// it returns.
pub fn decode_payloads<F: Fn(&str) -> Option<FrontMatter>>(payloads: &Vec<String>, decode: &F) -> (decoded:
    Vec<Option<FrontMatter>>)
    requires
        forall|payload: &str| call_requires(*decode, (payload,)),
    ensures
        decoded_by(*decode, texts(payloads@), decoded@),
{
    let mut decoded: Vec<Option<FrontMatter>> = Vec::new();
    let mut i: usize = 0;
    while i < payloads.len()
        invariant
            i <= payloads@.len(),
            forall|payload: &str| call_requires(*decode, (payload,)),
            decoded_by(*decode, texts(payloads@).take(i as int), decoded@),
        decreases payloads@.len() - i,
    {
        let payload = payloads[i].as_str();
        let front_matter = decode(payload);
        decoded.push(front_matter);
        proof {
            let taken = texts(payloads@).take(i as int + 1);
            assert forall|j: int| 0 <= j < taken.len() implies #[trigger] decoded_to(
                *decode,
                taken[j],
                decoded@[j],
            ) by {
                if j < i {
                    assert(decoded_to(*decode, texts(payloads@).take(i as int)[j], decoded@[j]));
                }
            }
        }
        i += 1;
    }
    assert(texts(payloads@).take(i as int) =~= texts(payloads@));
    decoded
}

/// Renders a document of the table of embedded resources: looks it up under
/// its identifier followed by `.md`, parses and splits its text, has each
/// front-matter payload decoded by `decode`, which returns `None` for a
/// payload that it cannot decode, and assembles the page.
///
/// The document is not found exactly when the table holds no such resource.
/// Otherwise the result is the page assembled from what the decoder
/// returned for the document's payloads and from the HTML of its body.
#[allow(non_snake_case)]
pub fn Markdown<F: Fn(&str) -> Option<FrontMatter>>(
    table: &DocumentTable,
    file_name: &str,
    decode: F,
) -> (result: Result<Rendered, RenderError>)
    requires
        forall|payload: &str| call_requires(decode, (payload,)),
    ensures
        renders(table@, file_name@, decode, outcome(result)),
{
    let name = String::from_str(file_name).concat(".md");
    match table.get(name.as_str()) {
        Some(text) => {
            let split = split_text(text);
            let decoded = decode_payloads(&split.payloads, &decode);
            let ghost witness = decoded@;
            let result = assemble(file_name, decoded, split.html);
            proof {
                assert(decoded_by(
                    decode,
                    payloads(tokens_of(document_events(table@, file_name@))),
                    witness,
                ));
            }
            result
        },
        None => Err(RenderError::DocumentNotFound(String::from_str(file_name))),
    }
}

} // verus!
