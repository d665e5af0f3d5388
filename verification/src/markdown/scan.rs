//! The single pass over a document's events that parts front matter from
//! body content.

use crate::markdown::events::{classify, token_of};
use pulldown_cmark::Event;
use vstd::prelude::*;

verus! {

/// What the scan reads of an event, as a mathematical value.
pub enum TokenView {
    /// The start of a YAML-style metadata block.
    MetadataStart,
    /// The end of a YAML-style metadata block.
    MetadataEnd,
    /// A run of text.
    Text(Seq<char>),
    /// Any other event.
    Other,
}

/// What the scan reads of an event.
#[derive(Clone, Copy, Debug)]
pub enum Token<'a> {
    /// The start of a YAML-style metadata block.
    MetadataStart,
    /// The end of a YAML-style metadata block.
    MetadataEnd,
    /// A run of text.
    Text(&'a str),
    /// Any other event.
    Other,
}

impl<'a> View for Token<'a> {
    type V = TokenView;

    open spec fn view(&self) -> TokenView {
        match *self {
            Token::MetadataStart => TokenView::MetadataStart,
            Token::MetadataEnd => TokenView::MetadataEnd,
            Token::Text(text) => TokenView::Text(text@),
            Token::Other => TokenView::Other,
        }
    }
}

/// What the scan does with one token.
#[derive(Clone, Copy, Debug, PartialEq, Eq, Structural)]
pub enum Action {
    /// The token is body content and goes to the HTML writer.
    Emit,
    /// The token is a metadata-block boundary and is dropped.
    Skip,
    /// The token is the text of a metadata block: it is dropped from the
    /// body and its text is a front-matter payload.
    Decode,
}

/// The action for a token, given whether the scan is inside a metadata
/// block when it meets the token.
pub open spec fn action_of(inside: bool, token: TokenView) -> Action {
    match token {
        TokenView::MetadataStart => Action::Skip,
        TokenView::MetadataEnd => Action::Skip,
        TokenView::Text(_) => if inside {
            Action::Decode
        } else {
            Action::Emit
        },
        TokenView::Other => Action::Emit,
    }
}

/// Whether the scan is inside a metadata block after a token.
pub open spec fn next_inside(inside: bool, token: TokenView) -> bool {
    match token {
        TokenView::MetadataStart => true,
        TokenView::MetadataEnd => false,
        _ => inside,
    }
}

/// Whether the scan is inside a metadata block after a sequence of tokens,
/// starting outside.
pub open spec fn inside_after(tokens: Seq<TokenView>) -> bool
    decreases tokens.len(),
{
    if tokens.len() == 0 {
        false
    } else {
        next_inside(inside_after(tokens.drop_last()), tokens.last())
    }
}

/// The action that the scan takes on the token at position `i`.
pub open spec fn action_at(tokens: Seq<TokenView>, i: int) -> Action
    recommends
        0 <= i < tokens.len(),
{
    action_of(inside_after(tokens.take(i)), tokens[i])
}

/// The items that go with the tokens on which the scan takes `action`, in
/// order. `items[i]` is the item that belongs to `tokens[i]`.
pub open spec fn picked<E>(items: Seq<E>, tokens: Seq<TokenView>, action: Action) -> Seq<E>
    recommends
        items.len() == tokens.len(),
    decreases tokens.len(),
{
    if tokens.len() == 0 || items.len() == 0 {
        Seq::empty()
    } else {
        let before = picked(items.drop_last(), tokens.drop_last(), action);
        if action_of(inside_after(tokens.drop_last()), tokens.last()) == action {
            before.push(items.last())
        } else {
            before
        }
    }
}

/// The positions of the tokens on which the scan takes `action`, in order.
pub open spec fn positions(tokens: Seq<TokenView>, action: Action) -> Seq<int> {
    picked(Seq::new(tokens.len(), |i: int| i), tokens, action)
}

/// The items that go with the emitted tokens, in order.
pub open spec fn emitted<E>(items: Seq<E>, tokens: Seq<TokenView>) -> Seq<E>
    recommends
        items.len() == tokens.len(),
{
    picked(items, tokens, Action::Emit)
}

/// The text of a text token, and no text for any other.
pub open spec fn token_text(token: TokenView) -> Seq<char> {
    match token {
        TokenView::Text(text) => text,
        _ => Seq::empty(),
    }
}

/// The front-matter payloads of a token sequence, in order: the text of each
/// token that the scan decodes.
pub open spec fn payloads(tokens: Seq<TokenView>) -> Seq<Seq<char>> {
    picked(tokens.map_values(|token: TokenView| token_text(token)), tokens, Action::Decode)
}

/// The tokens of a sequence of events.
pub open spec fn tokens_of(events: Seq<Event<'static>>) -> Seq<TokenView> {
    events.map_values(|event: Event<'static>| token_of(event))
}

/// The body of a sequence of events: the events that the scan emits.
pub open spec fn body_of(events: Seq<Event<'static>>) -> Seq<Event<'static>> {
    emitted(events, tokens_of(events))
}

/// One step of the scan: the state after `token` and what to do with it.
pub fn step(inside: bool, token: &Token) -> (next: (bool, Action))
    ensures
        next.0 == next_inside(inside, token@),
        next.1 == action_of(inside, token@),
{
    match token {
        Token::MetadataStart => (true, Action::Skip),
        Token::MetadataEnd => (false, Action::Skip),
        Token::Text(_) => if inside {
            (inside, Action::Decode)
        } else {
            (inside, Action::Emit)
        },
        Token::Other => (inside, Action::Emit),
    }
}

/// The character sequences of a sequence of strings.
pub open spec fn texts(strings: Seq<String>) -> Seq<Seq<char>> {
    strings.map_values(|s: String| s@)
}

/// The scan reads its tokens one after the other: what it has picked after
/// one more token is what it had picked before, and the token's item where
/// the action on the token is the one asked for.
pub proof fn lemma_scan_next<E>(
    items: Seq<E>,
    tokens: Seq<TokenView>,
    item: E,
    token: TokenView,
    action: Action,
)
    requires
        items.len() == tokens.len(),
    ensures
        inside_after(tokens.push(token)) == next_inside(inside_after(tokens), token),
        picked(items.push(item), tokens.push(token), action) == if action_of(
            inside_after(tokens),
            token,
        ) == action {
            picked(items, tokens, action).push(item)
        } else {
            picked(items, tokens, action)
        },
        payloads(tokens.push(token)) == if action_of(inside_after(tokens), token)
            == Action::Decode {
            payloads(tokens).push(token_text(token))
        } else {
            payloads(tokens)
        },
{
    let text = |token: TokenView| token_text(token);
    assert(tokens.push(token).drop_last() =~= tokens);
    assert(items.push(item).drop_last() =~= items);
    assert(tokens.push(token).map_values(text).drop_last() =~= tokens.map_values(text));
}

/// Runs the scan over a document's events. Returns the front-matter
/// payloads, in the order in which they were met, and the events of the
/// body, which are all the others but the metadata-block boundaries.
pub fn split_events<'a>(events: Vec<Event<'a>>) -> (parts: (Vec<String>, Vec<Event<'a>>))
    ensures
        texts(parts.0@) == payloads(tokens_of(events@)),
        parts.1@ == body_of(events@),
{
    let ghost all = events@;
    let ghost tokens = tokens_of(all);
    let mut found: Vec<String> = Vec::new();
    let mut body: Vec<Event<'a>> = Vec::new();
    let mut inside = false;
    for event in it: events
        invariant
            it.seq() == all,
            tokens == tokens_of(all),
            inside == inside_after(tokens.take(it.index())),
            texts(found@) == payloads(tokens.take(it.index())),
            body@ == emitted(all.take(it.index()), tokens.take(it.index())),
    {
        let ghost i = it.index();
        let token = classify(&event);
        let (next, action) = step(inside, &token);
        proof {
            assert(tokens.take(i + 1) =~= tokens.take(i).push(tokens[i]));
            assert(all.take(i + 1) =~= all.take(i).push(all[i]));
            lemma_scan_next(all.take(i), tokens.take(i), all[i], tokens[i], Action::Emit);
        }
        match action {
            Action::Emit => {
                body.push(event);
            },
            Action::Skip => {},
            Action::Decode => {
                if let Token::Text(text) = token {
                    found.push(text.to_owned());
                }
            },
        }
        inside = next;
    }
    proof {
        assert(tokens.take(tokens.len() as int) =~= tokens);
        assert(all.take(all.len() as int) =~= all);
    }
    (found, body)
}

} // verus!
