//! What holds of every scan and of every assembled page.

use crate::markdown::events::html_of;
use crate::markdown::scan::{
    action_at, action_of, body_of, emitted, inside_after, lemma_scan_next, payloads, picked,
    positions, token_text, tokens_of, Action, TokenView,
};
use crate::markdown::{
    assembled, decoded_by, decoded_to, document_events, follows, page, renders, resource_name,
    title_of, titles, FrontMatter, RenderErrorView, RenderedView,
};
use vstd::prelude::*;

verus! {

/// The action on a token does not depend on the tokens after it.
proof fn lemma_action_of_prefix(tokens: Seq<TokenView>, n: int, i: int)
    requires
        0 <= i < n <= tokens.len(),
    ensures
        action_at(tokens.take(n), i) == action_at(tokens, i),
{
    assert(tokens.take(n).take(i) =~= tokens.take(i));
}

/// The positions of a sequence are those of all its tokens but the last,
/// and the last position where the action on the last token is the one
/// asked for.
proof fn lemma_positions_step(tokens: Seq<TokenView>, action: Action)
    requires
        tokens.len() > 0,
    ensures
        action_at(tokens, tokens.len() - 1) == action_of(
            inside_after(tokens.drop_last()),
            tokens.last(),
        ),
        positions(tokens, action) == if action_at(tokens, tokens.len() - 1) == action {
            positions(tokens.drop_last(), action).push(tokens.len() - 1)
        } else {
            positions(tokens.drop_last(), action)
        },
{
    assert(Seq::new(tokens.len(), |i: int| i).drop_last() =~= Seq::new(
        tokens.drop_last().len(),
        |i: int| i,
    ));
}

/// The positions on which the scan takes an action are exactly the
/// positions of the tokens with that action, each once and in rising order.
pub proof fn lemma_positions(tokens: Seq<TokenView>, action: Action)
    ensures
        forall|k: int|
            0 <= k < positions(tokens, action).len() ==> 0 <= #[trigger] positions(
                tokens,
                action,
            )[k] < tokens.len() && action_at(tokens, positions(tokens, action)[k]) == action,
        forall|j: int, k: int|
            0 <= j < k < positions(tokens, action).len() ==> positions(tokens, action)[j]
                < positions(tokens, action)[k],
        forall|i: int|
            0 <= i < tokens.len() && action_at(tokens, i) == action ==> positions(
                tokens,
                action,
            ).contains(i),
    decreases tokens.len(),
{
    if tokens.len() > 0 {
        let n = tokens.len() as int;
        let shorter = tokens.drop_last();
        let before = positions(shorter, action);
        let all = positions(tokens, action);
        lemma_positions(shorter, action);
        lemma_positions_step(tokens, action);
        assert forall|k: int| 0 <= k < all.len() implies 0 <= #[trigger] all[k] < n && action_at(
            tokens,
            all[k],
        ) == action by {
            if k < before.len() {
                lemma_action_of_prefix(tokens, n - 1, before[k]);
            }
        }
        assert forall|i: int| 0 <= i < n && action_at(tokens, i) == action implies all.contains(
            i,
        ) by {
            if i < n - 1 {
                lemma_action_of_prefix(tokens, n - 1, i);
                let k = choose|k: int| 0 <= k < before.len() && before[k] == i;
                assert(all[k] == i);
            } else {
                assert(all[all.len() - 1] == i);
            }
        }
    }
}

/// What the scan picks from a sequence of items are the items at the
/// positions of the tokens with the action asked for, in document order.
pub proof fn lemma_picked_by_position<E>(items: Seq<E>, tokens: Seq<TokenView>, action: Action)
    requires
        items.len() == tokens.len(),
    ensures
        picked(items, tokens, action) == positions(tokens, action).map_values(|i: int| items[i]),
    decreases tokens.len(),
{
    if tokens.len() > 0 {
        let shorter = tokens.drop_last();
        lemma_picked_by_position(items.drop_last(), shorter, action);
        lemma_positions(shorter, action);
        lemma_positions_step(tokens, action);
        let before = positions(shorter, action);
        assert(before.map_values(|i: int| items.drop_last()[i]) =~= before.map_values(
            |i: int| items[i],
        ));
        assert(picked(items, tokens, action) =~= positions(tokens, action).map_values(
            |i: int| items[i],
        ));
    } else {
        assert(picked(items, tokens, action) =~= positions(tokens, action).map_values(
            |i: int| items[i],
        ));
    }
}

/// Nothing of the front matter reaches the HTML writer: every item of the
/// body belongs to a token that is no boundary of a metadata block and no
/// text inside one, and the body holds these items in document order.
pub proof fn lemma_body_holds_no_front_matter<E>(items: Seq<E>, tokens: Seq<TokenView>)
    requires
        items.len() == tokens.len(),
    ensures
        emitted(items, tokens) == positions(tokens, Action::Emit).map_values(|i: int| items[i]),
        forall|k: int|
            0 <= k < positions(tokens, Action::Emit).len() ==> {
                let i = #[trigger] positions(tokens, Action::Emit)[k];
                &&& 0 <= i < tokens.len()
                &&& tokens[i] !is MetadataStart
                &&& tokens[i] !is MetadataEnd
                &&& !(tokens[i] is Text && inside_after(tokens.take(i)))
            },
{
    lemma_picked_by_position(items, tokens, Action::Emit);
    lemma_positions(tokens, Action::Emit);
}

/// The body does not depend on what the metadata blocks say: two documents
/// that differ only in the text of payloads have the same body.
pub proof fn lemma_body_ignores_payload_text<E>(
    items: Seq<E>,
    tokens: Seq<TokenView>,
    other_items: Seq<E>,
    other_tokens: Seq<TokenView>,
)
    requires
        items.len() == tokens.len(),
        other_items.len() == tokens.len(),
        other_tokens.len() == tokens.len(),
        forall|i: int|
            0 <= i < tokens.len() ==> (action_at(tokens, i) == Action::Decode
                && #[trigger] other_tokens[i] is Text) || (tokens[i] == other_tokens[i] && items[i]
                == other_items[i]),
    ensures
        inside_after(tokens) == inside_after(other_tokens),
        emitted(items, tokens) == emitted(other_items, other_tokens),
    decreases tokens.len(),
{
    if tokens.len() > 0 {
        let n = tokens.len() as int;
        assert forall|i: int| 0 <= i < n - 1 implies (action_at(tokens.drop_last(), i)
            == Action::Decode && #[trigger] other_tokens.drop_last()[i] is Text) || (
        tokens.drop_last()[i] == other_tokens.drop_last()[i] && items.drop_last()[i]
            == other_items.drop_last()[i]) by {
            lemma_action_of_prefix(tokens, n - 1, i);
        }
        lemma_body_ignores_payload_text(
            items.drop_last(),
            tokens.drop_last(),
            other_items.drop_last(),
            other_tokens.drop_last(),
        );
    }
}

/// Every payload is the text of a text token inside a metadata block, and
/// the payloads stand in document order.
pub proof fn lemma_payloads_are_block_text(tokens: Seq<TokenView>)
    ensures
        payloads(tokens) == positions(tokens, Action::Decode).map_values(
            |i: int| token_text(tokens[i]),
        ),
        forall|k: int|
            0 <= k < positions(tokens, Action::Decode).len() ==> {
                let i = #[trigger] positions(tokens, Action::Decode)[k];
                &&& 0 <= i < tokens.len()
                &&& tokens[i] is Text
                &&& inside_after(tokens.take(i))
            },
{
    let texts = tokens.map_values(|token: TokenView| token_text(token));
    lemma_picked_by_position(texts, tokens, Action::Decode);
    lemma_positions(tokens, Action::Decode);
    assert(positions(tokens, Action::Decode).map_values(|i: int| texts[i]) =~= positions(
        tokens,
        Action::Decode,
    ).map_values(|i: int| token_text(tokens[i])));
}

/// The last payload of a document is the text of its last metadata block:
/// where the scan decodes the token at `i` and none after it, the payloads
/// end with that token's text.
pub proof fn lemma_last_payload(tokens: Seq<TokenView>, i: int)
    requires
        0 <= i < tokens.len(),
        action_at(tokens, i) == Action::Decode,
        forall|j: int| i < j < tokens.len() ==> action_at(tokens, j) != Action::Decode,
    ensures
        payloads(tokens).len() > 0,
        payloads(tokens).last() == token_text(tokens[i]),
{
    lemma_payloads_are_block_text(tokens);
    lemma_positions(tokens, Action::Decode);
    let found = positions(tokens, Action::Decode);
    assert(found.contains(i));
}

/// A document without metadata-block boundaries is all body: every item is
/// emitted and there is no payload.
pub proof fn lemma_without_metadata<E>(items: Seq<E>, tokens: Seq<TokenView>)
    requires
        items.len() == tokens.len(),
        forall|i: int|
            0 <= i < tokens.len() ==> tokens[i] !is MetadataStart && tokens[i] !is MetadataEnd,
    ensures
        !inside_after(tokens),
        emitted(items, tokens) == items,
        payloads(tokens) == Seq::<Seq<char>>::empty(),
    decreases tokens.len(),
{
    if tokens.len() > 0 {
        lemma_without_metadata(items.drop_last(), tokens.drop_last());
        let texts = tokens.map_values(|token: TokenView| token_text(token));
        assert(texts.drop_last() =~= tokens.drop_last().map_values(
            |token: TokenView| token_text(token),
        ));
    }
}

/// The usual document: a metadata block with one text, and after it no
/// boundary of a metadata block. Its only payload is that text, and its
/// body is everything after the block.
pub proof fn lemma_leading_block<E>(items: Seq<E>, tokens: Seq<TokenView>, payload: Seq<char>)
    requires
        items.len() == tokens.len(),
        tokens.len() >= 3,
        tokens[0] is MetadataStart,
        tokens[1] == TokenView::Text(payload),
        tokens[2] is MetadataEnd,
        forall|i: int|
            3 <= i < tokens.len() ==> tokens[i] !is MetadataStart && tokens[i] !is MetadataEnd,
    ensures
        !inside_after(tokens),
        payloads(tokens) == seq![payload],
        emitted(items, tokens) == items.skip(3),
    decreases tokens.len(),
{
    let n = tokens.len() as int;
    if n == 3 {
        let none = Seq::<TokenView>::empty();
        let nothing = Seq::<E>::empty();
        let one = none.push(tokens[0]);
        let two = one.push(tokens[1]);
        lemma_scan_next(nothing, none, items[0], tokens[0], Action::Emit);
        lemma_scan_next(nothing.push(items[0]), one, items[1], tokens[1], Action::Emit);
        lemma_scan_next(
            nothing.push(items[0]).push(items[1]),
            two,
            items[2],
            tokens[2],
            Action::Emit,
        );
        assert(two.push(tokens[2]) =~= tokens);
        assert(nothing.push(items[0]).push(items[1]).push(items[2]) =~= items);
    } else {
        lemma_leading_block(items.drop_last(), tokens.drop_last(), payload);
        lemma_scan_next(
            items.drop_last(),
            tokens.drop_last(),
            items.last(),
            tokens.last(),
            Action::Emit,
        );
        assert(tokens.drop_last().push(tokens.last()) =~= tokens);
    }
}

/// Where every payload of a document was decoded, the page's title is the
/// title that the last payload holds, and the page's HTML is the one given.
pub proof fn lemma_last_title_wins(
    document: Seq<char>,
    decoded: Seq<Option<Seq<char>>>,
    html: Seq<char>,
)
    requires
        decoded.len() > 0,
        forall|i: int| 0 <= i < decoded.len() ==> decoded[i] is Some,
    ensures
        assembled(document, decoded, html) == Ok::<RenderedView, RenderErrorView>(
            RenderedView { title: decoded.last()->Some_0, html },
        ),
{
}

/// A page is assembled only from front matter that was all decoded: one
/// payload that failed is a malformed front matter, whatever the others
/// hold, and no payload at all is a missing one.
pub proof fn lemma_failures(document: Seq<char>, decoded: Seq<Option<Seq<char>>>, html: Seq<char>)
    ensures
        (exists|i: int| 0 <= i < decoded.len() && decoded[i] is None) ==> assembled(
            document,
            decoded,
            html,
        ) == Err::<RenderedView, RenderErrorView>(RenderErrorView::MalformedFrontMatter(document)),
        decoded.len() == 0 ==> assembled(document, decoded, html) == Err::<
            RenderedView,
            RenderErrorView,
        >(RenderErrorView::MissingFrontMatter(document)),
        assembled(document, decoded, html) is Ok <==> decoded.len() > 0 && forall|i: int|
            0 <= i < decoded.len() ==> decoded[i] is Some,
{
}

/// What a decoder that computes `model` returned for a document's payloads
/// is `model` of each payload.
pub proof fn lemma_decoded_by_function<F: Fn(&str) -> Option<FrontMatter>>(
    decode: F,
    model: spec_fn(Seq<char>) -> Option<Seq<char>>,
    payloads: Seq<Seq<char>>,
    decoded: Seq<Option<FrontMatter>>,
)
    requires
        follows(decode, model),
        decoded_by(decode, payloads, decoded),
    ensures
        titles(decoded) == payloads.map_values(model),
{
    assert forall|i: int| 0 <= i < payloads.len() implies titles(decoded)[i] == model(
        payloads[i],
    ) by {
        assert(decoded_to(decode, payloads[i], decoded[i]));
    }
}

/// A render with a decoder that computes `model` is a function of the
/// table, the identifier and `model`: it returns the document's page.
pub proof fn lemma_render_is_page<F: Fn(&str) -> Option<FrontMatter>>(
    table: Map<Seq<char>, Seq<char>>,
    identifier: Seq<char>,
    decode: F,
    model: spec_fn(Seq<char>) -> Option<Seq<char>>,
    result: Result<RenderedView, RenderErrorView>,
)
    requires
        follows(decode, model),
        renders(table, identifier, decode, result),
    ensures
        result == page(table, identifier, model),
{
    if table.contains_key(resource_name(identifier)) {
        let found = payloads(tokens_of(document_events(table, identifier)));
        let html = html_of(body_of(document_events(table, identifier)));
        let decoded = choose|decoded: Seq<Option<FrontMatter>>| #[trigger]
            decoded_by(decode, found, decoded) && result == assembled(
                identifier,
                titles(decoded),
                html,
            );
        lemma_decoded_by_function(decode, model, found, decoded);
    }
}

/// The page of a document whose payloads all decode carries the title of
/// the last payload and the HTML of the body, whatever titles the earlier
/// payloads hold.
pub proof fn lemma_page_title(
    table: Map<Seq<char>, Seq<char>>,
    identifier: Seq<char>,
    model: spec_fn(Seq<char>) -> Option<Seq<char>>,
    title: Seq<char>,
)
    requires
        table.contains_key(resource_name(identifier)),
        payloads(tokens_of(document_events(table, identifier))).len() > 0,
        forall|i: int|
            0 <= i < payloads(tokens_of(document_events(table, identifier))).len() ==> model(
                #[trigger] payloads(tokens_of(document_events(table, identifier)))[i],
            ) is Some,
        model(payloads(tokens_of(document_events(table, identifier))).last()) == Some(title),
    ensures
        page(table, identifier, model) == Ok::<RenderedView, RenderErrorView>(
            RenderedView { title, html: html_of(body_of(document_events(table, identifier))) },
        ),
{
    let found = payloads(tokens_of(document_events(table, identifier)));
    lemma_last_title_wins(
        identifier,
        found.map_values(model),
        html_of(body_of(document_events(table, identifier))),
    );
}

/// When a document has no page: an identifier without a resource is not
/// found; a document without payloads misses its front matter; a document
/// with a payload that does not decode has a malformed one. In every other
/// case there is a page.
pub proof fn lemma_page_failures(
    table: Map<Seq<char>, Seq<char>>,
    identifier: Seq<char>,
    model: spec_fn(Seq<char>) -> Option<Seq<char>>,
)
    ensures
        ({
            let found = payloads(tokens_of(document_events(table, identifier)));
            let stored = table.contains_key(resource_name(identifier));
            let failed = exists|i: int| 0 <= i < found.len() && model(#[trigger] found[i]) is None;
            &&& !stored <==> page(table, identifier, model) == Err::<
                RenderedView,
                RenderErrorView,
            >(RenderErrorView::DocumentNotFound(identifier))
            &&& stored && failed <==> page(table, identifier, model) == Err::<
                RenderedView,
                RenderErrorView,
            >(RenderErrorView::MalformedFrontMatter(identifier))
            &&& stored && !failed && found.len() == 0 <==> page(table, identifier, model) == Err::<
                RenderedView,
                RenderErrorView,
            >(RenderErrorView::MissingFrontMatter(identifier))
            &&& stored && !failed && found.len() > 0 <==> page(table, identifier, model) is Ok
        }),
{
    let found = payloads(tokens_of(document_events(table, identifier)));
    let decoded = found.map_values(model);
    if exists|i: int| 0 <= i < found.len() && model(#[trigger] found[i]) is None {
        let i = choose|i: int| 0 <= i < found.len() && model(#[trigger] found[i]) is None;
        assert(decoded[i] is None);
    }
}

} // verus!
