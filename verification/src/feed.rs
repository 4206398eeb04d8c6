//! The feed document and the rule that drops premium items from it.
//!
//! Reading and writing the feed format is the `rss` crate's work. Its
//! documents and items pass through here as opaque values; what this module
//! needs to know of them is named below and stated on the functions that
//! call into the crate.

use vstd::prelude::*;
use vstd::utf8::{decode_utf8, encode_utf8, valid_utf8};
use rss::{Channel, Item};
use std::string::FromUtf8Error;
use crate::errors::{outcome_view, AppError, Failure};
use crate::seqs::{lemma_filter_empty, lemma_filter_push};
use crate::text::{contains, occurs_in, text_of};

verus! {

/// `rss::Channel`, a feed document: opaque here.
#[verifier::external_type_specification]
#[verifier::external_body]
pub struct ExChannel(rss::Channel);

/// `rss::Item`, one entry of a feed: opaque here.
#[verifier::external_type_specification]
#[verifier::external_body]
pub struct ExItem(rss::Item);

/// `rss::Error`, why a feed could not be read or written: opaque here.
#[verifier::external_type_specification]
#[verifier::external_body]
pub struct ExFeedError(rss::Error);

/// `std::string::FromUtf8Error`, why bytes are not text: opaque here.
#[verifier::external_type_specification]
#[verifier::external_body]
pub struct ExFromUtf8Error(std::string::FromUtf8Error);

/// The content field of a feed item, where it has one.
pub uninterp spec fn content_of(item: Item) -> Option<Seq<char>>;

/// The items of a feed document, in document order.
pub uninterp spec fn items_of(channel: Channel) -> Seq<Item>;

/// The document `channel` with its item list replaced by `items`.
pub uninterp spec fn with_items(channel: Channel, items: Seq<Item>) -> Channel;

/// What reading `bytes` as a feed gives.
pub uninterp spec fn parsed_feed(bytes: Seq<u8>) -> Result<Channel, rss::Error>;

/// What writing `channel` out gives.
pub uninterp spec fn written_feed(channel: Channel) -> Result<Seq<u8>, rss::Error>;

/// The message a feed error displays.
pub uninterp spec fn error_text(error: rss::Error) -> Seq<char>;

/// The error that converting `bytes` to text gives where they are not UTF-8.
pub uninterp spec fn utf8_failure(bytes: Seq<u8>) -> FromUtf8Error;

/// The message a conversion error displays.
pub uninterp spec fn utf8_error_text(error: FromUtf8Error) -> Seq<char>;

/// `rss::Item::content`: the item's content field, borrowed.
#[verifier::external_body]
fn item_content(item: &Item) -> (content: Option<&str>)
    ensures
        text_of(content) == content_of(*item),
{
    item.content()
}

/// `rss::Channel::read_from` on a byte slice: the document that the bytes
/// hold, or the reader's error. The outcome depends on the bytes alone.
#[verifier::external_body]
fn read_channel(bytes: &[u8]) -> (parsed: Result<Channel, rss::Error>)
    ensures
        parsed == parsed_feed(bytes@),
{
    Channel::read_from(bytes)
}

/// `rss::Channel::items`, copied out: the document's items in document
/// order.
#[verifier::external_body]
fn channel_items(channel: &Channel) -> (items: Vec<Item>)
    ensures
        items@ == items_of(*channel),
{
    channel.items().to_vec()
}

/// `rss::Channel::set_items`: replaces the item list and leaves the rest of
/// the document as it was. Afterwards the document's items are the ones
/// given.
#[verifier::external_body]
fn set_channel_items(channel: &mut Channel, items: Vec<Item>)
    ensures
        *final(channel) == with_items(*old(channel), items@),
        items_of(*final(channel)) == items@,
{
    channel.set_items(items)
}

/// `rss::Channel::write_to` into a fresh buffer: the bytes of the document,
/// or the writer's error. The outcome depends on the document alone.
#[verifier::external_body]
fn write_channel(channel: &Channel) -> (written: Result<Vec<u8>, rss::Error>)
    ensures
        match written {
            Ok(bytes) => written_feed(*channel) == Ok::<Seq<u8>, rss::Error>(bytes@),
            Err(error) => written_feed(*channel) == Err::<Seq<u8>, rss::Error>(error),
        },
{
    channel.write_to(Vec::new())
}

/// `rss::Error`'s `Display`: the error's message.
#[verifier::external_body]
fn describe_error(error: &rss::Error) -> (text: String)
    ensures
        text@ == error_text(*error),
{
    error.to_string()
}

/// `String::from_utf8`: the text that the bytes encode, exactly when they
/// are well-formed UTF-8.
#[verifier::external_body]
fn string_from_utf8(bytes: Vec<u8>) -> (text: Result<String, FromUtf8Error>)
    ensures
        match text {
            Ok(decoded) => valid_utf8(bytes@) && decoded@ == decode_utf8(bytes@),
            Err(error) => !valid_utf8(bytes@) && error == utf8_failure(bytes@),
        },
{
    String::from_utf8(bytes)
}

/// `FromUtf8Error`'s `Display`: the error's message.
#[verifier::external_body]
fn describe_utf8_error(error: &FromUtf8Error) -> (text: String)
    ensures
        text@ == utf8_error_text(*error),
{
    error.to_string()
}

/// The marker that a truncated post ends its content with.
pub open spec fn teaser_marker() -> Seq<char> {
    "Read more"@
}

/// A content field marks its item as premium when the marker occurs in it.
/// The match is exact: case matters, and nothing is trimmed or normalised.
pub open spec fn marks_premium(content: Option<Seq<char>>) -> bool {
    content matches Some(text) && occurs_in(teaser_marker(), text)
}

/// An item is premium when it has a content field and that field holds the
/// marker. An item without a content field is never premium.
pub open spec fn is_premium(item: Item) -> bool {
    marks_premium(content_of(item))
}

/// The items of `items` that are not premium, in their order.
pub open spec fn retained(items: Seq<Item>) -> Seq<Item> {
    items.filter(|item: Item| !is_premium(item))
}

/// Tells whether an item with this content field stays in the feed.
pub fn keeps_content(content: Option<&str>) -> (keep: bool)
    ensures
        keep == !marks_premium(text_of(content)),
{
    match content {
        Some(text) => !contains(text, "Read more"),
        None => true,
    }
}

/// Drops the premium items and keeps all others, untouched and in their
/// order.
pub fn filter_items(items: Vec<Item>) -> (kept: Vec<Item>)
    ensures
        kept@ == retained(items@),
{
    let ghost all = items@;
    let mut kept: Vec<Item> = Vec::new();
    proof {
        assert(all.take(0) =~= Seq::<Item>::empty());
        lemma_filter_empty(|item: Item| !is_premium(item));
    }
    for item in it: items
        invariant
            it.seq() == all,
            kept@ == retained(all.take(it.index())),
    {
        proof {
            let seen = all.take(it.index());
            assert(all.take(it.index() + 1) =~= seen.push(item));
            lemma_retained_push(seen, item);
        }
        if keeps_content(item_content(&item)) {
            kept.push(item);
        }
    }
    proof {
        assert(all.take(all.len() as int) =~= all);
    }
    kept
}

/// The document `channel` without its premium items.
pub open spec fn filtered(channel: Channel) -> Channel {
    with_items(channel, retained(items_of(channel)))
}

/// Replaces the document's item list by its items that are not premium.
/// Everything else in the document stays as it was.
pub fn filter_channel(channel: &mut Channel)
    ensures
        *final(channel) == filtered(*old(channel)),
        items_of(*final(channel)) == retained(items_of(*old(channel))),
{
    let items = channel_items(channel);
    let kept = filter_items(items);
    set_channel_items(channel, kept);
}

/// What parsing a fetched body gives: the document, or the failure that
/// reports why it is not one.
pub open spec fn parsed(content: Seq<char>) -> Result<Channel, Failure> {
    match parsed_feed(encode_utf8(content)) {
        Ok(channel) => Ok(channel),
        Err(error) => Err(Failure::Parse(error_text(error))),
    }
}

/// Reads a fetched body as a feed document.
pub fn parse_feed(content: &str) -> (outcome: Result<Channel, AppError>)
    ensures
        match outcome {
            Ok(channel) => parsed(content@) == Ok::<Channel, Failure>(channel),
            Err(error) => parsed(content@) == Err::<Channel, Failure>(error@),
        },
{
    match read_channel(content.as_bytes()) {
        Ok(channel) => Ok(channel),
        Err(error) => Err(AppError::ParseError(describe_error(&error))),
    }
}

/// The text that written bytes make up, or the failure that reports why
/// they make up none.
pub open spec fn decoded(bytes: Seq<u8>) -> Result<Seq<char>, Failure> {
    if valid_utf8(bytes) {
        Ok(decode_utf8(bytes))
    } else {
        Err(Failure::Build(utf8_error_text(utf8_failure(bytes))))
    }
}

/// What writing a document gives: its text, or the failure that reports why
/// it could not be written.
pub open spec fn rendered(channel: Channel) -> Result<Seq<char>, Failure> {
    match written_feed(channel) {
        Ok(bytes) => decoded(bytes),
        Err(error) => Err(Failure::Build(error_text(error))),
    }
}

/// Turns the bytes of a written document into text.
pub fn decode_feed(bytes: Vec<u8>) -> (outcome: Result<String, AppError>)
    ensures
        outcome_view(outcome) == decoded(bytes@),
{
    match string_from_utf8(bytes) {
        Ok(text) => Ok(text),
        Err(error) => Err(AppError::BuildError(describe_utf8_error(&error))),
    }
}

/// Writes a document out as text, in the format it was read from.
pub fn render_feed(channel: &Channel) -> (outcome: Result<String, AppError>)
    ensures
        outcome_view(outcome) == rendered(*channel),
{
    match write_channel(channel) {
        Ok(bytes) => decode_feed(bytes),
        Err(error) => Err(AppError::BuildError(describe_error(&error))),
    }
}

/// Appending one item to a feed appends it to the retained items exactly
/// when it is not premium.
pub proof fn lemma_retained_push(items: Seq<Item>, item: Item)
    ensures
        retained(items.push(item)) == if is_premium(item) {
            retained(items)
        } else {
            retained(items).push(item)
        },
{
    lemma_filter_push(items, item, |item: Item| !is_premium(item));
}

/// Filtering selects: the retained items are the items at the positions
/// that do not hold a premium item, taken in rising order. So the order of
/// the items that stay is the order they had, each of them is an item of
/// the input as it was, and none is made up.
///
/// Returns those positions.
pub proof fn lemma_retained_is_selection(items: Seq<Item>) -> (positions: Seq<int>)
    ensures
        positions.len() == retained(items).len(),
        forall|k: int|
            0 <= k < positions.len() ==> 0 <= #[trigger] positions[k] < items.len()
                && retained(items)[k] == items[positions[k]],
        forall|j: int, k: int|
            0 <= j < k < positions.len() ==> #[trigger] positions[j] < #[trigger] positions[k],
        forall|at: int|
            0 <= at < items.len() ==> (positions.contains(at) <==> !is_premium(
                #[trigger] items[at],
            )),
    decreases items.len(),
{
    if items.len() == 0 {
        assert(items =~= Seq::<Item>::empty());
        lemma_filter_empty(|item: Item| !is_premium(item));
        Seq::empty()
    } else {
        let front = items.drop_last();
        let last = items.len() - 1;
        let before = lemma_retained_is_selection(front);
        lemma_retained_push(front, items.last());
        assert(items =~= front.push(items.last()));
        if is_premium(items.last()) {
            assert forall|at: int| 0 <= at < items.len() implies (before.contains(at)
                <==> !is_premium(#[trigger] items[at])) by {
                if at < last {
                    assert(items[at] == front[at]);
                } else if before.contains(at) {
                    let k = choose|k: int| 0 <= k < before.len() && before[k] == at;
                    assert(before[k] < front.len());
                }
            }
            before
        } else {
            let positions = before.push(last);
            assert forall|at: int| 0 <= at < items.len() implies (positions.contains(at)
                <==> !is_premium(#[trigger] items[at])) by {
                if at < last {
                    assert(items[at] == front[at]);
                    if before.contains(at) {
                        let k = choose|k: int| 0 <= k < before.len() && before[k] == at;
                        assert(positions[k] == at);
                    }
                    if positions.contains(at) {
                        let k = choose|k: int| 0 <= k < positions.len() && positions[k] == at;
                        assert(before[k] == at);
                    }
                } else {
                    assert(positions[positions.len() - 1] == at);
                }
            }
            positions
        }
    }
}

/// An item that is not premium is retained, wherever it stands.
pub proof fn lemma_plain_item_is_retained(items: Seq<Item>, at: int)
    requires
        0 <= at < items.len(),
        !is_premium(items[at]),
    ensures
        retained(items).contains(items[at]),
{
    let positions = lemma_retained_is_selection(items);
    assert(positions.contains(at));
    let k = choose|k: int| 0 <= k < positions.len() && positions[k] == at;
    assert(retained(items)[k] == items[at]);
}

/// An item without a content field is retained, wherever it stands.
pub proof fn lemma_item_without_content_is_retained(items: Seq<Item>, at: int)
    requires
        0 <= at < items.len(),
        content_of(items[at]) is None,
    ensures
        retained(items).contains(items[at]),
{
    lemma_plain_item_is_retained(items, at);
}

/// An item whose content field holds the marker is removed; one whose
/// content field does not hold it is retained.
pub proof fn lemma_marker_decides(items: Seq<Item>, at: int)
    requires
        0 <= at < items.len(),
        content_of(items[at]) is Some,
    ensures
        occurs_in(teaser_marker(), content_of(items[at])->0) ==> !retained(items).contains(
            items[at],
        ),
        !occurs_in(teaser_marker(), content_of(items[at])->0) ==> retained(items).contains(
            items[at],
        ),
{
    let positions = lemma_retained_is_selection(items);
    if is_premium(items[at]) {
        if retained(items).contains(items[at]) {
            let k = choose|k: int| 0 <= k < retained(items).len() && retained(items)[k] == items[at];
            assert(positions.contains(positions[k]));
            assert(!is_premium(items[positions[k]]));
        }
    } else {
        lemma_plain_item_is_retained(items, at);
    }
}

} // verus!
