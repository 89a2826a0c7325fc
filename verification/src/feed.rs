//! Feed parsing: turning the bytes of a syndication feed document into the
//! channel's items.
//!
//! Fetching the document is the caller's job; this module only parses the
//! bytes, through the `rss` crate, and hands back each item's display
//! title and enclosure URL as plain values.

use vstd::prelude::*;

verus! {

/// One item of a parsed feed: its display title and the URL of its
/// enclosure, either of which the document may leave out.
pub struct FeedItem {
    pub title: Option<String>,
    pub enclosure_url: Option<String>,
}

/// The model of a feed item.
pub struct FeedItemModel {
    pub title: Option<Seq<char>>,
    pub enclosure_url: Option<Seq<char>>,
}

impl View for FeedItem {
    type V = FeedItemModel;

    open spec fn view(&self) -> FeedItemModel {
        FeedItemModel {
            title: match self.title {
                Some(t) => Some(t@),
                None => None,
            },
            enclosure_url: match self.enclosure_url {
                Some(u) => Some(u@),
                None => None,
            },
        }
    }
}

/// A parsed feed: the channel's descriptive fields and its items, in
/// document order.
pub struct ParsedFeed {
    pub title: String,
    pub link: String,
    pub description: String,
    pub items: Vec<FeedItem>,
}

/// What `rss::Channel::read_from` makes of a feed document: `None` when
/// the bytes are not a well-formed feed, otherwise the items' title and
/// enclosure-URL pairs, in document order.
pub uninterp spec fn feed_parse(bytes: Seq<u8>) -> Option<
    Seq<(Option<Seq<char>>, Option<Seq<char>>)>,
>;

/// The title and enclosure-URL pairs of a sequence of items.
pub open spec fn items_model(items: Seq<FeedItem>) -> Seq<
    (Option<Seq<char>>, Option<Seq<char>>),
> {
    items.map_values(|i: FeedItem| (i@.title, i@.enclosure_url))
}

/// Relies on `rss::Channel::read_from`: parsing is a function of the bytes
/// alone, and each parsed item's title and enclosure URL are carried over
/// one for one. The channel's descriptive fields are passed through
/// without further claims.
#[verifier::external_body]
fn read_channel(bytes: &[u8]) -> (r: Result<ParsedFeed, String>)
    ensures
        r is Ok <==> feed_parse(bytes@) is Some,
        r matches Ok(pf) ==> items_model(pf.items@) == feed_parse(bytes@).unwrap(),
{
    let ch = match rss::Channel::read_from(bytes) {
        Ok(ch) => ch,
        Err(e) => return Err(e.to_string()),
    };
    let items = ch
        .items
        .into_iter()
        .map(|i| FeedItem { title: i.title, enclosure_url: i.enclosure.map(|e| e.url) })
        .collect();
    Ok(ParsedFeed { title: ch.title, link: ch.link, description: ch.description, items })
}

/// Why a feed document could not be used.
#[derive(Debug)]
pub struct FeedParseError {
    pub message: String,
}

/// Parses a feed document. Succeeds exactly when the bytes are a
/// well-formed feed; on success the returned items carry, in document
/// order, each item's title and enclosure URL.
pub fn parse_feed(bytes: &[u8]) -> (r: Result<ParsedFeed, FeedParseError>)
    ensures
        r is Ok <==> feed_parse(bytes@) is Some,
        r matches Ok(pf) ==> items_model(pf.items@) == feed_parse(bytes@).unwrap(),
{
    match read_channel(bytes) {
        Ok(pf) => Ok(pf),
        Err(message) => Err(FeedParseError { message }),
    }
}

} // verus!
