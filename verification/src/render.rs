//! Serializing the channel document as RSS 2.0 XML through the rss crate.

use crate::model::{FeedDocument, FeedDocumentView, FeedError};
use rss::ChannelBuilder;
use rss::Item;
use vstd::prelude::*;

verus! {

/// The RSS 2.0 XML text of a channel document. The rss crate computes it
/// from the channel fields and items alone.
pub uninterp spec fn xml_of(d: FeedDocumentView) -> Seq<char>;

/// Relies on rss::ChannelBuilder, rss::Item's setters and
/// rss::Channel::to_string: assembles the channel with the given metadata
/// and items and renders it; the text depends on the document alone. The
/// builder is generated with a default for every field, so assembly always
/// succeeds; the error side exists only in the generated signature.
#[verifier::external_body]
fn feed_to_xml(doc: &FeedDocument) -> (r: Result<String, String>)
    ensures
        r is Ok,
        r matches Ok(s) ==> s@ == xml_of(doc@),
{
    let mut items: Vec<Item> = Vec::new();
    for it in doc.items.iter() {
        let mut item = Item::default();
        item.set_title(it.title.clone());
        item.set_description(it.description.clone());
        item.set_pub_date(it.pub_date.clone());
        item.set_link(it.link.clone());
        items.push(item);
    }
    ChannelBuilder::default().title(doc.title.clone()).link(doc.link.clone())
        .description(doc.description.clone()).pub_date(doc.pub_date.clone())
        .last_build_date(doc.last_build_date.clone()).items(items).build()
        .map(|channel| channel.to_string())
}

/// Renders a channel document as RSS 2.0 XML; rendering always succeeds.
/// Were assembly ever to fail it would be fatal to the response and surface
/// as a build error: no partial feed is ever returned.
pub fn render_feed(doc: &FeedDocument) -> (r: Result<String, FeedError>)
    ensures
        r is Ok,
        r matches Ok(s) ==> s@ == xml_of(doc@),
{
    match feed_to_xml(doc) {
        Ok(s) => Ok(s),
        Err(m) => Err(FeedError::Build(m)),
    }
}

} // verus!
