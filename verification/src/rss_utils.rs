//! The answer to a request: the feed as XML under a status of success, or
//! nothing at all under a status that says so.

use crate::feed::{render_channel, rendered_feed, Feed};
use vstd::prelude::*;
use vstd::string::StringExecFns;

verus! {

/// The content type of a feed.
pub const XML_TYPE: &'static str = "application/xml";

/// The status of an answer that holds a feed.
pub const STATUS_OK: u16 = 200;

/// The status of an answer that holds nothing.
pub const STATUS_NO_CONTENT: u16 = 204;

/// An answer: a status, a content type where there is content, and the body.
#[derive(Debug, PartialEq, Eq)]
pub struct Response {
    pub status: u16,
    pub content_type: Option<String>,
    pub body: String,
}

/// A [`Response`] over sequences of characters.
pub struct ResponseView {
    pub status: int,
    pub content_type: Option<Seq<char>>,
    pub body: Seq<char>,
}

impl View for Response {
    type V = ResponseView;

    open spec fn view(&self) -> ResponseView {
        ResponseView {
            status: self.status as int,
            content_type: match self.content_type {
                Some(name) => Some(name@),
                None => None,
            },
            body: self.body@,
        }
    }
}

/// The answer that holds a feed: success, XML, and the feed as the body.
pub open spec fn feed_response(xml: Seq<char>) -> ResponseView {
    ResponseView { status: STATUS_OK as int, content_type: Some(XML_TYPE@), body: xml }
}

/// The answer to a request that failed, whatever made it fail: no content,
/// and no word of the reason.
pub open spec fn no_content() -> ResponseView {
    ResponseView { status: STATUS_NO_CONTENT as int, content_type: None, body: Seq::empty() }
}

/// The answer that holds the feed.
pub fn make_rss(feed: &Feed) -> (response: Response)
    ensures
        response@ == feed_response(rendered_feed(feed@)),
{
    Response {
        status: STATUS_OK,
        content_type: Some(String::from_str(XML_TYPE)),
        body: render_channel(feed),
    }
}

/// The answer to a request that failed.
pub fn make_no_content() -> (response: Response)
    ensures
        response@ == no_content(),
{
    Response { status: STATUS_NO_CONTENT, content_type: None, body: String::new() }
}

} // verus!
