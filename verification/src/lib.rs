//! Feeds for pages that publish none. A source is declared by rules that say
//! where on its page the entries are and how to reach title, link,
//! description and date from an entry. A page is read with those rules, each
//! date is brought to one timestamp, and the entries become the items of a
//! feed, in the order of the page. One entry that cannot be read fails the
//! whole page.

pub mod calendar;
pub mod date;
pub mod dom;
pub mod extract;
pub mod feed;
pub mod gather;
pub mod isabel;
pub mod pipeline;
pub mod rss_utils;
pub mod rules;
pub mod text;
pub mod verde;
