//! The feed: its envelope, its items, and how entries become items. An item's
//! identifier is its link, marked as a permanent link; items keep the order of
//! the entries and none is dropped or merged.

use vstd::prelude::*;

verus! {

/// An entry whose date has been brought to the feed's form.
#[derive(Debug, PartialEq, Eq)]
pub struct Entry {
    pub title: String,
    pub link: String,
    pub description: String,
    pub pub_date: String,
}

/// An [`Entry`] over sequences of characters.
pub struct EntryView {
    pub title: Seq<char>,
    pub link: Seq<char>,
    pub description: Seq<char>,
    pub pub_date: Seq<char>,
}

impl View for Entry {
    type V = EntryView;

    open spec fn view(&self) -> EntryView {
        EntryView {
            title: self.title@,
            link: self.link@,
            description: self.description@,
            pub_date: self.pub_date@,
        }
    }
}

/// What a feed says of itself; fixed for each source.
#[derive(Debug, PartialEq, Eq)]
pub struct Envelope {
    pub title: String,
    pub link: String,
    pub description: String,
}

/// An item of a feed. Once made it does not change.
#[derive(Debug, PartialEq, Eq)]
pub struct FeedItem {
    title: String,
    link: String,
    description: String,
    guid: String,
    permalink: bool,
    pub_date: String,
}

/// A [`FeedItem`] over sequences of characters.
pub struct FeedItemView {
    pub title: Seq<char>,
    pub link: Seq<char>,
    pub description: Seq<char>,
    pub guid: Seq<char>,
    pub permalink: bool,
    pub pub_date: Seq<char>,
}

impl View for FeedItem {
    type V = FeedItemView;

    closed spec fn view(&self) -> FeedItemView {
        FeedItemView {
            title: self.title@,
            link: self.link@,
            description: self.description@,
            guid: self.guid@,
            permalink: self.permalink,
            pub_date: self.pub_date@,
        }
    }
}

/// A feed: the envelope and the items, in the order in which they were put.
#[derive(Debug, PartialEq, Eq)]
pub struct Feed {
    title: String,
    link: String,
    description: String,
    items: Vec<FeedItem>,
}

/// A [`Feed`] over sequences of characters.
pub struct FeedView {
    pub title: Seq<char>,
    pub link: Seq<char>,
    pub description: Seq<char>,
    pub items: Seq<FeedItemView>,
}

impl View for Feed {
    type V = FeedView;

    closed spec fn view(&self) -> FeedView {
        FeedView {
            title: self.title@,
            link: self.link@,
            description: self.description@,
            items: Seq::new(self.items.len() as nat, |i: int| self.items[i]@),
        }
    }
}

/// Whether an item's identifier is its link, marked as a permanent link.
pub open spec fn is_permalinked(item: FeedItemView) -> bool {
    item.guid == item.link && item.permalink
}

/// The item that an entry becomes.
pub open spec fn item_of(entry: EntryView) -> FeedItemView {
    FeedItemView {
        title: entry.title,
        link: entry.link,
        description: entry.description,
        guid: entry.link,
        permalink: true,
        pub_date: entry.pub_date,
    }
}

/// Entries over sequences of characters.
pub open spec fn entry_views(entries: Seq<Entry>) -> Seq<EntryView> {
    Seq::new(entries.len(), |i: int| entries[i]@)
}

/// The feed that an envelope and entries become: one item for each entry, in
/// the same order.
pub open spec fn feed_of(envelope: Envelope, entries: Seq<EntryView>) -> FeedView {
    FeedView {
        title: envelope.title@,
        link: envelope.link@,
        description: envelope.description@,
        items: Seq::new(entries.len(), |i: int| item_of(entries[i])),
    }
}

/// The XML that the crate rss writes for a channel with this title, link and
/// description and these items, each with its title, link, description,
/// identifier and date.
pub uninterp spec fn rendered_feed(feed: FeedView) -> Seq<char>;

impl FeedItem {
    #[verifier::type_invariant]
    spec fn identified_by_link(self) -> bool {
        self.guid@ == self.link@ && self.permalink
    }

    /// The item of an entry: the link is its identifier too.
    pub fn new(entry: &Entry) -> (item: FeedItem)
        ensures
            item@ == item_of(entry@),
            is_permalinked(item@),
    {
        FeedItem {
            title: entry.title.clone(),
            link: entry.link.clone(),
            description: entry.description.clone(),
            guid: entry.link.clone(),
            permalink: true,
            pub_date: entry.pub_date.clone(),
        }
    }

    pub fn title(&self) -> (title: &String)
        ensures
            title@ == self@.title,
    {
        &self.title
    }

    pub fn link(&self) -> (link: &String)
        ensures
            link@ == self@.link,
    {
        &self.link
    }

    pub fn description(&self) -> (description: &String)
        ensures
            description@ == self@.description,
    {
        &self.description
    }

    /// The identifier: for every item, its link.
    pub fn guid(&self) -> (guid: &String)
        ensures
            guid@ == self@.guid,
            self@.guid == self@.link,
    {
        proof {
            use_type_invariant(self);
        }
        &self.guid
    }

    /// Whether the identifier is a permanent link: for every item, it is.
    pub fn is_permalink(&self) -> (permalink: bool)
        ensures
            permalink == self@.permalink,
            permalink,
    {
        proof {
            use_type_invariant(self);
        }
        self.permalink
    }

    pub fn pub_date(&self) -> (pub_date: &String)
        ensures
            pub_date@ == self@.pub_date,
    {
        &self.pub_date
    }
}

impl Feed {
    pub fn title(&self) -> (title: &String)
        ensures
            title@ == self@.title,
    {
        &self.title
    }

    pub fn link(&self) -> (link: &String)
        ensures
            link@ == self@.link,
    {
        &self.link
    }

    pub fn description(&self) -> (description: &String)
        ensures
            description@ == self@.description,
    {
        &self.description
    }

    /// The items, in the order of the feed.
    pub fn items(&self) -> (items: &Vec<FeedItem>)
        ensures
            items.len() == self@.items.len(),
            forall|i: int| 0 <= i < items.len() ==> (#[trigger] items[i])@ == self@.items[i],
    {
        &self.items
    }
}

/// Builds the feed of a source from its entries: one item for each entry, in
/// the same order, under the source's envelope. No entries give a feed without
/// items.
pub fn synthesize(envelope: &Envelope, entries: &Vec<Entry>) -> (feed: Feed)
    ensures
        feed@ == feed_of(*envelope, entry_views(entries@)),
        feed@.items.len() == entries.len(),
        forall|i: int| 0 <= i < entries.len() ==> is_permalinked(#[trigger] feed@.items[i]),
{
    let mut items: Vec<FeedItem> = Vec::new();
    let mut at: usize = 0;
    while at < entries.len()
        invariant
            at <= entries.len(),
            items.len() == at,
            forall|i: int| 0 <= i < at ==> (#[trigger] items[i])@ == item_of(entries[i]@),
        decreases entries.len() - at,
    {
        items.push(FeedItem::new(&entries[at]));
        at += 1;
    }
    let feed = Feed {
        title: envelope.title.clone(),
        link: envelope.link.clone(),
        description: envelope.description.clone(),
        items,
    };
    assert(feed@.items =~= feed_of(*envelope, entry_views(entries@)).items);
    feed
}

/// Builds the channel of the crate rss that holds what the feed holds, with
/// `ChannelBuilder`, `ItemBuilder` and `Guid`, and calls `to_string` on it.
/// Claimed: the XML depends on what the feed holds alone.
#[verifier::external_body]
pub(crate) fn render_channel(feed: &Feed) -> (xml: String)
    ensures
        xml@ == rendered_feed(feed@),
{
    let items: Vec<rss::Item> = feed.items.iter().map(|item| {
        let guid = rss::Guid { value: item.guid.clone(), permalink: item.permalink };
        rss::ItemBuilder::default().title(item.title.clone()).link(item.link.clone())
            .description(item.description.clone()).guid(Some(guid))
            .pub_date(item.pub_date.clone()).build()
    }).collect();
    rss::ChannelBuilder::default().title(feed.title.clone()).link(feed.link.clone())
        .description(feed.description.clone()).items(items).build().to_string()
}

} // verus!
