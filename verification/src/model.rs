//! The records of a JSON Feed document and their mathematical views.
//!
//! Every optional field is an `Option`: `None` is a field that the document
//! does not have, which is not the same as an empty string or an empty list.

use vstd::prelude::*;

verus! {

/// View of an [`Author`].
pub struct AuthorView {
    pub name: Option<Seq<char>>,
    pub url: Option<Seq<char>>,
    pub avatar: Option<Seq<char>>,
}

/// View of a [`Hub`].
pub struct HubView {
    pub type_: Seq<char>,
    pub url: Seq<char>,
}

/// View of an [`Attachment`].
pub struct AttachmentView {
    pub url: Seq<char>,
    pub mime_type: Seq<char>,
    pub title: Option<Seq<char>>,
    pub size_in_bytes: Option<u64>,
    pub duration_in_seconds: Option<u64>,
}

/// View of an [`Item`]. `author` is the single author of a version 1.0
/// document, which the record itself keeps out of sight.
pub struct ItemView {
    pub id: Seq<char>,
    pub url: Option<Seq<char>>,
    pub external_url: Option<Seq<char>>,
    pub title: Option<Seq<char>>,
    pub content_html: Option<Seq<char>>,
    pub content_text: Option<Seq<char>>,
    pub summary: Option<Seq<char>>,
    pub image: Option<Seq<char>>,
    pub banner_image: Option<Seq<char>>,
    pub date_published: Option<Seq<char>>,
    pub date_modified: Option<Seq<char>>,
    pub authors: Option<Seq<AuthorView>>,
    pub author: Option<AuthorView>,
    pub tags: Option<Seq<Seq<char>>>,
    pub language: Option<Seq<char>>,
    pub attachments: Option<Seq<AttachmentView>>,
}

/// View of a [`Feed`]. `author` is the single author of a version 1.0
/// document, which the record itself keeps out of sight.
pub struct FeedView {
    pub version: Seq<char>,
    pub title: Seq<char>,
    pub home_page_url: Option<Seq<char>>,
    pub feed_url: Option<Seq<char>>,
    pub description: Option<Seq<char>>,
    pub user_comment: Option<Seq<char>>,
    pub next_url: Option<Seq<char>>,
    pub icon: Option<Seq<char>>,
    pub favicon: Option<Seq<char>>,
    pub authors: Option<Seq<AuthorView>>,
    pub author: Option<AuthorView>,
    pub language: Option<Seq<char>>,
    pub expired: Option<bool>,
    pub hubs: Option<Seq<HubView>>,
    pub items: Option<Seq<ItemView>>,
}

/// Someone who wrote a feed or an item.
#[derive(Debug)]
pub struct Author {
    pub name: Option<String>,
    pub url: Option<String>,
    pub avatar: Option<String>,
}

/// An endpoint that announces updates of the feed.
#[derive(Debug)]
pub struct Hub {
    pub type_: String,
    pub url: String,
}

/// A file that belongs to an item.
#[derive(Debug)]
pub struct Attachment {
    pub url: String,
    pub mime_type: String,
    pub title: Option<String>,
    pub size_in_bytes: Option<u64>,
    pub duration_in_seconds: Option<u64>,
}

/// One entry of a feed.
#[derive(Debug)]
pub struct Item {
    pub id: String,
    pub url: Option<String>,
    pub external_url: Option<String>,
    pub title: Option<String>,
    pub content_html: Option<String>,
    pub content_text: Option<String>,
    pub summary: Option<String>,
    pub image: Option<String>,
    pub banner_image: Option<String>,
    pub date_published: Option<String>,
    pub date_modified: Option<String>,
    pub authors: Option<Vec<Author>>,
    /// The `author` member of a version 1.0 document. It lives only while a
    /// document is being read.
    pub(crate) author: Option<Author>,
    pub tags: Option<Vec<String>>,
    pub language: Option<String>,
    pub attachments: Option<Vec<Attachment>>,
}

/// A whole feed.
#[derive(Debug)]
pub struct Feed {
    pub version: String,
    pub title: String,
    pub home_page_url: Option<String>,
    pub feed_url: Option<String>,
    pub description: Option<String>,
    pub user_comment: Option<String>,
    pub next_url: Option<String>,
    pub icon: Option<String>,
    pub favicon: Option<String>,
    pub authors: Option<Vec<Author>>,
    /// The `author` member of a version 1.0 document. It lives only while a
    /// document is being read.
    pub(crate) author: Option<Author>,
    pub language: Option<String>,
    pub expired: Option<bool>,
    pub hubs: Option<Vec<Hub>>,
    pub items: Option<Vec<Item>>,
}

impl DeepView for Author {
    type V = AuthorView;

    open spec fn deep_view(&self) -> AuthorView {
        AuthorView {
            name: self.name.deep_view(),
            url: self.url.deep_view(),
            avatar: self.avatar.deep_view(),
        }
    }
}

impl View for Author {
    type V = AuthorView;

    open spec fn view(&self) -> AuthorView {
        self.deep_view()
    }
}

impl DeepView for Hub {
    type V = HubView;

    open spec fn deep_view(&self) -> HubView {
        HubView { type_: self.type_@, url: self.url@ }
    }
}

impl View for Hub {
    type V = HubView;

    open spec fn view(&self) -> HubView {
        self.deep_view()
    }
}

impl DeepView for Attachment {
    type V = AttachmentView;

    open spec fn deep_view(&self) -> AttachmentView {
        AttachmentView {
            url: self.url@,
            mime_type: self.mime_type@,
            title: self.title.deep_view(),
            size_in_bytes: self.size_in_bytes,
            duration_in_seconds: self.duration_in_seconds,
        }
    }
}

impl View for Attachment {
    type V = AttachmentView;

    open spec fn view(&self) -> AttachmentView {
        self.deep_view()
    }
}

impl Item {
    /// The single author that the record still carries.
    pub open(crate) spec fn legacy_author(&self) -> Option<Author> {
        self.author
    }
}

impl DeepView for Item {
    type V = ItemView;

    open(crate) spec fn deep_view(&self) -> ItemView {
        ItemView {
            id: self.id@,
            url: self.url.deep_view(),
            external_url: self.external_url.deep_view(),
            title: self.title.deep_view(),
            content_html: self.content_html.deep_view(),
            content_text: self.content_text.deep_view(),
            summary: self.summary.deep_view(),
            image: self.image.deep_view(),
            banner_image: self.banner_image.deep_view(),
            date_published: self.date_published.deep_view(),
            date_modified: self.date_modified.deep_view(),
            authors: self.authors.deep_view(),
            author: self.legacy_author().deep_view(),
            tags: self.tags.deep_view(),
            language: self.language.deep_view(),
            attachments: self.attachments.deep_view(),
        }
    }
}

impl View for Item {
    type V = ItemView;

    open spec fn view(&self) -> ItemView {
        self.deep_view()
    }
}

impl Feed {
    /// The single author that the record still carries.
    pub open(crate) spec fn legacy_author(&self) -> Option<Author> {
        self.author
    }
}

impl DeepView for Feed {
    type V = FeedView;

    open(crate) spec fn deep_view(&self) -> FeedView {
        FeedView {
            version: self.version@,
            title: self.title@,
            home_page_url: self.home_page_url.deep_view(),
            feed_url: self.feed_url.deep_view(),
            description: self.description.deep_view(),
            user_comment: self.user_comment.deep_view(),
            next_url: self.next_url.deep_view(),
            icon: self.icon.deep_view(),
            favicon: self.favicon.deep_view(),
            authors: self.authors.deep_view(),
            author: self.legacy_author().deep_view(),
            language: self.language.deep_view(),
            expired: self.expired,
            hubs: self.hubs.deep_view(),
            items: self.items.deep_view(),
        }
    }
}

impl View for Feed {
    type V = FeedView;

    open spec fn view(&self) -> FeedView {
        self.deep_view()
    }
}

/// The fields of an item, each with what the view holds of it. Outside this
/// crate the view of an item is known only through these.
impl Item {
    /// What tells the item apart from the others of its feed.
    pub fn id(&self) -> (r: &String)
        ensures
            r@ == self@.id,
    {
        &self.id
    }

    /// The address of the item.
    pub fn url(&self) -> (r: &Option<String>)
        ensures
            r.deep_view() == self@.url,
    {
        &self.url
    }

    /// A page elsewhere that the item points to.
    pub fn external_url(&self) -> (r: &Option<String>)
        ensures
            r.deep_view() == self@.external_url,
    {
        &self.external_url
    }

    /// The title of the item.
    pub fn title(&self) -> (r: &Option<String>)
        ensures
            r.deep_view() == self@.title,
    {
        &self.title
    }

    /// The content as HTML.
    pub fn content_html(&self) -> (r: &Option<String>)
        ensures
            r.deep_view() == self@.content_html,
    {
        &self.content_html
    }

    /// The content as plain text.
    pub fn content_text(&self) -> (r: &Option<String>)
        ensures
            r.deep_view() == self@.content_text,
    {
        &self.content_text
    }

    /// A sentence or two about the item.
    pub fn summary(&self) -> (r: &Option<String>)
        ensures
            r.deep_view() == self@.summary,
    {
        &self.summary
    }

    /// The main image of the item.
    pub fn image(&self) -> (r: &Option<String>)
        ensures
            r.deep_view() == self@.image,
    {
        &self.image
    }

    /// An image to set above the item.
    pub fn banner_image(&self) -> (r: &Option<String>)
        ensures
            r.deep_view() == self@.banner_image,
    {
        &self.banner_image
    }

    /// When the item was published, as the document spells it.
    pub fn date_published(&self) -> (r: &Option<String>)
        ensures
            r.deep_view() == self@.date_published,
    {
        &self.date_published
    }

    /// When the item was last changed, as the document spells it.
    pub fn date_modified(&self) -> (r: &Option<String>)
        ensures
            r.deep_view() == self@.date_modified,
    {
        &self.date_modified
    }

    /// The authors of the item, in the order of the document.
    pub fn authors(&self) -> (r: &Option<Vec<Author>>)
        ensures
            r.deep_view() == self@.authors,
    {
        &self.authors
    }

    /// The tags of the item, as given: order and repetitions stay.
    pub fn tags(&self) -> (r: &Option<Vec<String>>)
        ensures
            r.deep_view() == self@.tags,
    {
        &self.tags
    }

    /// The language of the item.
    pub fn language(&self) -> (r: &Option<String>)
        ensures
            r.deep_view() == self@.language,
    {
        &self.language
    }

    /// The attachments of the item, in the order of the document.
    pub fn attachments(&self) -> (r: &Option<Vec<Attachment>>)
        ensures
            r.deep_view() == self@.attachments,
    {
        &self.attachments
    }
}

/// The fields of a feed, each with what the view holds of it. Outside this
/// crate the view of a feed is known only through these.
impl Feed {
    /// The version of the format, a URL.
    pub fn version(&self) -> (r: &String)
        ensures
            r@ == self@.version,
    {
        &self.version
    }

    /// The name of the feed.
    pub fn title(&self) -> (r: &String)
        ensures
            r@ == self@.title,
    {
        &self.title
    }

    /// The page that the feed belongs to.
    pub fn home_page_url(&self) -> (r: &Option<String>)
        ensures
            r.deep_view() == self@.home_page_url,
    {
        &self.home_page_url
    }

    /// The address of the feed itself.
    pub fn feed_url(&self) -> (r: &Option<String>)
        ensures
            r.deep_view() == self@.feed_url,
    {
        &self.feed_url
    }

    /// What the feed is about.
    pub fn description(&self) -> (r: &Option<String>)
        ensures
            r.deep_view() == self@.description,
    {
        &self.description
    }

    /// A note for someone who reads the raw document.
    pub fn user_comment(&self) -> (r: &Option<String>)
        ensures
            r.deep_view() == self@.user_comment,
    {
        &self.user_comment
    }

    /// The feed that continues this one.
    pub fn next_url(&self) -> (r: &Option<String>)
        ensures
            r.deep_view() == self@.next_url,
    {
        &self.next_url
    }

    /// A large image for the feed.
    pub fn icon(&self) -> (r: &Option<String>)
        ensures
            r.deep_view() == self@.icon,
    {
        &self.icon
    }

    /// A small image for the feed.
    pub fn favicon(&self) -> (r: &Option<String>)
        ensures
            r.deep_view() == self@.favicon,
    {
        &self.favicon
    }

    /// The authors of the feed, in the order of the document.
    pub fn authors(&self) -> (r: &Option<Vec<Author>>)
        ensures
            r.deep_view() == self@.authors,
    {
        &self.authors
    }

    /// The language of the feed.
    pub fn language(&self) -> (r: &Option<String>)
        ensures
            r.deep_view() == self@.language,
    {
        &self.language
    }

    /// Whether the feed will never change again.
    pub fn expired(&self) -> (r: Option<bool>)
        ensures
            r == self@.expired,
    {
        self.expired
    }

    /// The hubs of the feed, in the order of the document.
    pub fn hubs(&self) -> (r: &Option<Vec<Hub>>)
        ensures
            r.deep_view() == self@.hubs,
    {
        &self.hubs
    }

    /// The items of the feed, in the order of the document.
    pub fn items(&self) -> (r: &Option<Vec<Item>>)
        ensures
            r.deep_view() == self@.items,
    {
        &self.items
    }
}

/// A copy of an optional string.
pub(crate) fn copy_text(text: &Option<String>) -> (r: Option<String>)
    ensures
        r.deep_view() == text.deep_view(),
{
    match text {
        Some(s) => Some(s.clone()),
        None => None,
    }
}

impl Clone for Author {
    fn clone(&self) -> (r: Author)
        ensures
            r@ == self@,
    {
        Author {
            name: copy_text(&self.name),
            url: copy_text(&self.url),
            avatar: copy_text(&self.avatar),
        }
    }
}

} // verus!
