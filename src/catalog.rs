use vstd::prelude::*;
use vstd::string::StringExecFns;

use crate::naming::{extension, extension_of, file_name_of, filename};

verus! {

/// Metadata that accompanies every catalog response.
pub struct Meta {
    pub status: u16,
    pub msg: String,
}

impl Meta {
    /// The catalog reports success with status code 200.
    pub fn is_success(&self) -> (r: bool)
        ensures
            r == (self.status == 200),
    {
        self.status == 200
    }
}

/// A catalog response: its metadata and its payload.
pub struct ResponseEnvelope<T> {
    pub meta: Meta,
    pub response: T,
}

/// A link to a further page of the catalog.
pub struct Link {
    pub href: String,
    pub method: String,
}

/// The links that a page of the catalog carries.
pub struct Links {
    pub next: Link,
}

/// One page of the catalog: its entries and, if there is one, the link to the next page.
pub struct Response {
    pub posts: Vec<Post>,
    pub links: Option<Links>,
}

/// A downloadable resource of an entry.
pub struct Photo {
    pub url: String,
}

/// The full-size variant of a resource.
pub struct OriginalPhoto {
    pub original_size: Photo,
}

/// One catalog entry, with its resources in order.
pub struct Post {
    pub id: u64,
    pub slug: String,
    pub photos: Vec<OriginalPhoto>,
}

/// One download to perform: where it goes and where it comes from.
pub struct DownloadablePhoto {
    pub filename: String,
    pub url: String,
}

/// The value of a download: destination name and source locator.
pub struct WorkItem {
    pub filename: Seq<char>,
    pub url: Seq<char>,
}

impl View for DownloadablePhoto {
    type V = WorkItem;

    open spec fn view(&self) -> WorkItem {
        WorkItem { filename: self.filename@, url: self.url@ }
    }
}

/// The values of a sequence of downloads.
pub open spec fn work_items(v: Seq<DownloadablePhoto>) -> Seq<WorkItem> {
    v.map_values(|d: DownloadablePhoto| d@)
}

/// The download of resource `index` of an entry.
pub open spec fn work_item_of(id: nat, slug: Seq<char>, index: nat, url: Seq<char>) -> WorkItem {
    WorkItem { filename: file_name_of(id, slug, index, extension_of(url)), url }
}

/// The downloads that an entry expands to: one per resource, in order.
pub open spec fn expand_post(p: Post) -> Seq<WorkItem> {
    Seq::new(
        p.photos@.len(),
        |i: int| work_item_of(p.id as nat, p.slug@, i as nat, p.photos@[i].original_size.url@),
    )
}

/// The downloads that a sequence of entries expands to, entry after entry.
pub open spec fn expand_posts(posts: Seq<Post>) -> Seq<WorkItem>
    decreases posts.len(),
{
    if posts.len() == 0 {
        Seq::empty()
    } else {
        expand_posts(posts.drop_last()) + expand_post(posts.last())
    }
}

impl Post {
    /// The downloads of this entry, one per resource, in order.
    pub fn downloads(&self) -> (r: Vec<DownloadablePhoto>)
        ensures
            work_items(r@) == expand_post(*self),
    {
        let mut out: Vec<DownloadablePhoto> = Vec::new();
        let n = self.photos.len();
        let mut i: usize = 0;
        while i < n
            invariant
                n == self.photos@.len(),
                i <= n,
                out@.len() == i,
                work_items(out@) =~= expand_post(*self).take(i as int),
            decreases n - i,
        {
            let url = &self.photos[i].original_size.url;
            let ext = extension(url.as_str());
            let name = filename(self.id, self.slug.as_str(), i, ext);
            let item = DownloadablePhoto { filename: name, url: url.clone() };
            assert(item@ == expand_post(*self)[i as int]);
            let ghost before = out@;
            out.push(item);
            assert(out@ == before.push(item));
            assert(work_items(out@) =~= expand_post(*self).take(i + 1));
            i = i + 1;
        }
        assert(expand_post(*self).take(n as int) =~= expand_post(*self));
        out
    }
}

/// The locator of the first page of a collection.
pub open spec fn first_page_url(blog: Seq<char>, api_key: Seq<char>) -> Seq<char> {
    "https://api.tumblr.com/v2/blog/"@ + blog + "/posts/photo?api_key="@ + api_key
}

/// The locator of a further page, from the link that the previous page carried.
pub open spec fn next_page_url(href: Seq<char>, api_key: Seq<char>) -> Seq<char> {
    "https://api.tumblr.com"@ + href + "&api_key="@ + api_key
}

/// The locator of the first page of a collection.
pub fn first_url(blog_identifier: &str, api_key: &str) -> (r: String)
    ensures
        r@ == first_page_url(blog_identifier@, api_key@),
{
    let mut url = String::from_str("https://api.tumblr.com/v2/blog/");
    url.append(blog_identifier);
    url.append("/posts/photo?api_key=");
    url.append(api_key);
    url
}

/// The locator of a further page, from the link that the previous page carried.
pub fn next_url(href: &str, api_key: &str) -> (r: String)
    ensures
        r@ == next_page_url(href@, api_key@),
{
    let mut url = String::from_str("https://api.tumblr.com");
    url.append(href);
    url.append("&api_key=");
    url.append(api_key);
    url
}

} // verus!
