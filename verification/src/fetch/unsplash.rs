//! The remote collection cursor: a paginated endpoint of an Unsplash-style
//! photo API, the page-level state machine that advances or resets the page
//! number, and the reference-level source that filters and queues the
//! download URLs of each fetched page.
//!
//! Fetching itself is a network action and stays with the caller: the cursor
//! says which URL to request, and is then told what came back.

use vstd::prelude::*;
use crate::text::dec_str;

verus! {

/// The download URLs an API photo object offers, by size.
pub struct PhotoSizes {
    pub raw: Option<String>,
    pub full: Option<String>,
    pub regular: Option<String>,
    pub small: Option<String>,
}

/// One photo object of an API page.
pub struct PhotoMeta {
    pub urls: PhotoSizes,
}

/// One fetched page: the API returns a JSON array of photo objects.
pub type Photos = Vec<PhotoMeta>;

/// The base of every collection request.
pub open spec fn collections_base_url() -> Seq<char> {
    "https://api.unsplash.com/collections"@
}

/// The photos endpoint of one collection.
pub open spec fn collection_url(id: nat) -> Seq<char> {
    collections_base_url() + "/"@ + dec_str(id) + "/photos/"@
}

/// A paginated photos endpoint: collection URL, optional credential token,
/// and the page the next request asks for.
pub struct CollectionEndpoint {
    pub url: String,
    pub client_id: Option<String>,
    pub current_page: usize,
}

impl CollectionEndpoint {
    /// The endpoint URL, with the credential token when one is set.
    pub open spec fn spec_get_url(&self) -> Seq<char> {
        match self.client_id {
            Some(cid) => self.url@ + "?client_id="@ + cid@,
            None => self.url@,
        }
    }

    /// The URL of the request for the current page: the page number and,
    /// when set, the credential token as query parameters.
    pub open spec fn spec_page_url(&self) -> Seq<char> {
        let paged = self.url@ + "?page="@ + dec_str(self.current_page as nat);
        match self.client_id {
            Some(cid) => paged + "&client_id="@ + cid@,
            None => paged,
        }
    }

    pub fn new(collection_id: u128) -> (r: Self)
        ensures
            r.url@ == collection_url(collection_id as nat),
            r.client_id is None,
            r.current_page == 1,
    {
        let mut url: String = "https://api.unsplash.com/collections".to_owned();
        url.append("/");
        let id_str = crate::text::u128_to_dec(collection_id);
        url.append(id_str.as_str());
        url.append("/photos/");
        proof {
            assert(url@ =~= collection_url(collection_id as nat));
        }
        CollectionEndpoint { url, client_id: None, current_page: 1 }
    }

    pub fn set_client_id(self, client_id: String) -> (r: Self)
        ensures
            r.url == self.url,
            r.client_id == Some(client_id),
            r.current_page == self.current_page,
    {
        CollectionEndpoint { client_id: Some(client_id), ..self }
    }

    pub fn with_page(self, page: usize) -> (r: Self)
        ensures
            r.url == self.url,
            r.client_id == self.client_id,
            r.current_page == page,
    {
        let mut r = self;
        r.set_page(page);
        r
    }

    pub fn set_page(&mut self, page: usize)
        ensures
            final(self).url == old(self).url,
            final(self).client_id == old(self).client_id,
            final(self).current_page == page,
    {
        self.current_page = page;
    }

    /// The endpoint URL, with the credential token when one is set.
    pub fn get_url(&self) -> (r: String)
        ensures
            r@ == self.spec_get_url(),
    {
        match &self.client_id {
            Some(cid) => {
                let mut r = self.url.clone();
                r.append("?client_id=");
                r.append(cid.as_str());
                proof {
                    assert(r@ =~= self.spec_get_url());
                }
                r
            },
            None => self.url.clone(),
        }
    }

    /// The URL the fetch of the current page must request.
    pub fn page_url(&self) -> (r: String)
        ensures
            r@ == self.spec_page_url(),
    {
        let mut r = self.url.clone();
        r.append("?page=");
        let page_str = crate::text::usize_to_dec(self.current_page);
        r.append(page_str.as_str());
        match &self.client_id {
            Some(cid) => {
                r.append("&client_id=");
                r.append(cid.as_str());
                proof {
                    assert(r@ =~= self.spec_page_url());
                }
                r
            },
            None => {
                proof {
                    assert(r@ =~= self.spec_page_url());
                }
                r
            },
        }
    }

    /// Starts paging at this endpoint's current page.
    pub fn into_pages(self) -> (r: PagesIterator)
        ensures
            r.endpoint == self,
    {
        PagesIterator { endpoint: self }
    }
}

/// The page-level state machine.  A fetched non-empty page advances the page
/// number; a fetched empty page means the collection is exhausted and resets
/// the number to the first page; a failed fetch changes nothing, so the same
/// page is retried.  There is no terminal state.
pub struct PagesIterator {
    pub endpoint: CollectionEndpoint,
}

impl PagesIterator {
    pub fn current_page(&self) -> (r: usize)
        ensures
            r == self.endpoint.current_page,
    {
        self.endpoint.current_page
    }

    /// The URL the next page fetch must request.
    pub fn request_url(&self) -> (r: String)
        ensures
            r@ == self.endpoint.spec_page_url(),
    {
        self.endpoint.page_url()
    }

    /// Notes the outcome of a successful page fetch: an empty page resets to
    /// page one, a non-empty page moves to the next page number.
    pub fn advance(&mut self, end_of_collection: bool)
        requires
            !end_of_collection ==> old(self).endpoint.current_page < usize::MAX,
        ensures
            final(self).endpoint.url == old(self).endpoint.url,
            final(self).endpoint.client_id == old(self).endpoint.client_id,
            end_of_collection ==> final(self).endpoint.current_page == 1,
            !end_of_collection ==> final(self).endpoint.current_page == old(
                self,
            ).endpoint.current_page + 1,
    {
        if end_of_collection {
            self.endpoint.set_page(1);
        } else {
            let page = self.endpoint.current_page;
            self.endpoint.set_page(page + 1);
        }
    }

    /// A failed fetch leaves the cursor as it was: the same page is retried
    /// on the next request.
    pub fn note_failure(&mut self)
        ensures
            *final(self) == *old(self),
    {
    }
}

/// The download references of a page, in API order, skipping photo objects
/// whose raw download URL is missing or empty.
pub open spec fn extract_refs(photos: Seq<PhotoMeta>) -> Seq<Seq<char>>
    decreases photos.len(),
{
    if photos.len() == 0 {
        Seq::empty()
    } else {
        let rest = extract_refs(photos.drop_last());
        match photos.last().urls.raw {
            Some(u) => if u@.len() > 0 {
                rest.push(u@)
            } else {
                rest
            },
            None => rest,
        }
    }
}

fn filter_refs(photos: &Vec<PhotoMeta>) -> (r: Vec<String>)
    ensures
        r.deep_view() == extract_refs(photos@),
{
    let mut r: Vec<String> = Vec::new();
    let mut i: usize = 0;
    while i < photos.len()
        invariant
            i <= photos@.len(),
            r.deep_view() == extract_refs(photos@.subrange(0, i as int)),
        decreases photos@.len() - i,
    {
        let ghost prefix = photos@.subrange(0, i as int);
        match &photos[i].urls.raw {
            Some(u) => {
                if u.unicode_len() > 0 {
                    r.push(u.clone());
                }
            },
            None => {},
        }
        proof {
            let longer = photos@.subrange(0, i + 1 as int);
            assert(longer.drop_last() =~= prefix);
            assert(longer.last() == photos@[i as int]);
            assert(r.deep_view() =~= extract_refs(longer));
        }
        i += 1;
    }
    proof {
        assert(photos@.subrange(0, photos@.len() as int) =~= photos@);
    }
    r
}

/// The reference-level cursor: the page machine plus the queue of download
/// references not yet handed out, in API order.
pub struct PhotoSource {
    pub pages: PagesIterator,
    pub pending: Vec<String>,
}

impl PhotoSource {
    pub fn new(pages: PagesIterator) -> (r: Self)
        ensures
            r.pages == pages,
            r.pending@.len() == 0,
    {
        PhotoSource { pages, pending: Vec::new() }
    }

    pub fn current_page(&self) -> (r: usize)
        ensures
            r == self.pages.endpoint.current_page,
    {
        self.pages.current_page()
    }

    /// The URL to request when the queue is exhausted and a new page is
    /// needed.
    pub fn request_url(&self) -> (r: String)
        ensures
            r@ == self.pages.endpoint.spec_page_url(),
    {
        self.pages.request_url()
    }

    /// Hands out the next queued download reference, if any.
    pub fn next_photo(&mut self) -> (r: Option<String>)
        ensures
            final(self).pages == old(self).pages,
            old(self).pending@.len() == 0 ==> r is None && *final(self) == *old(self),
            old(self).pending@.len() > 0 ==> (r matches Some(u) && u@ == old(
                self,
            ).pending.deep_view()[0] && final(self).pending@ == old(self).pending@.drop_first()),
    {
        if self.pending.len() == 0 {
            None
        } else {
            let u = self.pending.remove(0);
            proof {
                assert(self.pending@ =~= old(self).pending@.drop_first());
            }
            Some(u)
        }
    }

    /// Notes the photo objects of a successfully fetched page: queues their
    /// usable download references in API order and advances the page machine.
    /// Returns whether the page was empty, which signals end of collection:
    /// the next request starts over from page one.
    pub fn note_page(&mut self, photos: &Photos) -> (end: bool)
        requires
            photos@.len() > 0 ==> old(self).pages.endpoint.current_page < usize::MAX,
        ensures
            final(self).pages.endpoint.url == old(self).pages.endpoint.url,
            final(self).pages.endpoint.client_id == old(self).pages.endpoint.client_id,
            end == (photos@.len() == 0),
            end ==> final(self).pages.endpoint.current_page == 1 && final(self).pending == old(
                self,
            ).pending,
            !end ==> final(self).pages.endpoint.current_page == old(
                self,
            ).pages.endpoint.current_page + 1 && final(self).pending.deep_view() == old(
                self,
            ).pending.deep_view() + extract_refs(photos@),
    {
        if photos.len() == 0 {
            self.pages.advance(true);
            true
        } else {
            let mut refs = filter_refs(photos);
            let ghost pending0 = self.pending.deep_view();
            self.pages.advance(false);
            self.pending.append(&mut refs);
            proof {
                assert(self.pending.deep_view() =~= pending0 + extract_refs(photos@));
            }
            false
        }
    }

    /// A failed page fetch: nothing changes, the same page is retried.
    pub fn note_failure(&mut self)
        ensures
            *final(self) == *old(self),
    {
        self.pages.note_failure();
    }
}

} // verus!
