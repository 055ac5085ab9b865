//! The rotation engine.
//!
//! Each tick makes room in the store when it is full, pulls one reference
//! from the remote cursor for downloading, records a finished download, and
//! hands out the next stored wallpaper for presentation.  Downloading,
//! deleting and painting are the caller's side effects; the engine holds the
//! state and makes every decision, and each decision keeps the store within
//! its capacity.

use vstd::prelude::*;
use crate::fetch::unsplash::{CollectionEndpoint, PhotoSource, Photos, extract_refs};
use crate::store::{Store, StoreError, filepath_of};
use crate::wallpaper::{ShellCommand, Wallpaper, Screensaver, WallpaperAndScreensaver, command_view};

verus! {

/// What the caller must do for the fetch half of a tick: download one photo,
/// or fetch one collection page.
pub enum FetchStep {
    /// Download the image at this URL, then report success or failure.
    Download(String),
    /// Request this collection page, then report its photo objects or the
    /// failure.
    FetchPage(String),
}

/// The engine: presentation manager, bounded store, remote cursor, the
/// rotation queue of paths not yet shown in the current round, and the tick
/// cadence in seconds.
pub struct Bliss<M> {
    pub manager: M,
    pub store: Store,
    pub photos: PhotoSource,
    pub rotation: Vec<String>,
    pub changerate: u64,
}

impl<M: WallpaperAndScreensaver> Bliss<M> {
    /// Every reachable engine state keeps the store deduplicated and within
    /// its configured capacity, and a capacity of at least one entry.
    pub open spec fn wf(&self) -> bool {
        &&& self.store.wf()
        &&& self.store.capacity >= 1
        &&& self.store.spec_size() <= self.store.capacity
    }

    pub fn new(manager: M, store: Store, endpoint: CollectionEndpoint) -> (r: Self)
        requires
            store.wf(),
            store.capacity >= 1,
            store.spec_size() <= store.capacity,
        ensures
            r.wf(),
            r.manager == manager,
            r.store == store,
            r.photos.pages.endpoint == endpoint,
            r.photos.pending@.len() == 0,
            r.rotation@.len() == 0,
            r.changerate == 5,
    {
        let photos = PhotoSource::new(endpoint.into_pages());
        Bliss { manager, store, photos, rotation: Vec::new(), changerate: 5 }
    }

    pub fn set_changerate(self, changerate: u64) -> (r: Self)
        ensures
            r.manager == self.manager,
            r.store == self.store,
            r.photos == self.photos,
            r.rotation == self.rotation,
            r.changerate == changerate,
    {
        Bliss { changerate, ..self }
    }

    /// The first step of a tick: when no capacity is left, the oldest entry
    /// is evicted before any new download is attempted, and its path is
    /// returned so the caller can delete the file.
    pub fn make_room(&mut self) -> (r: Option<String>)
        requires
            old(self).wf(),
        ensures
            final(self).wf(),
            final(self).manager == old(self).manager,
            final(self).photos == old(self).photos,
            final(self).rotation == old(self).rotation,
            final(self).changerate == old(self).changerate,
            final(self).store.path == old(self).store.path,
            final(self).store.capacity == old(self).store.capacity,
            old(self).store.spec_size() < old(self).store.capacity ==> r is None && final(self).store == old(self).store,
            old(self).store.spec_size() >= old(self).store.capacity ==> (r matches Some(p)
                && p@ == old(self).store.spec_paths()[0] && final(self).store.entries@ == old(self).store.entries@.drop_first() && final(self).store.spec_size() == old(self).store.spec_size() - 1),
            final(self).store.spec_size() < final(self).store.capacity,
    {
        let size = self.store.size();
        let available = if self.store.capacity >= size {
            self.store.capacity - size
        } else {
            0
        };
        if available == 0 {
            match self.store.oldest_wallpaper() {
                Some(p) => {
                    let ghost store0 = self.store;
                    self.store.remove_wallpaper(p.as_str());
                    proof {
                        let i = choose|i: int|
                            0 <= i < store0.entries@.len() && store0.spec_paths()[i] == p@ && (
                            forall|j: int| 0 <= j < i ==> store0.spec_paths()[j] != p@)
                                && self.store.entries@ == store0.entries@.remove(i);
                        assert(store0.spec_paths()[0] == p@);
                        assert(i == 0);
                        assert(self.store.entries@ =~= store0.entries@.drop_first());
                    }
                    Some(p)
                },
                None => {
                    proof {
                        assert(false);
                    }
                    vstd::pervasive::unreached()
                },
            }
        } else {
            None
        }
    }

    /// The fetch half of a tick: hands out the next queued download
    /// reference, or, with the queue exhausted, the request for the current
    /// collection page.
    pub fn fetch_step(&mut self) -> (r: FetchStep)
        ensures
            final(self).manager == old(self).manager,
            final(self).store == old(self).store,
            final(self).rotation == old(self).rotation,
            final(self).changerate == old(self).changerate,
            final(self).photos.pages == old(self).photos.pages,
            old(self).photos.pending@.len() > 0 ==> (r matches FetchStep::Download(u) && u@ == old(self).photos.pending.deep_view()[0] && final(self).photos.pending@ == old(self).photos.pending@.drop_first()),
            old(self).photos.pending@.len() == 0 ==> (r matches FetchStep::FetchPage(u) && u@
                == old(self).photos.pages.endpoint.spec_page_url() && *final(self) == *old(self)),
    {
        match self.photos.next_photo() {
            Some(u) => FetchStep::Download(u),
            None => FetchStep::FetchPage(self.photos.request_url()),
        }
    }

    /// Notes a fetched collection page: queues its usable references and
    /// advances the page machine; an empty page signals end of collection
    /// and the cursor starts over from page one.
    pub fn on_page_fetched(&mut self, photos: &Photos) -> (end: bool)
        requires
            photos@.len() > 0 ==> old(self).photos.pages.endpoint.current_page < usize::MAX,
        ensures
            final(self).manager == old(self).manager,
            final(self).store == old(self).store,
            final(self).rotation == old(self).rotation,
            final(self).changerate == old(self).changerate,
            final(self).photos.pages.endpoint.url == old(self).photos.pages.endpoint.url,
            final(self).photos.pages.endpoint.client_id == old(self).photos.pages.endpoint.client_id,
            end == (photos@.len() == 0),
            end ==> final(self).photos.pages.endpoint.current_page == 1 && final(self).photos.pending == old(self).photos.pending,
            !end ==> final(self).photos.pages.endpoint.current_page == old(self).photos.pages.endpoint.current_page + 1 && final(self).photos.pending.deep_view()
                == old(self).photos.pending.deep_view() + extract_refs(photos@),
    {
        self.photos.note_page(photos)
    }

    /// A failed page fetch changes nothing: the page counter stands and the
    /// same page is retried on the next request.
    pub fn on_page_failed(&mut self)
        ensures
            *final(self) == *old(self),
    {
        self.photos.note_failure();
    }

    /// Records a successfully downloaded image.  Succeeds exactly when the
    /// deterministic path for `url` is absent, appending the newest entry
    /// and returning the path the caller must write the bytes to; a
    /// duplicate is reported with the existing path and changes nothing.
    pub fn on_download_succeeded(&mut self, url: &str) -> (r: Result<String, StoreError>)
        requires
            old(self).wf(),
            old(self).store.spec_size() < old(self).store.capacity,
        ensures
            final(self).wf(),
            final(self).manager == old(self).manager,
            final(self).photos == old(self).photos,
            final(self).rotation == old(self).rotation,
            final(self).changerate == old(self).changerate,
            final(self).store.path == old(self).store.path,
            final(self).store.capacity == old(self).store.capacity,
            r is Ok <==> !old(self).store.spec_paths().contains(
                filepath_of(old(self).store.path@, url@),
            ),
            (r matches Ok(p) ==> p@ == filepath_of(old(self).store.path@, url@) && final(self).store.spec_urls() == old(self).store.spec_urls().push(url@) && final(self).store.spec_paths() == old(self).store.spec_paths().push(
                filepath_of(old(self).store.path@, url@),
            ) && final(self).store.spec_size() == old(self).store.spec_size() + 1 && final(self).store.spec_paths().contains(filepath_of(old(self).store.path@, url@))),
            (r matches Err(StoreError::WallpaperAlreadyExists(p)) ==> p@ == filepath_of(
                old(self).store.path@,
                url@,
            ) && final(self).store == old(self).store),
    {
        let r = self.store.save_wallpaper(url);
        proof {
            assert(self.store.spec_paths().len() == self.store.entries@.len());
            assert(old(self).store.spec_paths().len() == old(self).store.entries@.len());
        }
        r
    }

    /// A failed download changes nothing: in particular the page counter
    /// does not move, and the rotation half of the same tick is unaffected.
    pub fn on_download_failed(&mut self)
        ensures
            *final(self) == *old(self),
    {
    }

    /// The rotation half of a tick: hands out the next path of the current
    /// round, or, when the round is exhausted, re-arms with a fresh ordered
    /// enumeration of the store, which wraps the rotation to the oldest
    /// entry on the next tick.
    pub fn rotation_step(&mut self) -> (r: Option<String>)
        ensures
            final(self).manager == old(self).manager,
            final(self).store == old(self).store,
            final(self).photos == old(self).photos,
            final(self).changerate == old(self).changerate,
            old(self).rotation@.len() > 0 ==> (r matches Some(p) && p == old(self).rotation@[0]
                && final(self).rotation@ == old(self).rotation@.drop_first()),
            old(self).rotation@.len() == 0 ==> r is None && final(self).rotation@.len() == old(self).store.spec_size() && (forall|i: int|
                0 <= i < final(self).rotation@.len() ==> final(self).rotation@[i]@ == old(self).store.spec_paths()[i]),
    {
        if self.rotation.len() == 0 {
            self.rotation = self.store.iter_wallpapers();
            None
        } else {
            let p = self.rotation.remove(0);
            proof {
                assert(self.rotation@ =~= old(self).rotation@.drop_first());
            }
            Some(p)
        }
    }

    /// The commands that paint `path` as wallpaper and as screensaver, as
    /// this engine's manager decides them.
    pub fn present(&self, path: &str) -> (r: (Option<ShellCommand>, Option<ShellCommand>))
        ensures
            command_view(r.0) == self.manager.wallpaper_action(path@),
            command_view(r.1) == self.manager.screensaver_action(path@),
    {
        (self.manager.set_wallpaper(path), self.manager.set_screensaver(path))
    }
}

/// However the engine is driven, a well-formed state never holds more
/// entries than its capacity: eviction precedes insertion within a tick, and
/// every engine step preserves well-formedness.
pub proof fn lemma_store_within_capacity<M: WallpaperAndScreensaver>(b: &Bliss<M>)
    requires
        b.wf(),
    ensures
        b.store.spec_size() <= b.store.capacity,
{
}

/// A freshly re-armed rotation round visits every stored entry exactly once
/// before it wraps: the queue lists the store's paths in creation order, and
/// under well-formedness no path appears twice.
pub proof fn lemma_rotation_covers_store<M: WallpaperAndScreensaver>(b: &Bliss<M>)
    requires
        b.wf(),
        b.rotation@.len() == b.store.spec_size(),
        forall|i: int|
            0 <= i < b.rotation@.len() ==> #[trigger] b.rotation@[i]@ == b.store.spec_paths()[i],
    ensures
        forall|i: int, j: int|
            #![trigger b.rotation@[i]@, b.rotation@[j]@]
            0 <= i < j < b.rotation@.len() ==> b.rotation@[i]@ != b.rotation@[j]@,
        forall|i: int|
            0 <= i < b.store.spec_size() ==> #[trigger] b.rotation@[i]@ == b.store.spec_paths()[i],
{
    assert forall|i: int, j: int|
        #![trigger b.rotation@[i]@, b.rotation@[j]@]
        0 <= i < j < b.rotation@.len() implies b.rotation@[i]@ != b.rotation@[j]@ by {
        assert(b.rotation@[i]@ == b.store.spec_paths()[i]);
        assert(b.rotation@[j]@ == b.store.spec_paths()[j]);
        assert(b.store.spec_paths()[i] != b.store.spec_paths()[j]);
    }
}

} // verus!
