//! Bounded local wallpaper store.
//!
//! Each downloaded image is kept under a deterministic, path-safe filename
//! derived from its source URL: the base64 encoding of the URL with `/`
//! replaced by `_`, plus a `.jpg` suffix.  The store is an ordered index of
//! entries, oldest first; insertion detects duplicates by that deterministic
//! path, and eviction always removes the oldest entry.

use vstd::prelude::*;
use vstd::utf8::is_ascii_chars;

verus! {

/// The base64 rendering (standard alphabet, padded) of a string's bytes.
pub uninterp spec fn base64_of(s: Seq<char>) -> Seq<char>;

/// Relies on base64's `STANDARD` engine `encode`: the result is a function of
/// the input bytes alone; it uses only the standard alphabet
/// (`A`-`Z`, `a`-`z`, `0`-`9`, `+`, `/`) plus `=` padding, so it is ASCII and
/// never contains `_`; and encoding is reversed by decoding, so no other
/// input shares this output.
#[verifier::external_body]
fn encode_base64(s: &str) -> (r: String)
    ensures
        r@ == base64_of(s@),
        is_ascii_chars(r@),
        forall|i: int| 0 <= i < r@.len() ==> r@[i] != '_',
        forall|t: Seq<char>| base64_of(t) == r@ ==> t == s@,
{
    base64::engine::Engine::encode(&base64::engine::general_purpose::STANDARD, s.as_bytes())
}

/// `s` with every path separator `/` replaced by `_`.
pub open spec fn sanitize(s: Seq<char>) -> Seq<char> {
    s.map_values(
        |c: char|
            if c == '/' {
                '_'
            } else {
                c
            },
    )
}

/// The stored filename for an encoded URL: path-safe encoding plus extension.
pub open spec fn spec_filename_from_encoding(enc: Seq<char>) -> Seq<char> {
    sanitize(enc) + ".jpg"@
}

/// The deterministic filename for a source URL.
pub open spec fn filename_of(url: Seq<char>) -> Seq<char> {
    spec_filename_from_encoding(base64_of(url))
}

/// The full path of the file a source URL is stored under, inside `dir`.
pub open spec fn filepath_of(dir: Seq<char>, url: Seq<char>) -> Seq<char> {
    dir + "/"@ + filename_of(url)
}

fn sanitize_exec(s: &str) -> (r: String)
    requires
        is_ascii_chars(s@),
    ensures
        r@ == sanitize(s@),
{
    let mut out = String::new();
    let len = s.unicode_len();
    let mut i: usize = 0;
    while i < len
        invariant
            len == s@.len(),
            i <= len,
            is_ascii_chars(s@),
            out@ == sanitize(s@.subrange(0, i as int)),
        decreases len - i,
    {
        let c = s.get_char(i);
        if c == '/' {
            out.append("_");
            proof {
                reveal_strlit("_");
            }
        } else {
            out.append(s.substring_ascii(i, i + 1));
        }
        proof {
            assert(s@.subrange(0, i + 1 as int).drop_last() =~= s@.subrange(0, i as int));
            assert(s@.subrange(i as int, i + 1 as int) =~= seq![s@[i as int]]);
            assert(out@ =~= sanitize(s@.subrange(0, i + 1 as int)));
        }
        i += 1;
    }
    proof {
        assert(s@.subrange(0, len as int) =~= s@);
    }
    out
}

/// Turns an encoded URL into the stored filename: `/` becomes `_`, then the
/// `.jpg` extension is appended.
pub fn filename_from_encoding(enc: &str) -> (r: String)
    requires
        is_ascii_chars(enc@),
    ensures
        r@ == spec_filename_from_encoding(enc@),
{
    sanitize_exec(enc).concat(".jpg")
}

fn filename_for(url: &str) -> (r: String)
    ensures
        r@ == filename_of(url@),
{
    let enc = encode_base64(url);
    filename_from_encoding(enc.as_str())
}

/// The filenames of two references.  The derivation is a function of the URL
/// alone, so the same URL always maps to the same filename; and it is
/// injective: distinct URLs never share one.
pub fn filename_pair(u1: &str, u2: &str) -> (r: (String, String))
    ensures
        r.0@ == filename_of(u1@),
        r.1@ == filename_of(u2@),
        u1@ != u2@ ==> r.0@ != r.1@,
{
    let e1 = encode_base64(u1);
    let e2 = encode_base64(u2);
    proof {
        if u1@ != u2@ {
            assert(e1@ != e2@);
            lemma_filename_from_encoding_injective(e1@, e2@);
        }
    }
    (filename_from_encoding(e1.as_str()), filename_from_encoding(e2.as_str()))
}

/// Replacing `/` keeps distinct inputs distinct as long as neither input
/// already holds a `_`: on such inputs the replacement renames one character
/// to a fresh one.
proof fn lemma_sanitize_injective(a: Seq<char>, b: Seq<char>)
    requires
        a != b,
        forall|i: int| 0 <= i < a.len() ==> a[i] != '_',
        forall|i: int| 0 <= i < b.len() ==> b[i] != '_',
    ensures
        sanitize(a) != sanitize(b),
{
    if sanitize(a) == sanitize(b) {
        assert(sanitize(a).len() == a.len());
        assert(sanitize(b).len() == b.len());
        assert(a.len() == b.len());
        assert forall|i: int| 0 <= i < a.len() implies a[i] == b[i] by {
            assert(sanitize(a)[i] == sanitize(b)[i]);
        }
        assert(a =~= b);
    }
}

/// The filename derivation is injective on distinct, path-safe encodings:
/// two different encoded URLs always receive different filenames.  The
/// encoder's contract supplies the hypotheses at every call: distinct URLs
/// get distinct encodings, and an encoding never contains `_`.
pub proof fn lemma_filename_from_encoding_injective(a: Seq<char>, b: Seq<char>)
    requires
        a != b,
        forall|i: int| 0 <= i < a.len() ==> a[i] != '_',
        forall|i: int| 0 <= i < b.len() ==> b[i] != '_',
    ensures
        spec_filename_from_encoding(a) != spec_filename_from_encoding(b),
{
    lemma_sanitize_injective(a, b);
    if spec_filename_from_encoding(a) == spec_filename_from_encoding(b) {
        assert(spec_filename_from_encoding(a).len() == sanitize(a).len() + ".jpg"@.len());
        assert(spec_filename_from_encoding(b).len() == sanitize(b).len() + ".jpg"@.len());
        assert(sanitize(a).len() == sanitize(b).len());
        assert forall|i: int| 0 <= i < sanitize(a).len() implies sanitize(a)[i] == sanitize(b)[i] by {
            assert(spec_filename_from_encoding(a)[i] == spec_filename_from_encoding(b)[i]);
        }
        assert(sanitize(a) =~= sanitize(b));
    }
}

/// A failed lookup followed by an insertion makes the looked-up path present,
/// so the deterministic path of a just-inserted reference is always found by
/// the next lookup: the second insertion of the same reference is rejected.
pub proof fn lemma_duplicate_insert_rejected(paths: Seq<Seq<char>>, fp: Seq<char>)
    requires
        !paths.contains(fp),
    ensures
        paths.push(fp).contains(fp),
        forall|i: int| 0 <= i < paths.len() ==> paths[i] != fp,
{
    assert(paths.push(fp).last() == fp);
    assert forall|i: int| 0 <= i < paths.len() implies paths[i] != fp by {
        if paths[i] == fp {
            assert(paths.contains(fp));
        }
    }
}

/// Why an insertion was refused.
pub enum StoreError {
    /// The deterministic path for the reference is already present; carries
    /// that existing path.
    WallpaperAlreadyExists(String),
}

/// One stored wallpaper: its source URL and the file it lives in.
pub struct StoreEntry {
    pub url: String,
    pub filepath: String,
}

/// The bounded wallpaper store: a directory path, a capacity, and the ordered
/// index of entries, oldest first.  Capacity policy lives in the engine; the
/// store only offers the primitives.
pub struct Store {
    pub path: String,
    pub capacity: usize,
    pub entries: Vec<StoreEntry>,
}

impl Store {
    /// The stored file paths, in creation order.
    pub open spec fn spec_paths(&self) -> Seq<Seq<char>> {
        self.entries@.map_values(|e: StoreEntry| e.filepath@)
    }

    /// The stored source URLs, in creation order.
    pub open spec fn spec_urls(&self) -> Seq<Seq<char>> {
        self.entries@.map_values(|e: StoreEntry| e.url@)
    }

    pub open spec fn spec_size(&self) -> nat {
        self.entries@.len()
    }

    /// No two entries share a file: the deterministic naming makes the path
    /// a key.
    pub open spec fn wf(&self) -> bool {
        forall|i: int, j: int|
            0 <= i < j < self.spec_paths().len() ==> self.spec_paths()[i] != self.spec_paths()[j]
    }

    pub fn new(path: String, capacity: usize) -> (s: Store)
        ensures
            s.path == path,
            s.capacity == capacity,
            s.spec_size() == 0,
            s.wf(),
    {
        Store { path, capacity, entries: Vec::new() }
    }

    pub fn set_capacity(&mut self, capacity: usize)
        ensures
            final(self).capacity == capacity,
            final(self).path == old(self).path,
            final(self).entries == old(self).entries,
    {
        self.capacity = capacity;
    }

    /// The number of currently stored wallpapers.
    pub fn size(&self) -> (r: usize)
        ensures
            r == self.spec_size(),
    {
        self.entries.len()
    }

    /// The deterministic path the given URL is (or would be) stored under.
    pub fn get_filepath(&self, url: &str) -> (r: String)
        ensures
            r@ == filepath_of(self.path@, url@),
    {
        let mut r = self.path.clone();
        r.append("/");
        let name = filename_for(url);
        r.append(name.as_str());
        proof {
            assert(r@ =~= filepath_of(self.path@, url@));
        }
        r
    }

    /// Whether the deterministic path for this URL is already present.
    pub fn contains(&self, url: &str) -> (r: bool)
        ensures
            r == self.spec_paths().contains(filepath_of(self.path@, url@)),
    {
        let fp = self.get_filepath(url);
        let mut i: usize = 0;
        while i < self.entries.len()
            invariant
                i <= self.entries@.len(),
                fp@ == filepath_of(self.path@, url@),
                forall|j: int| 0 <= j < i ==> self.spec_paths()[j] != fp@,
            decreases self.entries@.len() - i,
        {
            if self.entries[i].filepath.eq(&fp) {
                proof {
                    assert(self.spec_paths()[i as int] == fp@);
                }
                return true;
            }
            i += 1;
        }
        proof {
            if self.spec_paths().contains(fp@) {
                let k = choose|k: int| 0 <= k < self.spec_paths().len() && self.spec_paths()[k] == fp@;
                assert(self.spec_paths()[k] != fp@);
            }
        }
        false
    }

    /// Records a downloaded wallpaper.  Succeeds exactly when the
    /// deterministic path for `url` is absent, appending one entry and
    /// returning the path to write the image to; a duplicate is rejected with
    /// the existing path and changes nothing.
    pub fn save_wallpaper(&mut self, url: &str) -> (r: Result<String, StoreError>)
        ensures
            final(self).path == old(self).path,
            final(self).capacity == old(self).capacity,
            r is Ok <==> !old(self).spec_paths().contains(
                filepath_of(old(self).path@, url@),
            ),
            (r matches Ok(p) ==> p@ == filepath_of(old(self).path@, url@)
                && final(self).spec_urls() == old(self).spec_urls().push(url@)
                && final(self).spec_paths() == old(self).spec_paths().push(
                    filepath_of(old(self).path@, url@),
                ) && final(self).spec_size() == old(self).spec_size() + 1 && final(self).spec_paths().contains(filepath_of(old(self).path@, url@))),
            (r matches Err(StoreError::WallpaperAlreadyExists(p)) ==> p@ == filepath_of(
                old(self).path@,
                url@,
            ) && *final(self) == *old(self)),
            old(self).wf() ==> final(self).wf(),
    {
        let filepath = self.get_filepath(url);
        if self.contains(url) {
            return Err(StoreError::WallpaperAlreadyExists(filepath));
        }
        let entry = StoreEntry { url: url.to_owned(), filepath: filepath.clone() };
        self.entries.push(entry);
        proof {
            let fp = filepath_of(old(self).path@, url@);
            assert(self.spec_urls() =~= old(self).spec_urls().push(url@));
            assert(self.spec_paths() =~= old(self).spec_paths().push(fp));
            lemma_duplicate_insert_rejected(old(self).spec_paths(), fp);
            if old(self).wf() {
                assert forall|i: int, j: int|
                    0 <= i < j < self.spec_paths().len() implies self.spec_paths()[i]
                    != self.spec_paths()[j] by {
                    if j < self.spec_paths().len() - 1 {
                        assert(old(self).spec_paths()[i] != old(self).spec_paths()[j]);
                    } else {
                        assert(old(self).spec_paths()[i] != fp);
                    }
                }
            }
        }
        Ok(filepath)
    }

    /// The path of the oldest stored wallpaper, if any.
    pub fn oldest_wallpaper(&self) -> (r: Option<String>)
        ensures
            match r {
                Some(p) => self.spec_size() > 0 && p@ == self.spec_paths()[0],
                None => self.spec_size() == 0,
            },
    {
        if self.entries.len() == 0 {
            None
        } else {
            Some(self.entries[0].filepath.clone())
        }
    }

    /// Removes the entry stored at `filepath`; without one, changes nothing.
    pub fn remove_wallpaper(&mut self, filepath: &str)
        ensures
            final(self).path == old(self).path,
            final(self).capacity == old(self).capacity,
            !old(self).spec_paths().contains(filepath@) ==> *final(self) == *old(self),
            old(self).spec_paths().contains(filepath@) ==> exists|i: int|
                0 <= i < old(self).entries@.len() && old(self).spec_paths()[i] == filepath@
                    && (forall|j: int| 0 <= j < i ==> old(self).spec_paths()[j] != filepath@)
                    && final(self).entries@ == old(self).entries@.remove(i),
            old(self).wf() ==> final(self).wf(),
    {
        let mut i: usize = 0;
        while i < self.entries.len()
            invariant
                *self == *old(self),
                i <= self.entries@.len(),
                forall|j: int| 0 <= j < i ==> self.spec_paths()[j] != filepath@,
            decreases self.entries@.len() - i,
        {
            if crate::text::str_eq(self.entries[i].filepath.as_str(), filepath) {
                let ghost i0 = i as int;
                let ghost paths0 = old(self).spec_paths();
                proof {
                    assert(paths0[i0] == filepath@);
                    assert(paths0.contains(filepath@));
                }
                self.entries.remove(i);
                proof {
                    assert(self.entries@ == old(self).entries@.remove(i0));
                    assert(self.spec_paths() =~= paths0.remove(i0));
                    paths0.remove_ensures(i0);
                    if old(self).wf() {
                        assert forall|a: int, b: int|
                            0 <= a < b < self.spec_paths().len() implies self.spec_paths()[a]
                            != self.spec_paths()[b] by {
                            let ai: int = if a < i0 {
                                a
                            } else {
                                a + 1
                            };
                            let bi: int = if b < i0 {
                                b
                            } else {
                                b + 1
                            };
                            assert(self.spec_paths()[a] == paths0[ai]);
                            assert(self.spec_paths()[b] == paths0[bi]);
                            assert(paths0[ai] != paths0[bi]);
                        }
                    }
                }
                return ;
            }
            i += 1;
        }
        proof {
            if self.spec_paths().contains(filepath@) {
                let k = choose|k: int|
                    0 <= k < self.spec_paths().len() && self.spec_paths()[k] == filepath@;
                assert(self.spec_paths()[k] != filepath@);
            }
        }
    }

    /// A fresh ordered enumeration of the stored file paths, oldest first.
    pub fn iter_wallpapers(&self) -> (r: Vec<String>)
        ensures
            r@.len() == self.spec_size(),
            forall|i: int| 0 <= i < r@.len() ==> r@[i]@ == self.spec_paths()[i],
    {
        let mut r: Vec<String> = Vec::new();
        let mut i: usize = 0;
        while i < self.entries.len()
            invariant
                i <= self.entries@.len(),
                r@.len() == i,
                forall|j: int| 0 <= j < i ==> r@[j]@ == self.spec_paths()[j],
            decreases self.entries@.len() - i,
        {
            r.push(self.entries[i].filepath.clone());
            i += 1;
        }
        r
    }
}

impl Default for Store {
    /// The conventional store: a per-user wallpaper directory, ten entries.
    fn default() -> (s: Store)
        ensures
            s.path@ == ".blisspaper/wallpapers"@,
            s.capacity == 10,
            s.spec_size() == 0,
            s.wf(),
    {
        Store { path: ".blisspaper/wallpapers".to_owned(), capacity: 10, entries: Vec::new() }
    }
}

} // verus!
