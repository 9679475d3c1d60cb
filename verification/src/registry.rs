//! The registry of per-site content downloaders: a name-keyed lookup,
//! case-insensitive and miss-safe (an unknown site is a no-op, not an
//! error).  The transfers themselves run outside the library; the registry
//! decides which sites have one.

use crate::text::lower_of;
use crate::text::lowercase;
use vstd::prelude::*;

verus! {

/// The sites with a registered downloader, held by lowercased name.
pub struct DownloaderRegistry {
    names: Vec<String>,
}

impl DownloaderRegistry {
    /// The registered names, lowercased, in registration order.
    pub closed spec fn names_view(self) -> Seq<Seq<char>> {
        self.names.deep_view()
    }

    /// A registry with the built-in downloader registered.
    pub fn new() -> (r: DownloaderRegistry)
        ensures
            r.names_view() == seq![lower_of("instagram"@)],
    {
        let mut r = DownloaderRegistry { names: Vec::new() };
        r.register("instagram");
        proof {
            assert(Seq::<Seq<char>>::empty().push(lower_of("instagram"@)) =~= seq![
                lower_of("instagram"@),
            ]);
        }
        r
    }

    /// Whether `key` is among the registered names.
    fn contains_name(&self, key: &String) -> (r: bool)
        ensures
            r == self.names_view().contains(key@),
    {
        let len: usize = self.names.len();
        let mut i: usize = 0;
        while i < len
            invariant
                i <= len,
                len == self.names@.len(),
                self.names_view().len() == len,
                forall|k: int| 0 <= k < len ==> self.names_view()[k] == self.names@[k]@,
                forall|k: int| 0 <= k < i ==> self.names_view()[k] != key@,
            decreases len - i,
        {
            if self.names[i] == *key {
                assert(self.names_view()[i as int] == key@);
                return true;
            }
            i = i + 1;
        }
        assert forall|k: int| 0 <= k < self.names_view().len() implies self.names_view()[k]
            != key@ by {}
        false
    }

    /// Register a downloader for a site.  The name is kept lowercased;
    /// registering the same site twice leaves the registry unchanged.
    pub fn register(&mut self, site: &str)
        ensures
            final(self).names_view() == (if old(self).names_view().contains(lower_of(site@)) {
                old(self).names_view()
            } else {
                old(self).names_view().push(lower_of(site@))
            }),
    {
        let key: String = lowercase(site);
        if !self.contains_name(&key) {
            self.names.push(key);
        }
    }

    /// Whether a downloader is registered for the site, compared
    /// case-insensitively: a miss means nothing is to be done.
    pub fn has_downloader(&self, site: &str) -> (r: bool)
        ensures
            r == self.names_view().contains(lower_of(site@)),
    {
        let key: String = lowercase(site);
        self.contains_name(&key)
    }

    /// The registered names.
    pub fn list_available(&self) -> (r: Vec<String>)
        ensures
            r.deep_view() == self.names_view(),
    {
        let len: usize = self.names.len();
        let mut r: Vec<String> = Vec::new();
        let mut i: usize = 0;
        while i < len
            invariant
                i <= len,
                len == self.names@.len(),
                self.names_view().len() == len,
                forall|k: int| 0 <= k < len ==> self.names_view()[k] == self.names@[k]@,
                r.deep_view().len() == i,
                forall|k: int| 0 <= k < i ==> r.deep_view()[k] == self.names_view()[k],
            decreases len - i,
        {
            r.push(self.names[i].clone());
            assert(r.deep_view()[i as int] == self.names@[i as int]@);
            i = i + 1;
        }
        assert(r.deep_view() =~= self.names_view());
        r
    }
}

} // verus!
