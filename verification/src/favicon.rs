//! The site's icon, kept between requests for as long as the site names
//! the same address for it.

use crate::text::str_eq;
use vstd::prelude::*;

verus! {

/// The icon that was fetched last, with the address that it was fetched from.
pub struct FaviconCache {
    source: Option<String>,
    bytes: Vec<u8>,
}

/// What a [`FaviconCache`] holds.
pub struct FaviconCacheView {
    /// The address that the icon was fetched from; `None` before the first fetch.
    pub source: Option<Seq<char>>,
    pub bytes: Seq<u8>,
}

impl View for FaviconCache {
    type V = FaviconCacheView;

    closed spec fn view(&self) -> FaviconCacheView {
        FaviconCacheView {
            source: match self.source {
                Some(url) => Some(url@),
                None => None,
            },
            bytes: self.bytes@,
        }
    }
}

impl FaviconCache {
    /// A cache that holds no icon yet.
    pub fn new() -> (cache: FaviconCache)
        ensures
            cache@.source is None,
            cache@.bytes == Seq::<u8>::empty(),
    {
        FaviconCache { source: None, bytes: Vec::new() }
    }

    /// Whether the cache holds the icon of the address `current_url`.
    pub open spec fn is_fresh(&self, current_url: Seq<char>) -> bool {
        self@.source == Some(current_url)
    }

    /// The icon that the site names now, at `current_url`, if the cache
    /// holds it; `None` where the cache holds none, or that of another
    /// address, so that the icon has to be fetched.
    pub fn lookup(&self, current_url: &str) -> (icon: Option<&Vec<u8>>)
        ensures
            match icon {
                Some(bytes) => self.is_fresh(current_url@) && bytes@ == self@.bytes,
                None => !self.is_fresh(current_url@),
            },
    {
        match &self.source {
            Some(url) => {
                if str_eq(url.as_str(), current_url) {
                    Some(&self.bytes)
                } else {
                    None
                }
            },
            None => None,
        }
    }

    /// Puts the icon that was fetched from `url` in place of the one held
    /// so far: whoever writes last, wins.
    pub fn replace(&mut self, url: String, bytes: Vec<u8>)
        ensures
            final(self)@.source == Some(url@),
            final(self)@.bytes == bytes@,
            final(self).is_fresh(url@),
    {
        self.source = Some(url);
        self.bytes = bytes;
    }
}

/// After an icon is put in, the cache answers for its address, and for no other.
pub proof fn lemma_cache_answers_for_one_address(
    cache: FaviconCache,
    url: Seq<char>,
    other: Seq<char>,
)
    requires
        cache.is_fresh(url),
        other != url,
    ensures
        !cache.is_fresh(other),
{
}

} // verus!
