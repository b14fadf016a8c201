//! The immutable value object describing one track.

use vstd::prelude::*;

verus! {

/// A track, as produced by mapping external catalog data.  Immutable once
/// constructed: no method of this type mutates it.
#[derive(Debug, PartialEq)]
pub struct Song {
    pub id: u32,
    pub user_id: u32,
    pub duration_ms: u32,
    pub username: String,
    pub title: String,
    pub sharing: String,
    pub permalink: String,
    pub permalink_url: String,
    pub artwork_url: Option<String>,
    pub stream_url: String,
}

impl Song {
    pub fn new(
        id: u32,
        user_id: u32,
        duration_ms: u32,
        username: String,
        title: String,
        sharing: String,
        permalink: String,
        permalink_url: String,
        artwork_url: Option<String>,
        stream_url: String,
    ) -> (s: Song)
        ensures
            s == (Song {
                id,
                user_id,
                duration_ms,
                username,
                title,
                sharing,
                permalink,
                permalink_url,
                artwork_url,
                stream_url,
            }),
    {
        Song {
            id,
            user_id,
            duration_ms,
            username,
            title,
            sharing,
            permalink,
            permalink_url,
            artwork_url,
            stream_url,
        }
    }

    pub fn id(&self) -> (r: u32)
        ensures
            r == self.id,
    {
        self.id
    }
}

impl Clone for Song {
    fn clone(&self) -> (r: Self)
        ensures
            r == *self,
    {
        Song {
            id: self.id,
            user_id: self.user_id,
            duration_ms: self.duration_ms,
            username: self.username.clone(),
            title: self.title.clone(),
            sharing: self.sharing.clone(),
            permalink: self.permalink.clone(),
            permalink_url: self.permalink_url.clone(),
            artwork_url: match &self.artwork_url {
                Some(url) => Some(url.clone()),
                None => None,
            },
            stream_url: self.stream_url.clone(),
        }
    }
}

} // verus!
