//! Plain value objects mirroring the external catalog's user and track
//! responses.  Decoding the wire format into these values happens outside
//! the library; mapping them onto the library's own types happens here.

use vstd::prelude::*;
use crate::song::Song;
use crate::user::{User, UserV};

verus! {

/// A member profile as the external catalog reports it.
pub struct SoundcloudUser {
    pub id: u32,
    pub username: String,
    pub uri: String,
    pub permalink_url: String,
    pub avatar_url: String,
}

/// A track as the external catalog reports it.
pub struct SoundcloudTrack {
    pub id: u32,
    pub user_id: u32,
    pub duration_ms: u32,
    pub sharing: String,
    pub title: String,
    pub permalink: String,
    pub permalink_url: String,
    pub artwork_url: Option<String>,
    pub stream_url: String,
    pub user: SoundcloudUser,
}

impl From<SoundcloudUser> for User {
    /// A fresh user: catalog identity fields carried over, no playlists yet
    /// and no active playlist.
    fn from(s_user: SoundcloudUser) -> (u: User)
        ensures
            u@ == (UserV {
                id: s_user.id,
                username: s_user.username,
                avatar_url: s_user.avatar_url,
                permalink_url: s_user.permalink_url,
                active_playlist: None,
                playlists: Seq::empty(),
            }),
            u@.wf(),
    {
        let u = User::new(s_user.id, s_user.username, s_user.avatar_url, s_user.permalink_url);
        u
    }
}

impl vstd::std_specs::convert::FromSpecImpl<SoundcloudUser> for User {
    open spec fn obeys_from_spec() -> bool {
        false
    }

    open spec fn from_spec(v: SoundcloudUser) -> User {
        arbitrary()
    }
}

impl From<SoundcloudTrack> for Song {
    /// The track's fields carried over; the owning user's name comes from
    /// the embedded user profile.
    fn from(s_track: SoundcloudTrack) -> (s: Song)
        ensures
            s == (Song {
                id: s_track.id,
                user_id: s_track.user_id,
                duration_ms: s_track.duration_ms,
                username: s_track.user.username,
                title: s_track.title,
                sharing: s_track.sharing,
                permalink: s_track.permalink,
                permalink_url: s_track.permalink_url,
                artwork_url: s_track.artwork_url,
                stream_url: s_track.stream_url,
            }),
    {
        Song {
            id: s_track.id,
            user_id: s_track.user_id,
            duration_ms: s_track.duration_ms,
            username: s_track.user.username,
            title: s_track.title,
            sharing: s_track.sharing,
            permalink: s_track.permalink,
            permalink_url: s_track.permalink_url,
            artwork_url: s_track.artwork_url,
            stream_url: s_track.stream_url,
        }
    }
}

impl vstd::std_specs::convert::FromSpecImpl<SoundcloudTrack> for Song {
    open spec fn obeys_from_spec() -> bool {
        false
    }

    open spec fn from_spec(v: SoundcloudTrack) -> Song {
        arbitrary()
    }
}

} // verus!
