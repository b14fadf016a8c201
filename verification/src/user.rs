//! The user aggregate: identity fields, a set of playlists keyed by id, and
//! an optional "active playlist" selector.

use vstd::prelude::*;
use crate::playlist::{Playlist, PlaylistV, rotate_once};

verus! {

/// `i` is the index of the first playlist in `s` carrying the id `pid`.
pub open spec fn is_first_match(s: Seq<PlaylistV>, pid: u128, i: int) -> bool {
    &&& 0 <= i < s.len()
    &&& s[i].id == pid
    &&& forall|k: int| 0 <= k < i ==> s[k].id != pid
}

/// The index of the first playlist in `s` carrying the id `pid`; meaningful
/// only when such a playlist exists.
pub open spec fn first_match_index(s: Seq<PlaylistV>, pid: u128) -> int {
    choose|i: int| is_first_match(s, pid, i)
}

/// A playlist after one rotation step of its songs.
pub open spec fn cycled(p: PlaylistV) -> PlaylistV {
    PlaylistV { songs: rotate_once(p.songs), ..p }
}

/// A user after `n` rotation steps of the playlist with id `pid`.
pub open spec fn spec_cycle_n(u: UserV, pid: u128, n: nat) -> UserV
    decreases n,
{
    if n == 0 {
        u
    } else {
        spec_cycle_n(u, pid, (n - 1) as nat).spec_cycle(pid)
    }
}

/// A member: identity data plus their playlists.  The playlist list plays the
/// role of a map keyed by playlist id: well-formed users hold no two
/// playlists with the same id.
#[derive(Debug, PartialEq)]
pub struct User {
    pub id: u32,
    pub username: String,
    pub avatar_url: String,
    pub permalink_url: String,
    pub active_playlist: Option<u128>,
    pub playlists: Vec<Playlist>,
}

/// The mathematical value of a [`User`].
#[verifier::ext_equal]
pub struct UserV {
    pub id: u32,
    pub username: String,
    pub avatar_url: String,
    pub permalink_url: String,
    pub active_playlist: Option<u128>,
    pub playlists: Seq<PlaylistV>,
}

impl View for User {
    type V = UserV;

    open spec fn view(&self) -> UserV {
        UserV {
            id: self.id,
            username: self.username,
            avatar_url: self.avatar_url,
            permalink_url: self.permalink_url,
            active_playlist: self.active_playlist,
            playlists: self.playlists@.map_values(|p: Playlist| p@),
        }
    }
}

impl UserV {
    /// Playlist ids are unique within one user.
    pub open spec fn wf(self) -> bool {
        forall|i: int, j: int|
            0 <= i < j < self.playlists.len() ==> self.playlists[i].id != self.playlists[j].id
    }

    /// Whether the user owns a playlist with the given id.
    pub open spec fn contains_playlist(self, pid: u128) -> bool {
        exists|i: int| 0 <= i < self.playlists.len() && self.playlists[i].id == pid
    }

    /// The first playlist carrying the given id, if any.
    pub open spec fn spec_playlist(self, pid: u128) -> Option<PlaylistV> {
        if exists|i: int| is_first_match(self.playlists, pid, i) {
            Some(self.playlists[first_match_index(self.playlists, pid)])
        } else {
            None
        }
    }

    /// The user after rotating the playlist with the given id once; the user
    /// unchanged if no playlist carries that id.
    pub open spec fn spec_cycle(self, pid: u128) -> UserV {
        if exists|i: int| is_first_match(self.playlists, pid, i) {
            let i = first_match_index(self.playlists, pid);
            UserV { playlists: self.playlists.update(i, cycled(self.playlists[i])), ..self }
        } else {
            self
        }
    }
}

impl User {
    pub fn id(&self) -> (r: u32)
        ensures
            r == self.id,
    {
        self.id
    }

    pub fn new(user_id: u32, username: String, avatar_url: String, permalink_url: String) -> (u:
        User)
        ensures
            u@ == (UserV {
                id: user_id,
                username,
                avatar_url,
                permalink_url,
                active_playlist: None,
                playlists: Seq::empty(),
            }),
            u@.wf(),
    {
        let u = User {
            id: user_id,
            username,
            avatar_url,
            permalink_url,
            active_playlist: None,
            playlists: Vec::new(),
        };
        proof {
            assert(u@.playlists =~= Seq::<PlaylistV>::empty());
        }
        u
    }

    pub fn active_playlist(&self) -> (r: Option<u128>)
        ensures
            r == self.active_playlist,
    {
        self.active_playlist
    }

    pub fn set_active_playlist(&mut self, playlist_id: u128)
        ensures
            final(self)@ == (UserV { active_playlist: Some(playlist_id), ..old(self)@ }),
    {
        self.active_playlist = Some(playlist_id);
    }

    fn clear_active_playlist(&mut self)
        ensures
            final(self)@ == (UserV { active_playlist: None, ..old(self)@ }),
    {
        self.active_playlist = None;
    }

    /// The first playlist carrying the given id; well-formed users hold at
    /// most one.
    pub fn get_playlist(&self, playlist_id: u128) -> (r: Option<&Playlist>)
        ensures
            match r {
                Some(p) => self@.spec_playlist(playlist_id) == Some(p@) && p.id == playlist_id,
                None => !self@.contains_playlist(playlist_id) && self@.spec_playlist(playlist_id)
                    is None,
            },
    {
        let n: usize = self.playlists.len();
        let mut i: usize = 0;
        while i < n
            invariant
                n == self.playlists.len(),
                i <= n,
                forall|k: int| 0 <= k < i ==> self@.playlists[k].id != playlist_id,
            decreases n - i,
        {
            if self.playlists[i].id == playlist_id {
                proof {
                    assert(self@.playlists[i as int] == self.playlists@[i as int]@);
                    assert(is_first_match(self@.playlists, playlist_id, i as int));
                    lemma_first_match_unique(self@.playlists, playlist_id, i as int);
                }
                return Some(&self.playlists[i]);
            }
            i += 1;
        }
        None
    }

    /// Stores the playlist under its id: a playlist with the same id is
    /// replaced, otherwise the playlist is appended.
    pub fn add_playlist(&mut self, playlist: Playlist)
        requires
            old(self)@.wf(),
        ensures
            final(self)@.wf(),
            old(self)@.contains_playlist(playlist.id) ==> final(self)@ == (UserV {
                playlists: old(self)@.playlists.update(
                    first_match_index(old(self)@.playlists, playlist.id),
                    playlist@,
                ),
                ..old(self)@
            }),
            !old(self)@.contains_playlist(playlist.id) ==> final(self)@ == (UserV {
                playlists: old(self)@.playlists.push(playlist@),
                ..old(self)@
            }),
    {
        let pid: u128 = playlist.id;
        let n: usize = self.playlists.len();
        let mut i: usize = 0;
        while i < n
            invariant
                n == self.playlists.len(),
                *self == *old(self),
                self@.wf(),
                i <= n,
                forall|k: int| 0 <= k < i ==> self@.playlists[k].id != pid,
                pid == playlist.id,
            decreases n - i,
        {
            if self.playlists[i].id == pid {
                proof {
                    assert(is_first_match(self@.playlists, pid, i as int));
                    lemma_first_match_unique(self@.playlists, pid, i as int);
                }
                self.playlists[i] = playlist;
                proof {
                    assert(self@ =~= (UserV {
                        playlists: old(self)@.playlists.update(
                            first_match_index(old(self)@.playlists, pid),
                            playlist@,
                        ),
                        ..old(self)@
                    }));
                }
                return;
            }
            i += 1;
        }
        self.playlists.push(playlist);
        proof {
            assert(self@ =~= (UserV {
                playlists: old(self)@.playlists.push(playlist@),
                ..old(self)@
            }));
        }
    }

    /// Removes the playlist with the given id, if present; if it was the
    /// active playlist, the active-playlist selector is cleared first.
    pub fn remove_playlist(&mut self, playlist_id: u128)
        requires
            old(self)@.wf(),
        ensures
            final(self)@.wf(),
            final(self)@.active_playlist == (if old(self)@.active_playlist == Some(playlist_id) {
                None::<u128>
            } else {
                old(self)@.active_playlist
            }),
            final(self)@.id == old(self)@.id,
            final(self)@.username == old(self)@.username,
            final(self)@.avatar_url == old(self)@.avatar_url,
            final(self)@.permalink_url == old(self)@.permalink_url,
            !old(self)@.contains_playlist(playlist_id) ==> final(self)@.playlists == old(
                self,
            )@.playlists,
            old(self)@.contains_playlist(playlist_id) ==> exists|i: int|
                is_first_match(old(self)@.playlists, playlist_id, i) && final(self)@.playlists
                    == old(self)@.playlists.remove(i),
    {
        match self.active_playlist {
            Some(p_id) => {
                if p_id == playlist_id {
                    self.clear_active_playlist();
                }
            },
            None => {},
        }
        let n: usize = self.playlists.len();
        let mut i: usize = 0;
        while i < n
            invariant
                n == self.playlists.len(),
                self@.playlists == old(self)@.playlists,
                self@.wf(),
                self@.id == old(self)@.id,
                self@.username == old(self)@.username,
                self@.avatar_url == old(self)@.avatar_url,
                self@.permalink_url == old(self)@.permalink_url,
                self@.active_playlist == (if old(self)@.active_playlist == Some(playlist_id) {
                    None::<u128>
                } else {
                    old(self)@.active_playlist
                }),
                i <= n,
                forall|k: int| 0 <= k < i ==> self@.playlists[k].id != playlist_id,
            decreases n - i,
        {
            if self.playlists[i].id == playlist_id {
                proof {
                    assert(is_first_match(self@.playlists, playlist_id, i as int));
                }
                self.playlists.remove(i);
                proof {
                    assert(self@.playlists =~= old(self)@.playlists.remove(i as int));
                    lemma_playlists_remove_preserves_wf(old(self)@.playlists, i as int);
                }
                return;
            }
            i += 1;
        }
    }

    /// Rotates the playlist with the given id in place; a user with no such
    /// playlist is left unchanged.
    pub fn cycle_playlist(&mut self, playlist_id: u128)
        ensures
            final(self)@ == old(self)@.spec_cycle(playlist_id),
            old(self)@.wf() ==> final(self)@.wf(),
    {
        let n: usize = self.playlists.len();
        let mut i: usize = 0;
        while i < n
            invariant
                n == self.playlists.len(),
                *self == *old(self),
                i <= n,
                forall|k: int| 0 <= k < i ==> self@.playlists[k].id != playlist_id,
            decreases n - i,
        {
            if self.playlists[i].id == playlist_id {
                proof {
                    assert(is_first_match(self@.playlists, playlist_id, i as int));
                    lemma_first_match_unique(self@.playlists, playlist_id, i as int);
                }
                self.playlists[i].cycle_playlist();
                proof {
                    assert(cycled(old(self)@.playlists[i as int]) =~= self@.playlists[i as int]);
                    assert(self@ =~= old(self)@.spec_cycle(playlist_id));
                }
                return;
            }
            i += 1;
        }
    }

    pub fn playlist_count(&self) -> (r: usize)
        ensures
            r == self@.playlists.len(),
    {
        self.playlists.len()
    }
}

impl Clone for User {
    fn clone(&self) -> (r: Self)
        ensures
            r@ == self@,
    {
        let playlists = clone_playlists(&self.playlists);
        let r = User {
            id: self.id,
            username: self.username.clone(),
            avatar_url: self.avatar_url.clone(),
            permalink_url: self.permalink_url.clone(),
            active_playlist: self.active_playlist,
            playlists,
        };
        proof {
            assert(r@ =~= self@);
        }
        r
    }
}

fn clone_playlists(v: &Vec<Playlist>) -> (r: Vec<Playlist>)
    ensures
        r@.map_values(|p: Playlist| p@) == v@.map_values(|p: Playlist| p@),
{
    let n: usize = v.len();
    let mut r: Vec<Playlist> = Vec::new();
    let mut i: usize = 0;
    while i < n
        invariant
            n == v.len(),
            i <= n,
            r@.len() == i,
            forall|k: int| 0 <= k < i ==> r@[k]@ == v@[k]@,
        decreases n - i,
    {
        r.push(v[i].clone());
        i += 1;
    }
    proof {
        assert(r@.map_values(|p: Playlist| p@) =~= v@.map_values(|p: Playlist| p@));
    }
    r
}

/// A first match is unique: position `i` matching with no earlier match pins
/// `first_match_index` to `i`.
proof fn lemma_first_match_unique(s: Seq<PlaylistV>, pid: u128, i: int)
    requires
        is_first_match(s, pid, i),
    ensures
        first_match_index(s, pid) == i,
{
    let j = first_match_index(s, pid);
    assert(is_first_match(s, pid, j));
    if i < j {
        assert(s[i].id == pid);
        assert(false);
    } else if j < i {
        assert(s[j].id == pid);
        assert(false);
    }
}

/// Removing one playlist preserves the uniqueness of playlist ids.
proof fn lemma_playlists_remove_preserves_wf(s: Seq<PlaylistV>, i: int)
    requires
        0 <= i < s.len(),
        forall|x: int, y: int| 0 <= x < y < s.len() ==> s[x].id != s[y].id,
    ensures
        forall|x: int, y: int|
            0 <= x < y < s.remove(i).len() ==> s.remove(i)[x].id != s.remove(i)[y].id,
{
    let r = s.remove(i);
    assert forall|x: int, y: int| 0 <= x < y < r.len() implies r[x].id != r[y].id by {
        assert(r[x] == (if x < i {
            s[x]
        } else {
            s[x + 1]
        }));
        assert(r[y] == (if y < i {
            s[y]
        } else {
            s[y + 1]
        }));
    }
}

} // verus!
