//! An ordered, cycling collection of songs owned by one user.

use vstd::prelude::*;
use std::collections::VecDeque;
use crate::song::Song;
use crate::ids::generate_id;

verus! {

/// One rotation step: the front element moves to the back; an empty sequence
/// is left as it is.
pub open spec fn rotate_once(s: Seq<Song>) -> Seq<Song> {
    if s.len() == 0 {
        s
    } else {
        s.skip(1).push(s[0])
    }
}

/// `n` rotation steps in a row.
pub open spec fn rotate_n(s: Seq<Song>, n: nat) -> Seq<Song>
    decreases n,
{
    if n == 0 {
        s
    } else {
        rotate_once(rotate_n(s, (n - 1) as nat))
    }
}

/// An ordered list of songs; the front (index 0) is the next to play.
#[derive(Debug, PartialEq)]
pub struct Playlist {
    pub id: u128,
    pub name: String,
    pub songs: VecDeque<Song>,
}

/// The mathematical value of a [`Playlist`]: its queue of songs as a sequence.
#[verifier::ext_equal]
pub struct PlaylistV {
    pub id: u128,
    pub name: String,
    pub songs: Seq<Song>,
}

impl View for Playlist {
    type V = PlaylistV;

    open spec fn view(&self) -> PlaylistV {
        PlaylistV { id: self.id, name: self.name, songs: self.songs@ }
    }
}

impl Playlist {
    /// No two entries share a song id.
    pub open spec fn wf(&self) -> bool {
        forall|i: int, j: int|
            0 <= i < j < self.songs@.len() ==> self.songs@[i].id != self.songs@[j].id
    }

    /// Whether some entry carries the given song id.
    pub open spec fn spec_contains_song(&self, song_id: u32) -> bool {
        exists|i: int| 0 <= i < self.songs@.len() && self.songs@[i].id == song_id
    }

    pub fn new(name: String) -> (p: Playlist)
        ensures
            p.name == name,
            p.songs@ == Seq::<Song>::empty(),
            p.wf(),
    {
        Playlist { id: generate_id(), name, songs: VecDeque::new() }
    }

    /// Appends the song to the back, unless a song with the same id is
    /// already present; a duplicate id leaves the playlist unchanged.
    pub fn add_song(&mut self, song: Song)
        requires
            old(self).wf(),
        ensures
            final(self).wf(),
            final(self).id == old(self).id,
            final(self).name == old(self).name,
            old(self).spec_contains_song(song.id) ==> final(self).songs@ == old(self).songs@,
            !old(self).spec_contains_song(song.id) ==> final(self).songs@ == old(self).songs@.push(
                song,
            ),
    {
        if self.contains_song(&song) {
            return;
        }
        self.songs.push_back(song);
    }

    /// Removes the entry carrying the given song id, if there is one; by
    /// well-formedness at most one entry can match.
    pub fn remove_song(&mut self, song_id: u32)
        requires
            old(self).wf(),
        ensures
            final(self).wf(),
            final(self).id == old(self).id,
            final(self).name == old(self).name,
            !old(self).spec_contains_song(song_id) ==> final(self).songs@ == old(self).songs@,
            old(self).spec_contains_song(song_id) ==> exists|i: int|
                0 <= i < old(self).songs@.len() && old(self).songs@[i].id == song_id
                    && final(self).songs@ == old(self).songs@.remove(i),
    {
        let n: usize = self.songs.len();
        let mut i: usize = 0;
        while i < n
            invariant
                n == self.songs@.len(),
                i <= n,
                *self == *old(self),
                self.wf(),
                forall|k: int| 0 <= k < i ==> self.songs@[k].id != song_id,
            decreases n - i,
        {
            if self.songs[i].id() == song_id {
                proof {
                    lemma_remove_preserves_wf(self.songs@, i as int);
                }
                self.songs.remove(i);
                return;
            }
            i += 1;
        }
    }

    /// Peeks the front song without mutating the playlist.
    pub fn top_song(&self) -> (r: Option<Song>)
        ensures
            match r {
                Some(s) => self.songs@.len() > 0 && s == self.songs@[0],
                None => self.songs@.len() == 0,
            },
    {
        if self.songs.len() > 0 {
            Some(self.songs[0].clone())
        } else {
            None
        }
    }

    /// Moves the front song to the back; a user plays their current top song,
    /// then it goes to the end of their own rotation for next time.
    pub fn cycle_playlist(&mut self)
        ensures
            final(self).id == old(self).id,
            final(self).name == old(self).name,
            final(self).songs@ == rotate_once(old(self).songs@),
            old(self).wf() ==> final(self).wf(),
    {
        proof {
            lemma_rotate_once_wf(self.songs@);
        }
        if let Some(first) = self.songs.pop_front() {
            self.songs.push_back(first);
        }
    }

    pub fn len(&self) -> (r: usize)
        ensures
            r == self.songs@.len(),
    {
        self.songs.len()
    }

    fn contains_song(&self, song: &Song) -> (r: bool)
        ensures
            r == self.spec_contains_song(song.id),
    {
        let n: usize = self.songs.len();
        let mut i: usize = 0;
        while i < n
            invariant
                n == self.songs@.len(),
                i <= n,
                forall|k: int| 0 <= k < i ==> self.songs@[k].id != song.id,
            decreases n - i,
        {
            if self.songs[i].id() == song.id() {
                return true;
            }
            i += 1;
        }
        false
    }
}

impl Clone for Playlist {
    fn clone(&self) -> (r: Self)
        ensures
            r@ == self@,
    {
        let songs = clone_songs(&self.songs);
        Playlist { id: self.id, name: self.name.clone(), songs }
    }
}

fn clone_songs(songs: &VecDeque<Song>) -> (r: VecDeque<Song>)
    ensures
        r@ == songs@,
{
    let r = songs.clone();
    proof {
        assert(r@ =~= songs@);
    }
    r
}

/// Removing one entry preserves the absence of duplicate song ids.
proof fn lemma_remove_preserves_wf(s: Seq<Song>, i: int)
    requires
        0 <= i < s.len(),
        forall|x: int, y: int| 0 <= x < y < s.len() ==> s[x].id != s[y].id,
    ensures
        forall|x: int, y: int|
            0 <= x < y < s.remove(i).len() ==> s.remove(i)[x].id != s.remove(i)[y].id,
{
    let r = s.remove(i);
    assert forall|x: int, y: int| 0 <= x < y < r.len() implies r[x].id != r[y].id by {
        assert(r[x] == (if x < i {
            s[x]
        } else {
            s[x + 1]
        }));
        assert(r[y] == (if y < i {
            s[y]
        } else {
            s[y + 1]
        }));
    }
}

/// Rotating preserves the absence of duplicate song ids.
proof fn lemma_rotate_once_wf(s: Seq<Song>)
    ensures
        (forall|i: int, j: int| 0 <= i < j < s.len() ==> s[i].id != s[j].id) ==> (forall|
            i: int,
            j: int,
        | 0 <= i < j < rotate_once(s).len() ==> rotate_once(s)[i].id != rotate_once(s)[j].id),
{
    if s.len() > 0 {
        let r = rotate_once(s);
        assert forall|i: int, j: int|
            (forall|x: int, y: int| 0 <= x < y < s.len() ==> s[x].id != s[y].id) && 0 <= i < j
                < r.len() implies r[i].id != r[j].id by {
            assert(r[i] == if i < s.len() - 1 {
                s[i + 1]
            } else {
                s[0]
            });
            assert(r[j] == if j < s.len() - 1 {
                s[j + 1]
            } else {
                s[0]
            });
        }
    }
}

/// `rotate_n` walks the sequence: after `k` steps the first `k` elements have
/// moved, in order, to the back.
proof fn lemma_rotate_n_split(s: Seq<Song>, k: nat)
    requires
        k <= s.len(),
    ensures
        rotate_n(s, k) == s.skip(k as int) + s.take(k as int),
    decreases k,
{
    if k == 0 {
        assert(rotate_n(s, 0) =~= s.skip(0) + s.take(0));
    } else {
        lemma_rotate_n_split(s, (k - 1) as nat);
        let t = s.skip(k as int - 1) + s.take(k as int - 1);
        assert(t.len() == s.len());
        assert(t[0] == s[k as int - 1]);
        assert(rotate_n(s, k) == rotate_once(t));
        assert(rotate_once(t) =~= s.skip(k as int) + s.take(k as int));
    }
}

/// Cycling a playlist as many times as it has songs returns it to its
/// original order.
pub proof fn lemma_cycle_full_rotation(s: Seq<Song>)
    ensures
        rotate_n(s, s.len()) == s,
{
    lemma_rotate_n_split(s, s.len());
    assert(s.skip(s.len() as int) + s.take(s.len() as int) =~= s);
}

/// One rotation step neither adds nor drops a song: the playlist holds the
/// same multiset of songs afterwards.
pub proof fn lemma_cycle_preserves_multiset(s: Seq<Song>)
    ensures
        rotate_once(s).to_multiset() == s.to_multiset(),
{
    broadcast use vstd::seq_lib::group_to_multiset_ensures;

    if s.len() > 0 {
        assert(s.skip(1) =~= s.remove(0));
        assert(rotate_once(s).to_multiset() =~= s.to_multiset().remove(s[0]).insert(s[0]));
        assert(s.contains(s[0]));
        assert(s.to_multiset().remove(s[0]).insert(s[0]) =~= s.to_multiset());
    }
}

} // verus!
