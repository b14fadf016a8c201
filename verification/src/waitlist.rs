//! The turn scheduler: an ordered queue of DJ identities plus the remembered
//! "whose turn is it / which of their playlists is in play" state.

use vstd::prelude::*;
use vstd::string::StringExecFns;
use std::collections::VecDeque;
use crate::song::Song;
use crate::user::{User, UserV, spec_cycle_n};
use crate::repositories::Repository;
use crate::ids::generate_id;

verus! {

/// A waitlist slot holder: a (user id, username) pair.
pub type DJ = (u32, String);

/// The turn scheduler.  The queue holds at most one entry per user id; the
/// remembered turn-holder and playlist id exist only to know which playlist
/// to rotate on the next call.
pub struct Waitlist<T: Repository<u32, User>> {
    pub id: u128,
    pub users: T,
    pub current_dj: Option<User>,
    pub current_playlist: Option<u128>,
    pub queue: VecDeque<DJ>,
}

/// A queue entry is invalid over a store of users when no record sits under
/// its user id, the record has no active playlist selected, or the active
/// playlist id resolves to no playlist of that record.  `play_next` skips
/// such entries.
pub open spec fn entry_invalid(entries: Map<u32, UserV>, user_id: u32) -> bool {
    ||| !entries.contains_key(user_id)
    ||| entries[user_id].active_playlist is None
    ||| (entries[user_id].active_playlist matches Some(p) && entries[user_id].spec_playlist(p)
        is None)
}

/// The mathematical value of a [`Waitlist`]: its queue and remembered-turn
/// state.  The user store behind it is not part of the value.
#[verifier::ext_equal]
pub struct WaitlistV {
    pub id: u128,
    pub current_dj: Option<UserV>,
    pub current_playlist: Option<u128>,
    pub queue: Seq<DJ>,
}

impl WaitlistV {
    /// The queue holds at most one entry per user id.
    pub open spec fn wf(self) -> bool {
        forall|i: int, j: int| 0 <= i < j < self.queue.len() ==> self.queue[i].0 != self.queue[j].0
    }
}

impl<T: Repository<u32, User>> View for Waitlist<T> {
    type V = WaitlistV;

    open spec fn view(&self) -> WaitlistV {
        WaitlistV {
            id: self.id,
            current_dj: self.dj_view(),
            current_playlist: self.current_playlist,
            queue: self.queue@,
        }
    }
}

impl<T: Repository<u32, User>> Waitlist<T> {
    /// The queue holds at most one entry per user id.
    pub open spec fn wf(&self) -> bool {
        forall|i: int, j: int|
            0 <= i < j < self.queue@.len() ==> self.queue@[i].0 != self.queue@[j].0
    }

    /// Whether some queue entry carries the given user id.
    pub open spec fn spec_contains_user(&self, user_id: u32) -> bool {
        exists|i: int| 0 <= i < self.queue@.len() && self.queue@[i].0 == user_id
    }

    /// The scheduler relies on its user store being keyed by user id: the
    /// record it re-persists for a DJ must land under that DJ's id.
    pub open spec fn keyed_by_id() -> bool {
        forall|v: UserV| #[trigger] T::key_of(v) == v.id
    }

    /// The remembered turn-holder, as a mathematical value.
    pub open spec fn dj_view(&self) -> Option<UserV> {
        match self.current_dj {
            Some(u) => Some(u@),
            None => None,
        }
    }

    /// The remembered turn-holder after `k` retire steps: each step rotates
    /// the remembered playlist of the cached snapshot once.
    pub open spec fn dj_after_retires(self, k: nat) -> Option<UserV> {
        match self.current_dj {
            Some(u) => Some(
                match self.current_playlist {
                    Some(p) => spec_cycle_n(u@, p, k),
                    None => u@,
                },
            ),
            None => None,
        }
    }

    /// The stored users after `j` retire steps have re-persisted the
    /// remembered snapshot: its record, if present, holds the snapshot
    /// rotated `j` times; every other record is untouched.  With no
    /// remembered turn-holder or playlist nothing is ever written.
    pub open spec fn store_rewritten(self, j: nat) -> Map<u32, UserV> {
        match (self.current_dj, self.current_playlist) {
            (Some(u), Some(p)) => if j >= 1 && self.users.entries().contains_key(u@.id) {
                self.users.entries().insert(u@.id, spec_cycle_n(u@, p, j))
            } else {
                self.users.entries()
            },
            _ => self.users.entries(),
        }
    }

    pub fn new(user_repository: T) -> (w: Waitlist<T>)
        ensures
            w.users == user_repository,
            w.current_dj is None,
            w.current_playlist is None,
            w.queue@ == Seq::<DJ>::empty(),
            w.wf(),
    {
        let w = Waitlist {
            id: generate_id(),
            users: user_repository,
            current_dj: None,
            current_playlist: None,
            queue: VecDeque::new(),
        };
        w
    }

    pub fn id(&self) -> (r: u128)
        ensures
            r == self.id,
    {
        self.id
    }

    /// Appends the DJ to the back of the queue iff no entry with the same
    /// user id already exists; returns whether a change occurred.
    pub fn join(&mut self, dj: DJ) -> (r: bool)
        requires
            old(self).wf(),
        ensures
            final(self).wf(),
            final(self).id == old(self).id,
            final(self).users == old(self).users,
            final(self).current_dj == old(self).current_dj,
            final(self).current_playlist == old(self).current_playlist,
            old(self).spec_contains_user(dj.0) ==> final(self).queue@ == old(self).queue@ && r
                == false,
            !old(self).spec_contains_user(dj.0) ==> final(self).queue@ == old(self).queue@.push(dj)
                && r == true,
    {
        if self.contains_user(dj.0) {
            return false;
        }
        self.queue.push_back(dj);
        true
    }

    /// Removes the queue entry matching the user id, if there is one (by
    /// well-formedness at most one can match); returns whether a change
    /// occurred.
    pub fn leave(&mut self, user_id: u32) -> (r: bool)
        requires
            old(self).wf(),
        ensures
            final(self).wf(),
            final(self).id == old(self).id,
            final(self).users == old(self).users,
            final(self).current_dj == old(self).current_dj,
            final(self).current_playlist == old(self).current_playlist,
            !old(self).spec_contains_user(user_id) ==> final(self).queue@ == old(self).queue@ && r
                == false,
            old(self).spec_contains_user(user_id) ==> r == true && exists|i: int|
                0 <= i < old(self).queue@.len() && old(self).queue@[i].0 == user_id
                    && final(self).queue@ == old(self).queue@.remove(i),
    {
        let n: usize = self.queue.len();
        let mut i: usize = 0;
        while i < n
            invariant
                n == self.queue@.len(),
                i <= n,
                *self == *old(self),
                self.wf(),
                forall|k: int| 0 <= k < i ==> self.queue@[k].0 != user_id,
            decreases n - i,
        {
            if self.queue[i].0 == user_id {
                self.queue.remove(i);
                proof {
                    lemma_queue_remove_preserves_wf(old(self).queue@, i as int);
                }
                return true;
            }
            i += 1;
        }
        false
    }

    fn contains_user(&self, user_id: u32) -> (r: bool)
        ensures
            r == self.spec_contains_user(user_id),
    {
        let n: usize = self.queue.len();
        let mut i: usize = 0;
        while i < n
            invariant
                n == self.queue@.len(),
                i <= n,
                forall|k: int| 0 <= k < i ==> self.queue@[k].0 != user_id,
            decreases n - i,
        {
            if self.queue[i].0 == user_id {
                return true;
            }
            i += 1;
        }
        false
    }

    pub fn len(&self) -> (r: usize)
        ensures
            r == self.queue@.len(),
    {
        self.queue.len()
    }

    /// What one `play_next` call guarantees, relating the scheduler before
    /// the call (`pre`), after it (`post`), and the result.  Split out as a
    /// named predicate so that `Chatroom::play_next` can promise exactly the
    /// same thing of its embedded waitlist.
    pub open spec fn play_next_post(pre: Self, post: Self, r: Result<Option<Song>, T::Error>) -> bool {
        &&& post.wf()
        &&& post.id == pre.id
        &&& post.queue@.len() <= pre.queue@.len()
        &&& post.queue@ == pre.queue@.skip(pre.queue@.len() - post.queue@.len())
        &&& (pre.current_dj is None ==> post.queue@ == pre.queue@ && post.users.entries()
            == pre.users.entries())
        &&& (pre.queue@.len() == 0 ==> ({
            &&& r matches Ok(o)
            &&& o is None
            &&& post.queue@ == pre.queue@
            &&& post.dj_view() == pre.dj_view()
            &&& post.current_playlist == pre.current_playlist
            &&& post.users.entries() == pre.users.entries()
        }))
        &&& ({
            let k = (pre.queue@.len() - post.queue@.len()) as nat;
            // Once a turn-holder is remembered, the first round always
            // retires their slot: at least one pop.
            &&& (pre.current_dj is Some && pre.queue@.len() > 0 ==> k >= 1)
            // Every entry that was popped and then skipped was invalid when
            // it was inspected, over the store as rewritten up to that
            // round.
            &&& (forall|i: int|
                1 <= i < k ==> entry_invalid(
                    pre.store_rewritten(i as nat),
                    #[trigger] pre.queue@[i].0,
                ))
            // The store after the call: every completed round re-persisted
            // the rotated snapshot; on an error, at most the final round's
            // write is missing.
            &&& (!(r is Err) ==> post.users.entries() == pre.store_rewritten(k))
            &&& (r is Err ==> post.users.entries() == pre.store_rewritten(k) || (k >= 1
                && post.users.entries() == pre.store_rewritten((k - 1) as nat)))
            &&& match r {
                Ok(Some(song)) => ({
                    &&& post.queue@.len() > 0
                    &&& post.users.entries().contains_key(post.queue@[0].0)
                    &&& ({
                        let v = post.users.entries()[post.queue@[0].0];
                        &&& post.dj_view() == Some(v)
                        &&& v.active_playlist matches Some(pid)
                        &&& post.current_playlist == Some(pid)
                        &&& ({
                            &&& v.spec_playlist(pid) matches Some(pl)
                            &&& pl.songs.len() > 0
                            &&& song == pl.songs[0]
                        })
                    })
                }),
                Ok(None) => ({
                    // the queue ran out while retiring
                    ||| (post.queue@.len() == 0 && post.dj_view() == pre.dj_after_retires(k)
                        && post.current_playlist == pre.current_playlist)
                    // no retire step was possible and the front entry was
                    // invalid on every capped fetch attempt
                    ||| (pre.current_dj is None && post.current_dj is None
                        && post.current_playlist == pre.current_playlist && post.queue@
                        == pre.queue@ && pre.queue@.len() > 0 && entry_invalid(
                        pre.users.entries(),
                        pre.queue@[0].0,
                    ))
                    // a turn-holder was found whose active playlist is empty
                    ||| ({
                        &&& post.queue@.len() > 0
                        &&& post.users.entries().contains_key(post.queue@[0].0)
                        &&& ({
                            let v = post.users.entries()[post.queue@[0].0];
                            &&& post.dj_view() == Some(v)
                            &&& v.active_playlist matches Some(pid)
                            &&& post.current_playlist == Some(pid)
                            &&& ({
                                &&& v.spec_playlist(pid) matches Some(pl)
                                &&& pl.songs.len() == 0
                            })
                        })
                    })
                }),
                Err(_) => post.dj_view() == pre.dj_after_retires(k) && post.current_playlist
                    == pre.current_playlist,
            }
        })
    }

    /// Advances the rotation.  If a previous turn-holder is remembered, their
    /// slot is popped from the front of the queue, the remembered playlist of
    /// the cached snapshot is rotated once, and the snapshot is re-persisted;
    /// a store failure aborts the call right there, after the pop has already
    /// taken effect.  Then the new front entry's user is fetched: an entry
    /// whose user record is missing, has no active playlist, or has a
    /// dangling active-playlist id is skipped, which repeats the retire step
    /// for the last remembered turn-holder.  A valid turn-holder becomes the
    /// remembered one and the top of their active playlist is returned
    /// (`None` if that playlist is empty).  An empty queue ends the rotation
    /// with `None`.  While no turn-holder is remembered, nothing is ever
    /// popped; the number of fetch attempts is then capped by the queue
    /// length so that a row of invalid front entries cannot spin forever.
    pub fn play_next(&mut self) -> (r: Result<Option<Song>, T::Error>)
        requires
            old(self).wf(),
            Self::keyed_by_id(),
        ensures
            Self::play_next_post(*old(self), *final(self), r),
    {
        let mut fuel: usize = self.queue.len();
        loop
            invariant
                Self::keyed_by_id(),
                self.wf(),
                self.id == old(self).id,
                self.queue@.len() <= old(self).queue@.len(),
                self.queue@ == old(self).queue@.skip(
                    old(self).queue@.len() - self.queue@.len(),
                ),
                old(self).current_dj is Some <==> self.current_dj is Some,
                self.current_playlist == old(self).current_playlist,
                self.dj_view() == old(self).dj_after_retires(
                    (old(self).queue@.len() - self.queue@.len()) as nat,
                ),
                self.users.entries() == old(self).store_rewritten(
                    (old(self).queue@.len() - self.queue@.len()) as nat,
                ),
                forall|i: int|
                    1 <= i <= old(self).queue@.len() - self.queue@.len() ==> entry_invalid(
                        old(self).store_rewritten(i as nat),
                        #[trigger] old(self).queue@[i].0,
                    ),
                old(self).current_dj is None ==> self.queue@ == old(self).queue@
                    && self.users.entries() == old(self).users.entries(),
                old(self).current_dj is None && fuel < old(self).queue@.len() ==> old(
                    self,
                ).queue@.len() > 0 && entry_invalid(
                    old(self).users.entries(),
                    old(self).queue@[0].0,
                ),
                old(self).queue@.len() == self.queue@.len() ==> self.users.entries() == old(self).users.entries()
                    && self.current_dj == old(self).current_dj,
                old(self).current_dj is Some ==> fuel == self.queue@.len(),
            decreases fuel,
        {
            // Defensive bound: while no turn-holder is remembered no pop can
            // happen, so a perpetually invalid front entry would spin
            // forever; cap the attempts at the initial queue length.
            if fuel == 0 {
                proof {
                    if old(self).queue@.len() == 0 {
                        assert(self.queue@ =~= old(self).queue@);
                    }
                }
                return Ok(None);
            }
            // Base case: the rotation is over.
            if self.queue.len() == 0 {
                proof {
                    if old(self).queue@.len() == 0 {
                        assert(self.queue@ =~= old(self).queue@);
                    }
                }
                return Ok(None);
            }
            // Retire the previous turn-holder, if one is remembered: their
            // slot leaves the queue, and the remembered playlist of the
            // cached snapshot is rotated and persisted before the next DJ is
            // looked at.
            if self.current_dj.is_some() {
                let ghost k_old = (old(self).queue@.len() - self.queue@.len()) as nat;
                self.queue.pop_front();
                proof {
                    lemma_skip_one_more(old(self).queue@, self.queue@.len() as int);
                    assert(self.wf());
                }
                let mut prev: User = self.current_dj.take().unwrap();
                if self.current_playlist.is_some() {
                    let pid: u128 = self.current_playlist.unwrap();
                    prev.cycle_playlist(pid);
                    proof {
                        assert(prev@ == spec_cycle_n(
                            old(self).current_dj.unwrap()@,
                            pid,
                            (k_old + 1) as nat,
                        ));
                    }
                    match self.users.update(&prev) {
                        Ok(_) => {
                            proof {
                                lemma_spec_cycle_n_id(old(self).current_dj.unwrap()@, pid, (k_old + 1) as nat);
                                assert(self.users.entries() =~= old(self).store_rewritten(
                                    (k_old + 1) as nat,
                                ));
                            }
                        },
                        Err(e) => {
                            self.current_dj = Some(prev);
                            return Err(e);
                        },
                    }
                }
                self.current_dj = Some(prev);
            }
            // The queue may have run out while retiring.
            if self.queue.len() == 0 {
                return Ok(None);
            }
            // Fetch the full user behind the new front entry.
            let front_id: u32 = self.queue[0].0;
            let maybe_user = match self.users.get(&front_id) {
                Ok(m) => m,
                Err(e) => return Err(e),
            };
            let ghost k_now = (old(self).queue@.len() - self.queue@.len()) as nat;
            proof {
                assert(front_id == old(self).queue@[k_now as int].0);
            }
            match maybe_user {
                None => {
                    // A user id with no user record behind it: skip this
                    // entry; the retire step above will pop it next round.
                    proof {
                        assert(entry_invalid(old(self).store_rewritten(k_now), front_id));
                    }
                },
                Some(user) => {
                    match user.active_playlist() {
                        None => {
                            // No active playlist selected: skip this DJ.
                            proof {
                                assert(entry_invalid(old(self).store_rewritten(k_now), front_id));
                            }
                        },
                        Some(pid) => {
                            let found = user.get_playlist(pid);
                            match found {
                                None => {
                                    // The active playlist id resolves to no
                                    // playlist of this user: skip.
                                    proof {
                                        assert(entry_invalid(
                                            old(self).store_rewritten(k_now),
                                            front_id,
                                        ));
                                    }
                                },
                                Some(playlist) => {
                                    // A valid turn-holder: remember them and
                                    // their playlist id (they may change
                                    // their active playlist mid-turn), and
                                    // hand out the top song without popping
                                    // it; it rotates to the back on the next
                                    // call.
                                    let top = playlist.top_song();
                                    let plid: u128 = playlist.id;
                                    self.current_dj = Some(user);
                                    self.current_playlist = Some(plid);
                                    return Ok(top);
                                },
                            }
                        },
                    }
                },
            }
            fuel = fuel - 1;
        }
    }

    /// The queue order, front first.
    pub fn djs(&self) -> (r: &VecDeque<DJ>)
        ensures
            r@ == self.queue@,
    {
        &self.queue
    }

    /// Decides well-formedness of the queue, for values of unknown
    /// provenance (a record fetched from storage).
    pub fn check_wf(&self) -> (r: bool)
        ensures
            r == self.wf(),
            r == self@.wf(),
    {
        proof {
            assert(self@.queue == self.queue@);
        }
        let n: usize = self.queue.len();
        let mut i: usize = 0;
        while i < n
            invariant
                n == self.queue@.len(),
                i <= n,
                forall|x: int, y: int| 0 <= x < y < i ==> self.queue@[x].0 != self.queue@[y].0,
            decreases n - i,
        {
            let mut j: usize = 0;
            while j < i
                invariant
                    n == self.queue@.len(),
                    j <= i < n,
                    forall|x: int| 0 <= x < j ==> self.queue@[x].0 != self.queue@[i as int].0,
                decreases i - j,
            {
                if self.queue[j].0 == self.queue[i].0 {
                    proof {
                        assert(self@.queue[j as int].0 == self@.queue[i as int].0);
                        assert(!self@.wf());
                        assert(!self.wf());
                    }
                    return false;
                }
                j += 1;
            }
            i += 1;
        }
        proof {
            assert forall|x: int, y: int| 0 <= x < y < self@.queue.len() implies self@.queue[x].0
                != self@.queue[y].0 by {
                assert(self@.queue[x] == self.queue@[x]);
                assert(self@.queue[y] == self.queue@[y]);
            }
            assert(self@.wf());
        }
        true
    }

    /// The queue rendered for humans: a header line, then one numbered line
    /// per DJ, with no trailing line break.
    pub fn to_display_string(&self) -> (r: String)
        ensures
            r@ == "Waitlist:\n"@ + spec_queue_lines(self.queue@, 0),
    {
        let mut s = String::from_str("Waitlist:\n");
        let n: usize = self.queue.len();
        let mut i: usize = 0;
        while i < n
            invariant
                n == self.queue@.len(),
                i <= n,
                s@ + spec_queue_lines(self.queue@, i as nat) == "Waitlist:\n"@
                    + spec_queue_lines(self.queue@, 0),
            decreases n - i,
        {
            let ghost pre = s@;
            let num = fmt_usize(i + 1);
            s.append(num.as_str());
            s.append(". ");
            s.append(self.queue[i].1.as_str());
            if i + 1 < n {
                s.append("\n");
            }
            proof {
                let q = self.queue@;
                assert(s@ =~= pre + (spec_dec((i + 1) as nat) + ". "@ + q[i as int].1@ + (if i
                    + 1 == q.len() {
                    Seq::<char>::empty()
                } else {
                    "\n"@
                })));
                assert(s@ + spec_queue_lines(q, (i + 1) as nat) =~= pre + spec_queue_lines(
                    q,
                    i as nat,
                ));
            }
            i += 1;
        }
        proof {
            assert(s@ =~= "Waitlist:\n"@ + spec_queue_lines(self.queue@, 0));
        }
        s
    }
}

impl<T: Repository<u32, User> + Clone> Clone for Waitlist<T> {
    /// The clone shares no storage with the original; the user store is
    /// cloned by its own `Clone`, of which nothing further is known here.
    fn clone(&self) -> (r: Self)
        ensures
            r.id == self.id,
            r.queue@ == self.queue@,
            r.dj_view() == self.dj_view(),
            r.current_playlist == self.current_playlist,
    {
        let current_dj = match &self.current_dj {
            Some(u) => Some(u.clone()),
            None => None,
        };
        let r = Waitlist {
            id: self.id,
            users: self.users.clone(),
            current_dj,
            current_playlist: self.current_playlist,
            queue: clone_queue(&self.queue),
        };
        r
    }
}

pub(crate) fn clone_queue(q: &VecDeque<DJ>) -> (r: VecDeque<DJ>)
    ensures
        r@ == q@,
{
    let n: usize = q.len();
    let mut r: VecDeque<DJ> = VecDeque::new();
    let mut i: usize = 0;
    while i < n
        invariant
            n == q@.len(),
            i <= n,
            r@.len() == i,
            forall|k: int| 0 <= k < i ==> r@[k] == q@[k],
        decreases n - i,
    {
        r.push_back((q[i].0, q[i].1.clone()));
        i += 1;
    }
    proof {
        assert(r@ =~= q@);
    }
    r
}

/// The decimal digit for `n`, for `n` below ten.
pub open spec fn spec_digit(n: nat) -> char {
    if n == 0 {
        '0'
    } else if n == 1 {
        '1'
    } else if n == 2 {
        '2'
    } else if n == 3 {
        '3'
    } else if n == 4 {
        '4'
    } else if n == 5 {
        '5'
    } else if n == 6 {
        '6'
    } else if n == 7 {
        '7'
    } else if n == 8 {
        '8'
    } else {
        '9'
    }
}

/// The decimal rendering of `n`, most significant digit first.
pub open spec fn spec_dec(n: nat) -> Seq<char>
    decreases n,
{
    if n < 10 {
        seq![spec_digit(n)]
    } else {
        spec_dec(n / 10).push(spec_digit(n % 10))
    }
}

/// The numbered lines of the queue display from position `i` on: each entry
/// as "<position>. <username>", separated by line breaks.
pub open spec fn spec_queue_lines(q: Seq<DJ>, i: nat) -> Seq<char>
    decreases q.len() - i,
{
    if i >= q.len() {
        Seq::empty()
    } else {
        spec_dec(i + 1) + ". "@ + q[i as int].1@ + (if i + 1 == q.len() {
            Seq::<char>::empty()
        } else {
            "\n"@
        }) + spec_queue_lines(q, i + 1)
    }
}

/// The one-character string for the decimal digit `d`.
fn digit_str(d: usize) -> (r: &'static str)
    requires
        d < 10,
    ensures
        r@ == seq![spec_digit(d as nat)],
{
    let r: &'static str = if d == 0 {
        "0"
    } else if d == 1 {
        "1"
    } else if d == 2 {
        "2"
    } else if d == 3 {
        "3"
    } else if d == 4 {
        "4"
    } else if d == 5 {
        "5"
    } else if d == 6 {
        "6"
    } else if d == 7 {
        "7"
    } else if d == 8 {
        "8"
    } else {
        "9"
    };
    proof {
        reveal_strlit("0");
        reveal_strlit("1");
        reveal_strlit("2");
        reveal_strlit("3");
        reveal_strlit("4");
        reveal_strlit("5");
        reveal_strlit("6");
        reveal_strlit("7");
        reveal_strlit("8");
        reveal_strlit("9");
        assert(r@ =~= seq![spec_digit(d as nat)]);
    }
    r
}

/// Renders `n` in decimal, most significant digit first.
fn fmt_usize(n: usize) -> (r: String)
    ensures
        r@ == spec_dec(n as nat),
    decreases n,
{
    if n < 10 {
        let s = String::from_str(digit_str(n));
        s
    } else {
        let mut s = fmt_usize(n / 10);
        s.append(digit_str(n % 10));
        proof {
            assert(s@ =~= spec_dec(n as nat));
        }
        s
    }
}

/// Dropping the front of a suffix lengthens the dropped prefix by one.
proof fn lemma_skip_one_more(s: Seq<DJ>, new_len: int)
    requires
        0 <= new_len,
        new_len + 1 <= s.len(),
    ensures
        s.skip(s.len() - (new_len + 1)).subrange(1, new_len + 1) == s.skip(s.len() - new_len),
{
    assert(s.skip(s.len() - (new_len + 1)).subrange(1, new_len + 1) =~= s.skip(
        s.len() - new_len,
    ));
}

/// Rotating a user's playlist leaves the user's identity fields alone.
proof fn lemma_spec_cycle_n_id(u: UserV, pid: u128, n: nat)
    ensures
        spec_cycle_n(u, pid, n).id == u.id,
    decreases n,
{
    if n > 0 {
        lemma_spec_cycle_n_id(u, pid, (n - 1) as nat);
    }
}

/// Removing one queue entry preserves the uniqueness of user ids.
proof fn lemma_queue_remove_preserves_wf(s: Seq<DJ>, i: int)
    requires
        0 <= i < s.len(),
        forall|x: int, y: int| 0 <= x < y < s.len() ==> s[x].0 != s[y].0,
    ensures
        forall|x: int, y: int|
            0 <= x < y < s.remove(i).len() ==> s.remove(i)[x].0 != s.remove(i)[y].0,
{
    let r = s.remove(i);
    assert forall|x: int, y: int| 0 <= x < y < r.len() implies r[x].0 != r[y].0 by {
        assert(r[x] == (if x < i {
            s[x]
        } else {
            s[x + 1]
        }));
        assert(r[y] == (if y < i {
            s[y]
        } else {
            s[y + 1]
        }));
    }
}

} // verus!
