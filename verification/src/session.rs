use vstd::prelude::*;
use vstd::arithmetic::div_mod::{
    lemma_fundamental_div_mod,
    lemma_fundamental_div_mod_converse_mod,
};

use crate::listing::names_of;

verus! {

/// How close to its end, in nanoseconds, a track counts as finished.
pub const END_MARGIN_NANOS: u128 = 100_000_000;

/// The playlist of the directory that holds the current track, which of its
/// entries is selected, and whether the last load failed.
pub struct Session {
    pub playlist: Vec<String>,
    pub selected: usize,
    pub error: bool,
}

/// The entry after `i` in a playlist of `len` entries, the first after the last.
pub open spec fn next_index(i: int, len: int) -> int {
    if i + 1 >= len {
        0
    } else {
        i + 1
    }
}

/// The entry before `i`, the last before the first.
pub open spec fn previous_index(i: int, len: int) -> int {
    if i == 0 {
        len - 1
    } else {
        i - 1
    }
}

/// `k` steps forward from `i`.
pub open spec fn next_times(i: int, len: int, k: nat) -> int
    decreases k,
{
    if k == 0 {
        i
    } else {
        next_index(next_times(i, len, (k - 1) as nat), len)
    }
}

/// A track counts as finished once its position is within the end margin of
/// its length.
pub open spec fn track_finished(position: int, duration: int) -> bool {
    position + END_MARGIN_NANOS >= duration
}

/// The first index at which `name` stands in `names`.
pub open spec fn first_position(names: Seq<Seq<char>>, name: Seq<char>, r: int) -> bool {
    &&& 0 <= r < names.len()
    &&& names[r] == name
    &&& forall|k: int| 0 <= k < r ==> names[k] != name
}

/// The index that a session starts on: where the current file stands in the
/// playlist, else the first entry.
pub open spec fn start_index(names: Seq<Seq<char>>, name: Seq<char>, r: int) -> bool {
    if exists|k: int| 0 <= k < names.len() && names[k] == name {
        first_position(names, name, r)
    } else {
        r == 0
    }
}

/// Stepping forward `k` times moves `k` places round the playlist.
pub proof fn lemma_next_times_mod(i: int, len: int, k: nat)
    requires
        0 <= i < len,
    ensures
        next_times(i, len, k) == (i + k) % len,
    decreases k,
{
    if k == 0 {
        lemma_fundamental_div_mod_converse_mod(i, len, 0, i);
    } else {
        lemma_next_times_mod(i, len, (k - 1) as nat);
        let x = i + k - 1;
        let r = x % len;
        let q = x / len;
        lemma_fundamental_div_mod(x, len);
        assert(0 <= r < len) by {
            vstd::arithmetic::div_mod::lemma_mod_bound(x, len);
        }
        if r + 1 < len {
            assert(x + 1 == q * len + (r + 1)) by (nonlinear_arith)
                requires
                    x == len * q + r,
            ;
            lemma_fundamental_div_mod_converse_mod(x + 1, len, q, r + 1);
        } else {
            assert(x + 1 == (q + 1) * len + 0) by (nonlinear_arith)
                requires
                    x == len * q + r,
                    r + 1 == len,
            ;
            lemma_fundamental_div_mod_converse_mod(x + 1, len, q + 1, 0);
        }
    }
}

/// Stepping forward once per entry brings the selection back to where it was.
pub proof fn lemma_next_full_cycle(i: int, len: int)
    requires
        0 <= i < len,
    ensures
        next_times(i, len, len as nat) == i,
{
    lemma_next_times_mod(i, len, len as nat);
    lemma_fundamental_div_mod_converse_mod(i + len, len, 1, i);
}

/// Forward moves to the next entry round the playlist and back to the
/// previous one: from entry `i` of `len`, forward lands on `(i + 1) % len`
/// and back on `(i + len - 1) % len`.
pub proof fn lemma_steps_wrap_round(i: int, len: int)
    requires
        0 <= i < len,
    ensures
        next_index(i, len) == (i + 1) % len,
        previous_index(i, len) == (i + len - 1) % len,
{
    if i + 1 < len {
        lemma_fundamental_div_mod_converse_mod(i + 1, len, 0, i + 1);
    } else {
        lemma_fundamental_div_mod_converse_mod(i + 1, len, 1, 0);
    }
    if i == 0 {
        lemma_fundamental_div_mod_converse_mod(len - 1, len, 0, len - 1);
    } else {
        lemma_fundamental_div_mod_converse_mod(i + len - 1, len, 1, i - 1);
    }
}

/// A track is over exactly when at most a tenth of a second of it is left:
/// at `position` nanoseconds into a track of `duration` nanoseconds, it is
/// finished if and only if `duration - position <= 100_000_000`.
pub proof fn lemma_finished_within_last_tenth(position: int, duration: int)
    ensures
        track_finished(position, duration) <==> duration - position <= 100_000_000,
        position + 100_000_000 < duration ==> !track_finished(position, duration),
{
}

/// Forward then back, or back then forward, returns to the same entry.
pub proof fn lemma_next_previous_inverse(i: int, len: int)
    requires
        0 <= i < len,
    ensures
        previous_index(next_index(i, len), len) == i,
        next_index(previous_index(i, len), len) == i,
{
}

impl Session {
    /// The selection points into the playlist, or is the first place of an
    /// empty one.
    pub open spec fn wf(&self) -> bool {
        self.selected == 0 || self.selected < self.playlist.len()
    }

    /// A session on `playlist`, started from the file named `current`: the
    /// selection is the first entry of that name, else the first entry.
    pub fn new(playlist: Vec<String>, current: &String) -> (s: Session)
        ensures
            s.wf(),
            s.playlist@ == playlist@,
            start_index(names_of(playlist@), current@, s.selected as int),
            !s.error,
    {
        let n = playlist.len();
        let mut i: usize = 0;
        while i < n
            invariant
                n == playlist.len(),
                i <= n,
                forall|k: int| 0 <= k < i ==> (#[trigger] playlist@[k])@ != current@,
            decreases n - i,
        {
            if playlist[i] == *current {
                let ghost names = names_of(playlist@);
                assert forall|k: int| 0 <= k < i implies names[k] != current@ by {
                    assert(names[k] == playlist@[k]@);
                }
                return Session { playlist, selected: i, error: false };
            }
            i = i + 1;
        }
        let ghost names = names_of(playlist@);
        assert forall|k: int| 0 <= k < names.len() implies names[k] != current@ by {
            assert(names[k] == playlist@[k]@);
        }
        Session { playlist, selected: 0, error: false }
    }

    /// The selected entry.
    pub fn current(&self) -> (name: &String)
        requires
            self.wf(),
            self.playlist.len() > 0,
        ensures
            *name == self.playlist@[self.selected as int],
    {
        &self.playlist[self.selected]
    }

    /// Selects the next entry, the first after the last.
    pub fn select_next(&mut self)
        requires
            old(self).wf(),
        ensures
            final(self).wf(),
            final(self).selected == next_index(
                old(self).selected as int,
                old(self).playlist.len() as int,
            ),
            old(self).selected < old(self).playlist.len() ==> final(self).selected == (old(
                self,
            ).selected + 1) % (old(self).playlist.len() as int),
            final(self).playlist == old(self).playlist,
            final(self).error == old(self).error,
    {
        proof {
            if self.selected < self.playlist.len() {
                lemma_steps_wrap_round(self.selected as int, self.playlist.len() as int);
            }
        }
        self.selected = self.selected + 1;
        if self.selected >= self.playlist.len() {
            self.selected = 0;
        }
    }

    /// Selects the previous entry, the last before the first. An empty
    /// playlist has no previous entry.
    pub fn select_previous(&mut self)
        requires
            old(self).wf(),
            old(self).playlist.len() > 0,
        ensures
            final(self).wf(),
            final(self).selected == previous_index(
                old(self).selected as int,
                old(self).playlist.len() as int,
            ),
            final(self).selected == (old(self).selected + old(self).playlist.len() - 1) % (old(
                self,
            ).playlist.len() as int),
            final(self).playlist == old(self).playlist,
            final(self).error == old(self).error,
    {
        proof {
            lemma_steps_wrap_round(self.selected as int, self.playlist.len() as int);
        }
        if self.selected == 0 {
            self.selected = self.playlist.len() - 1;
        } else {
            self.selected = self.selected - 1;
        }
    }

    /// Records whether loading the selected track succeeded.
    pub fn record_load(&mut self, loaded: bool)
        ensures
            final(self).error == !loaded,
            final(self).playlist == old(self).playlist,
            final(self).selected == old(self).selected,
    {
        self.error = !loaded;
    }

    /// Whether the current track is over and the session moves on: it is
    /// finished and did not fail to load.
    pub fn should_advance(&self, position: u128, duration: u128) -> (r: bool)
        ensures
            r == (track_finished(position as int, duration as int) && !self.error),
            r == (position + 100_000_000 >= duration && !self.error),
    {
        if position >= duration || duration - position <= END_MARGIN_NANOS {
            !self.error
        } else {
            false
        }
    }

    /// Moves on to the next entry once the current track is over, given its
    /// position and length in nanoseconds; the result says whether it did.
    /// Moving on in an empty playlist has no entry to go to.
    pub fn auto_advance(&mut self, position: u128, duration: u128) -> (advanced: bool)
        requires
            old(self).wf(),
            track_finished(position as int, duration as int) && !old(self).error ==> old(
                self,
            ).playlist.len() > 0,
        ensures
            final(self).wf(),
            advanced == (track_finished(position as int, duration as int) && !old(self).error),
            advanced == (position + 100_000_000 >= duration && !old(self).error),
            advanced ==> final(self).selected == (old(self).selected + 1) % (old(
                self,
            ).playlist.len() as int),
            advanced ==> final(self).selected == next_index(
                old(self).selected as int,
                old(self).playlist.len() as int,
            ),
            !advanced ==> final(self).selected == old(self).selected,
            final(self).playlist == old(self).playlist,
            final(self).error == old(self).error,
    {
        if self.should_advance(position, duration) {
            self.select_next();
            true
        } else {
            false
        }
    }
}

} // verus!
