use vstd::prelude::*;

use crate::handle::AssetHandle;

verus! {

/// The track that call number `i` of `next` (counting from zero) hands out
/// on a cursor over `tracks`: the list repeated without end.
pub open spec fn playlist_track(tracks: Seq<AssetHandle>, i: nat) -> AssetHandle
    recommends
        tracks.len() > 0,
{
    tracks[(i % tracks.len()) as int]
}

/// The playlist repeats with the length of the track list as its period, and
/// every track it hands out, on any call, is one of the list.
pub proof fn lemma_playlist_repeats(tracks: Seq<AssetHandle>, i: nat)
    requires
        tracks.len() > 0,
    ensures
        playlist_track(tracks, i + tracks.len()) == playlist_track(tracks, i),
        tracks.contains(playlist_track(tracks, i)),
{
    let l = tracks.len();
    vstd::arithmetic::div_mod::lemma_fundamental_div_mod(i as int, l as int);
    let q = i as int / l as int;
    let r = i as int % l as int;
    assert((q + 1) * l == q * l + l) by (nonlinear_arith);
    vstd::arithmetic::div_mod::lemma_fundamental_div_mod_converse((i + l) as int, l as int, q + 1, r);
    assert(tracks[r] == playlist_track(tracks, i));
}

/// An endless cursor over a fixed, non-empty list of music tracks.
///
/// Each call of `next` hands out the track at the cursor and moves the
/// cursor one place on, wrapping round to the first track after the last.
pub struct Music {
    tracks: Vec<AssetHandle>,
    pos: usize,
    /// How many tracks have been handed out since the cursor was made.
    served: Ghost<nat>,
}

impl Music {
    /// The track list, in playing order.
    pub closed spec fn tracks(&self) -> Seq<AssetHandle> {
        self.tracks@
    }

    /// The number of calls of `next` made so far.
    pub closed spec fn served(&self) -> nat {
        self.served@
    }

    /// The cursor is over a non-empty list and stands where the calls made
    /// so far have left it.
    pub closed spec fn wf(&self) -> bool {
        &&& self.tracks@.len() > 0
        &&& self.pos < self.tracks@.len()
        &&& self.pos == self.served@ % self.tracks@.len()
    }

    /// Makes a cursor that starts at the first of `tracks`; an empty list
    /// has no next track and is refused.
    pub fn new(tracks: Vec<AssetHandle>) -> (r: Option<Music>)
        ensures
            tracks@.len() == 0 <==> r is None,
            r matches Some(m) ==> m.wf() && m.tracks() == tracks@ && m.served() == 0,
    {
        if tracks.len() == 0 {
            None
        } else {
            proof {
                vstd::arithmetic::div_mod::lemma_small_mod(0, tracks@.len());
            }
            Some(Music { tracks, pos: 0, served: Ghost(0) })
        }
    }

    /// The number of tracks in the list.
    pub fn len(&self) -> (r: usize)
        requires
            self.wf(),
        ensures
            r == self.tracks().len(),
            r >= 1,
    {
        self.tracks.len()
    }

    /// Hands out the next track: call number `i` (counting from zero) gives
    /// the track at `i mod L` of the list of `L` tracks. It never runs out.
    pub fn next(&mut self) -> (r: AssetHandle)
        requires
            old(self).wf(),
        ensures
            final(self).wf(),
            final(self).tracks() == old(self).tracks(),
            final(self).served() == old(self).served() + 1,
            r == playlist_track(old(self).tracks(), old(self).served()),
            old(self).tracks().contains(r),
    {
        let r = self.tracks[self.pos];
        let ghost s = self.served@;
        let ghost l = self.tracks@.len();
        proof {
            lemma_mod_step(s, l);
        }
        if self.pos == self.tracks.len() - 1 {
            self.pos = 0;
        } else {
            self.pos = self.pos + 1;
        }
        self.served = Ghost(s + 1);
        r
    }
}

/// Moving on by one either steps the remainder by one or wraps it to zero.
proof fn lemma_mod_step(s: nat, l: nat)
    requires
        l > 0,
    ensures
        s % l + 1 == l ==> (s + 1) % l == 0,
        s % l + 1 < l ==> (s + 1) % l == s % l + 1,
{
    let q = s as int / l as int;
    let r = s as int % l as int;
    vstd::arithmetic::div_mod::lemma_fundamental_div_mod(s as int, l as int);
    if r + 1 < l {
        vstd::arithmetic::div_mod::lemma_fundamental_div_mod_converse((s + 1) as int, l as int, q, r + 1);
    } else {
        assert((q + 1) * l == q * l + l) by (nonlinear_arith);
        vstd::arithmetic::div_mod::lemma_fundamental_div_mod_converse((s + 1) as int, l as int, q + 1, 0);
    }
}

} // verus!
