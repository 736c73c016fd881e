use vstd::prelude::*;

use crate::handle::AssetHandle;

verus! {

/// Relative gain of a one-shot cue, in hundredths of full scale: cues play
/// at full relative volume.
pub const CUE_GAIN_PERCENT: u32 = 100;

/// The handles of the two one-shot sound effects. Set once, when the audio
/// is initialised, and never changed afterwards.
#[derive(Clone, Copy, Debug, PartialEq, Eq, Structural)]
pub struct Sounds {
    pub bounce_sfx: AssetHandle,
    pub score_sfx: AssetHandle,
}

/// The handles that the decoded-asset store currently resolves to playable
/// sound. A handle is absent while its asset is still loading, or when its
/// load failed.
pub struct AssetStore {
    loaded: Vec<AssetHandle>,
}

/// A single request to the output device: play `asset` once at
/// `gain_percent` hundredths of full volume.
#[derive(Clone, Copy, Debug, PartialEq, Eq, Structural)]
pub struct PlayOnce {
    pub asset: AssetHandle,
    pub gain_percent: u32,
}

impl AssetStore {
    /// The set of handles that resolve.
    pub closed spec fn resolved(&self) -> Set<AssetHandle> {
        Set::new(|h: AssetHandle| self.loaded@.contains(h))
    }

    /// A store in which nothing resolves yet.
    pub fn new() -> (r: AssetStore)
        ensures
            r.resolved() == Set::<AssetHandle>::empty(),
    {
        let r = AssetStore { loaded: Vec::new() };
        proof {
            assert(r.resolved() =~= Set::<AssetHandle>::empty());
        }
        r
    }

    /// Records that `h` now resolves to decoded sound.
    pub fn mark_loaded(&mut self, h: AssetHandle)
        ensures
            final(self).resolved() == old(self).resolved().insert(h),
    {
        self.loaded.push(h);
        proof {
            assert(final(self).loaded@ =~= old(self).loaded@.push(h));
            assert forall|x: AssetHandle|
                final(self).loaded@.contains(x) == (old(self).loaded@.contains(x) || x == h) by {
                vstd::seq_lib::lemma_seq_contains_after_push(old(self).loaded@, h, x);
            }
            assert(final(self).resolved() =~= old(self).resolved().insert(h));
        }
    }

    /// Whether `h` resolves to decoded sound.
    pub fn is_loaded(&self, h: AssetHandle) -> (r: bool)
        ensures
            r == self.resolved().contains(h),
    {
        let mut i: usize = 0;
        while i < self.loaded.len()
            invariant
                i <= self.loaded@.len(),
                forall|k: int| 0 <= k < i ==> self.loaded@[k] != h,
            decreases self.loaded@.len() - i,
        {
            if self.loaded[i] == h {
                proof {
                    assert(self.loaded@[i as int] == h);
                }
                return true;
            }
            i = i + 1;
        }
        false
    }
}

/// What a trigger for the cue `h` asks of the output device: nothing when no
/// device is present or `h` does not resolve, else one play of `h` at full
/// relative volume.
pub open spec fn cue_request(h: AssetHandle, resolved: Set<AssetHandle>, output_present: bool) -> Option<PlayOnce> {
    if output_present && resolved.contains(h) {
        Some(PlayOnce { asset: h, gain_percent: CUE_GAIN_PERCENT })
    } else {
        None
    }
}

fn play_cue(h: AssetHandle, store: &AssetStore, output_present: bool) -> (r: Option<PlayOnce>)
    ensures
        r == cue_request(h, store.resolved(), output_present),
{
    if output_present && store.is_loaded(h) {
        Some(PlayOnce { asset: h, gain_percent: CUE_GAIN_PERCENT })
    } else {
        None
    }
}

/// The playback that a ball bounce triggers: with a device present and the
/// bounce effect resolved, exactly one play of the bounce effect at full
/// relative volume; otherwise none. It never fails.
pub fn play_bounce_sound(sounds: &Sounds, store: &AssetStore, output_present: bool) -> (r: Option<PlayOnce>)
    ensures
        r == cue_request(sounds.bounce_sfx, store.resolved(), output_present),
        !output_present ==> r is None,
        !store.resolved().contains(sounds.bounce_sfx) ==> r is None,
        output_present && store.resolved().contains(sounds.bounce_sfx) ==> r == Some(
            PlayOnce { asset: sounds.bounce_sfx, gain_percent: 100 },
        ),
{
    play_cue(sounds.bounce_sfx, store, output_present)
}

/// The playback that a score triggers: with a device present and the score
/// effect resolved, exactly one play of the score effect at full relative
/// volume; otherwise none. It never fails.
pub fn play_score_sound(sounds: &Sounds, store: &AssetStore, output_present: bool) -> (r: Option<PlayOnce>)
    ensures
        r == cue_request(sounds.score_sfx, store.resolved(), output_present),
        !output_present ==> r is None,
        !store.resolved().contains(sounds.score_sfx) ==> r is None,
        output_present && store.resolved().contains(sounds.score_sfx) ==> r == Some(
            PlayOnce { asset: sounds.score_sfx, gain_percent: 100 },
        ),
{
    play_cue(sounds.score_sfx, store, output_present)
}

} // verus!
