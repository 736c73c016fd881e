use vstd::prelude::*;

use crate::cues::Sounds;
use crate::handle::AssetHandle;
use crate::music::Music;

verus! {

/// Gain of the music channel, in hundredths of full scale: music is kept at
/// a quarter of full volume so that it does not drown the cues.
pub const MUSIC_VOLUME_PERCENT: u32 = 25;

/// Everything that audio initialisation publishes at once: the cue
/// registry, the music cursor and the music gain to apply.
pub struct AudioSetup {
    pub sounds: Sounds,
    pub music: Music,
    pub music_volume_percent: u32,
}

/// Assembles the audio state from the handles that the loader returned for
/// the two effects and for the music tracks, in playing order. The whole
/// state is built before anything is returned; an empty track list is a
/// configuration error and yields `None`.
pub fn initialize_audio(bounce_sfx: AssetHandle, score_sfx: AssetHandle, tracks: Vec<AssetHandle>) -> (r: Option<AudioSetup>)
    ensures
        tracks@.len() == 0 <==> r is None,
        r matches Some(a) ==> {
            &&& a.sounds == (Sounds { bounce_sfx, score_sfx })
            &&& a.music.wf()
            &&& a.music.tracks() == tracks@
            &&& a.music.served() == 0
            &&& a.music_volume_percent == 25
        },
{
    match Music::new(tracks) {
        None => None,
        Some(music) => Some(
            AudioSetup {
                sounds: Sounds { bounce_sfx, score_sfx },
                music,
                music_volume_percent: MUSIC_VOLUME_PERCENT,
            },
        ),
    }
}

} // verus!
