use pong_audio::cues::{play_bounce_sound, play_score_sound, AssetStore, PlayOnce, Sounds, CUE_GAIN_PERCENT};
use pong_audio::handle::AssetHandle;
use pong_audio::music::Music;
use pong_audio::setup::{initialize_audio, MUSIC_VOLUME_PERCENT};

fn h(id: u64) -> AssetHandle {
    AssetHandle { id }
}

fn sounds() -> Sounds {
    Sounds { bounce_sfx: h(1), score_sfx: h(2) }
}

#[test]
fn music_two_tracks_five_calls() {
    let mut m = Music::new(vec![h(10), h(11)]).unwrap();
    let got: Vec<AssetHandle> = (0..5).map(|_| m.next()).collect();
    assert_eq!(got, vec![h(10), h(11), h(10), h(11), h(10)]);
}

#[test]
fn music_call_i_gives_track_i_mod_len() {
    let tracks = vec![h(5), h(6), h(7)];
    let mut m = Music::new(tracks.clone()).unwrap();
    for i in 0..100usize {
        assert_eq!(m.next(), tracks[i % tracks.len()]);
    }
}

#[test]
fn music_single_track_repeats() {
    let mut m = Music::new(vec![h(9)]).unwrap();
    assert_eq!(m.len(), 1);
    for _ in 0..10 {
        assert_eq!(m.next(), h(9));
    }
}

#[test]
fn music_never_runs_out() {
    let tracks = vec![h(3), h(4)];
    let mut m = Music::new(tracks.clone()).unwrap();
    for _ in 0..10_000 {
        assert!(tracks.contains(&m.next()));
    }
}

#[test]
fn music_empty_list_refused() {
    assert!(Music::new(Vec::new()).is_none());
}

#[test]
fn no_device_no_playback() {
    let mut store = AssetStore::new();
    store.mark_loaded(h(1));
    store.mark_loaded(h(2));
    assert_eq!(play_bounce_sound(&sounds(), &store, false), None);
    assert_eq!(play_score_sound(&sounds(), &store, false), None);
    assert_eq!(play_bounce_sound(&sounds(), &AssetStore::new(), false), None);
}

#[test]
fn no_device_score_cue_many_times() {
    let mut store = AssetStore::new();
    store.mark_loaded(h(2));
    let plays = (0..50).filter(|_| play_score_sound(&sounds(), &store, false).is_some()).count();
    assert_eq!(plays, 0);
}

#[test]
fn unresolved_handle_no_playback() {
    let mut store = AssetStore::new();
    store.mark_loaded(h(99));
    assert_eq!(play_bounce_sound(&sounds(), &store, true), None);
    assert_eq!(play_score_sound(&sounds(), &store, true), None);
}

#[test]
fn bounce_cue_plays_bounce_asset_once_at_full_gain() {
    let mut store = AssetStore::new();
    store.mark_loaded(h(1));
    store.mark_loaded(h(2));
    let r = play_bounce_sound(&sounds(), &store, true);
    assert_eq!(r, Some(PlayOnce { asset: h(1), gain_percent: 100 }));
    assert_eq!(CUE_GAIN_PERCENT, 100);
}

#[test]
fn score_cue_plays_score_asset() {
    let mut store = AssetStore::new();
    store.mark_loaded(h(2));
    assert_eq!(play_score_sound(&sounds(), &store, true), Some(PlayOnce { asset: h(2), gain_percent: 100 }));
    assert_eq!(play_bounce_sound(&sounds(), &store, true), None);
}

#[test]
fn store_lookup() {
    let mut store = AssetStore::new();
    assert!(!store.is_loaded(h(4)));
    store.mark_loaded(h(4));
    store.mark_loaded(h(4));
    assert!(store.is_loaded(h(4)));
    assert!(!store.is_loaded(h(5)));
}

#[test]
fn initialize_sets_quarter_volume_and_handles() {
    let mut a = initialize_audio(h(1), h(2), vec![h(10), h(11)]).unwrap();
    assert_eq!(a.music_volume_percent, 25);
    assert_eq!(MUSIC_VOLUME_PERCENT, 25);
    assert_eq!(a.sounds, sounds());
    assert_eq!(a.music.len(), 2);
    assert_eq!(a.music.next(), h(10));
    assert_eq!(a.music.next(), h(11));
}

#[test]
fn initialize_without_tracks_fails() {
    assert!(initialize_audio(h(1), h(2), Vec::new()).is_none());
}
