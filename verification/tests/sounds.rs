use sdop_game::sounds::{MelodyEntry, Song, SongPlayOptions, SoundKind, SoundOptions, SoundSystem};

static MELODY: [MelodyEntry; 2] = [MelodyEntry { note: 3, divider: 4 }, MelodyEntry { note: 5, divider: -8 }];

#[test]
fn note_durations() {
    let song = Song::new(&MELODY, 120);
    // A whole note at 120 beats per minute lasts 2000 ms.
    assert_eq!(song.calc_note_duration(1), 2000);
    assert_eq!(song.calc_note_duration(4), 500);
    assert_eq!(song.calc_note_duration(-4), 750);
    assert_eq!(song.calc_note_duration(-3), 999);
    assert_eq!(song.calc_note_duration(i16::MIN), 0);
    assert_eq!(song.melody().len(), 2);
    assert_eq!(song.melody()[1], MelodyEntry::new(5, -8));
    let slow = Song::new(&MELODY, 85);
    assert_eq!(slow.calc_note_duration(1), 2823);
}

#[test]
fn play_options_kinds() {
    let _ = SoundKind::Music;
    let o = SongPlayOptions::new().with_music();
    let mut system = SoundSystem::new();
    system.push_song(Song::new(&MELODY, 100), o);
    assert!(system.song_queued());
    let _ = SongPlayOptions::default().with_essential().with_effect();
}

#[test]
fn push_then_pull_returns_song() {
    let mut system = SoundSystem::default();
    assert!(!system.song_queued());
    system.push_song(Song::new(&MELODY, 100), SongPlayOptions::new().with_essential());
    assert!(system.song_queued());
    let song = system.pull_song().unwrap();
    assert_eq!(song.calc_note_duration(1), 2400);
    assert!(!system.song_queued());
    assert!(system.pull_song().is_none());
}

#[test]
fn disabled_kind_is_dropped() {
    let mut system = SoundSystem::new();
    system.set_sound_options(SoundOptions { play_music: false, play_effect: true, play_essential: true });
    system.push_song(Song::new(&MELODY, 100), SongPlayOptions::new().with_music());
    assert!(!system.song_queued());
    system.sound_options_mut().play_effect = false;
    assert!(!system.sound_options().play_effect);
    system.clear_song();
    assert!(!system.song_queued());
    system.sound_options_mut().play_effect = true;
    system.clear_song();
    let cleared = system.pull_song().unwrap();
    assert_eq!(cleared.melody().len(), 0);
    assert_eq!(cleared.calc_note_duration(1), 2823);
}

#[test]
fn playing_flag_and_default_options() {
    let mut system = SoundSystem::new();
    assert!(!system.get_playing());
    system.set_playing(true);
    assert!(system.get_playing());
    let options = SoundOptions::default();
    assert!(options.play_music && options.play_effect && options.play_essential);
    assert_eq!(*system.sound_options(), options);
}
