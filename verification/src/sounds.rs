//! Songs, the kinds of sound, and the queue that holds the next song to play.
use vstd::prelude::*;

verus! {

/// One note of a melody: the note played and its length as a divider of a whole note
/// (negative for a dotted note, one and a half times as long).
#[derive(Clone, Copy, Debug, PartialEq, Eq, Structural)]
pub struct MelodyEntry {
    pub note: u16,
    pub divider: i16,
}

impl MelodyEntry {
    pub fn new(note: u16, divider: i16) -> (r: Self)
        ensures
            r.note == note,
            r.divider == divider,
    {
        MelodyEntry { note, divider }
    }
}

/// Length of a whole note, in milliseconds, at `tempo` beats per minute.
pub open spec fn whole_note_ms(tempo: u16) -> int {
    (240000int) / (tempo as int)
}

/// A melody and its tempo.
#[derive(Clone, Copy, Debug)]
pub struct Song {
    melody: &'static [MelodyEntry],
    tempo: u16,
    whole_note: u32,
}

impl Song {
    pub closed spec fn song_melody(self) -> Seq<MelodyEntry> {
        self.melody@
    }

    pub closed spec fn song_tempo(self) -> u16 {
        self.tempo
    }

    /// Length of a whole note in milliseconds.
    pub closed spec fn song_whole_note(self) -> u32 {
        self.whole_note
    }

    pub fn new(melody: &'static [MelodyEntry], tempo: u16) -> (r: Self)
        requires
            tempo > 0,
        ensures
            r.song_melody() == melody@,
            r.song_tempo() == tempo,
            r.song_whole_note() == whole_note_ms(tempo),
    {
        let whole_note: u32 = (60_000 * 4) / (tempo as u32);
        Song { melody, tempo, whole_note }
    }

    /// The song that silences the player: no notes, at 85 beats per minute.
    pub fn clear() -> (r: Self)
        ensures
            r.song_melody().len() == 0,
            r.song_tempo() == 85,
            r.song_whole_note() == whole_note_ms(85),
    {
        let empty: &'static [MelodyEntry] = &[];
        Song::new(empty, 85)
    }

    pub fn melody(&self) -> (r: &'static [MelodyEntry])
        ensures
            r@ == self.song_melody(),
    {
        self.melody
    }

    /// Length in milliseconds of a note with divider `divider`: the whole note divided by
    /// it, and for a negative (dotted) divider one and a half times the whole note divided
    /// by its magnitude, rounded down.
    pub fn calc_note_duration(&self, divider: i16) -> (r: u64)
        requires
            divider != 0,
        ensures
            divider > 0 ==> r == (self.song_whole_note() as int) / (divider as int),
            divider < 0 ==> r == ((self.song_whole_note() as int) / (-(divider as int))) * 3 / 2,
    {
        if divider > 0 {
            let d: u32 = divider as u32;
            (self.whole_note / d) as u64
        } else {
            let magnitude: u32 = if divider == i16::MIN {
                32768
            } else {
                (-divider) as u32
            };
            let duration: u64 = (self.whole_note / magnitude) as u64;
            duration * 3 / 2
        }
    }
}

/// The kinds of sound, each of which can be turned off on its own.
#[derive(Clone, Copy, Debug, PartialEq, Eq, Structural)]
pub enum SoundKind {
    Music,
    Effect,
    Essential,
}

/// How a song is to be played: as which kind of sound.
pub struct SongPlayOptions {
    kind: SoundKind,
}

impl SongPlayOptions {
    pub closed spec fn play_kind(self) -> SoundKind {
        self.kind
    }

    /// Options for an effect.
    pub fn new() -> (r: Self)
        ensures
            r.play_kind() == SoundKind::Effect,
    {
        SongPlayOptions { kind: SoundKind::Effect }
    }

    pub fn with_music(self) -> (r: Self)
        ensures
            r.play_kind() == SoundKind::Music,
    {
        let mut s = self;
        s.kind = SoundKind::Music;
        s
    }

    pub fn with_effect(self) -> (r: Self)
        ensures
            r.play_kind() == SoundKind::Effect,
    {
        let mut s = self;
        s.kind = SoundKind::Effect;
        s
    }

    pub fn with_essential(self) -> (r: Self)
        ensures
            r.play_kind() == SoundKind::Essential,
    {
        let mut s = self;
        s.kind = SoundKind::Essential;
        s
    }
}

impl Default for SongPlayOptions {
    fn default() -> (r: Self)
        ensures
            r.play_kind() == SoundKind::Effect,
    {
        SongPlayOptions::new()
    }
}

/// Which kinds of sound the player wants to hear.
#[derive(Clone, Copy, Debug, PartialEq, Eq, Structural)]
pub struct SoundOptions {
    pub play_music: bool,
    pub play_effect: bool,
    pub play_essential: bool,
}

/// Whether sounds of kind `kind` are to be played under `options`.
pub open spec fn kind_enabled(options: SoundOptions, kind: SoundKind) -> bool {
    match kind {
        SoundKind::Music => options.play_music,
        SoundKind::Effect => options.play_effect,
        SoundKind::Essential => options.play_essential,
    }
}

impl Default for SoundOptions {
    /// Every kind of sound on.
    fn default() -> (r: Self)
        ensures
            r.play_music && r.play_effect && r.play_essential,
    {
        SoundOptions { play_music: true, play_effect: true, play_essential: true }
    }
}

/// The queue after `song` is pushed with `play` onto queue `queued` under `options`: the song
/// replaces what was queued when its kind of sound is on, and the queue stays as it was otherwise.
pub open spec fn queue_after_push(
    queued: Option<Song>,
    options: SoundOptions,
    song: Song,
    play: SongPlayOptions,
) -> Option<Song> {
    if kind_enabled(options, play.play_kind()) {
        Some(song)
    } else {
        queued
    }
}

/// A song pushed while its kind of sound is on is the song that the next pull hands out, whatever
/// was queued before; with its kind off, the next pull hands out what was queued before.
pub proof fn lemma_pull_gives_pushed(
    queued: Option<Song>,
    options: SoundOptions,
    song: Song,
    play: SongPlayOptions,
)
    ensures
        kind_enabled(options, play.play_kind()) ==> queue_after_push(queued, options, song, play)
            == Some(song),
        !kind_enabled(options, play.play_kind()) ==> queue_after_push(queued, options, song, play)
            == queued,
{
}

/// The song waiting to be played, whether one is playing, and the sound options.
pub struct SoundSystem {
    pending: Option<Song>,
    playing: bool,
    options: SoundOptions,
}

impl SoundSystem {
    pub closed spec fn queued(self) -> Option<Song> {
        self.pending
    }

    pub closed spec fn is_playing(self) -> bool {
        self.playing
    }

    pub closed spec fn current_options(self) -> SoundOptions {
        self.options
    }

    /// Nothing queued, nothing playing, every kind of sound on.
    pub fn new() -> (r: Self)
        ensures
            r.queued() is None,
            !r.is_playing(),
            r.current_options() == (SoundOptions {
                play_music: true,
                play_effect: true,
                play_essential: true,
            }),
    {
        SoundSystem { pending: None, playing: false, options: SoundOptions::default() }
    }

    /// Queues `song`, replacing any queued song, unless its kind of sound is turned off.
    pub fn push_song(&mut self, song: Song, options: SongPlayOptions)
        ensures
            final(self).queued() == queue_after_push(
                old(self).queued(),
                old(self).current_options(),
                song,
                options,
            ),
            final(self).is_playing() == old(self).is_playing(),
            final(self).current_options() == old(self).current_options(),
            options.play_kind() == SoundKind::Essential ==> final(self).queued() == if old(
                self,
            ).current_options().play_essential {
                Some(song)
            } else {
                old(self).queued()
            },
            options.play_kind() == SoundKind::Effect ==> final(self).queued() == if old(
                self,
            ).current_options().play_effect {
                Some(song)
            } else {
                old(self).queued()
            },
            options.play_kind() == SoundKind::Music ==> final(self).queued() == if old(
                self,
            ).current_options().play_music {
                Some(song)
            } else {
                old(self).queued()
            },
    {
        match options.kind {
            SoundKind::Music => {
                if !self.options.play_music {
                    return;
                }
            },
            SoundKind::Effect => {
                if !self.options.play_effect {
                    return;
                }
            },
            SoundKind::Essential => {
                if !self.options.play_essential {
                    return;
                }
            },
        }
        self.pending = Some(song);
    }

    /// Takes the queued song out of the queue.
    pub fn pull_song(&mut self) -> (r: Option<Song>)
        ensures
            r == old(self).queued(),
            final(self).queued() is None,
            final(self).is_playing() == old(self).is_playing(),
            final(self).current_options() == old(self).current_options(),
    {
        self.pending.take()
    }

    /// Queues the silent song as an effect.
    pub fn clear_song(&mut self)
        ensures
            old(self).current_options().play_effect ==> (final(self).queued() matches Some(s)
                && s.song_melody().len() == 0 && s.song_tempo() == 85 && s.song_whole_note()
                == whole_note_ms(85)),
            !old(self).current_options().play_effect ==> final(self).queued() == old(
                self,
            ).queued(),
            final(self).current_options() == old(self).current_options(),
            final(self).is_playing() == old(self).is_playing(),
    {
        self.push_song(Song::clear(), SongPlayOptions::new());
    }

    pub fn song_queued(&self) -> (r: bool)
        ensures
            r == self.queued() is Some,
    {
        self.pending.is_some()
    }

    pub fn set_playing(&mut self, playing: bool)
        ensures
            final(self).is_playing() == playing,
            final(self).queued() == old(self).queued(),
            final(self).current_options() == old(self).current_options(),
    {
        self.playing = playing;
    }

    pub fn get_playing(&self) -> (r: bool)
        ensures
            r == self.is_playing(),
    {
        self.playing
    }

    pub fn sound_options(&self) -> (r: &SoundOptions)
        ensures
            *r == self.current_options(),
    {
        &self.options
    }

    pub fn sound_options_mut(&mut self) -> (r: &mut SoundOptions)
        ensures
            *r == old(self).current_options(),
            final(self).current_options() == *final(r),
            final(self).queued() == old(self).queued(),
            final(self).is_playing() == old(self).is_playing(),
    {
        &mut self.options
    }

    pub fn set_sound_options(&mut self, options: SoundOptions)
        ensures
            final(self).current_options() == options,
            final(self).queued() == old(self).queued(),
            final(self).is_playing() == old(self).is_playing(),
    {
        self.options = options;
    }
}

impl Default for SoundSystem {
    fn default() -> (r: Self)
        ensures
            r.queued() is None,
            !r.is_playing(),
    {
        SoundSystem::new()
    }
}

/// Each kind of sound answers to its own switch alone: an essential song to the essential
/// switch, an effect to the effect switch, music to the music switch.
pub proof fn lemma_kind_switches(options: SoundOptions)
    ensures
        kind_enabled(options, SoundKind::Essential) == options.play_essential,
        kind_enabled(options, SoundKind::Effect) == options.play_effect,
        kind_enabled(options, SoundKind::Music) == options.play_music,
{
}

} // verus!
