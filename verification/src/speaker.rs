//! Playing sounds through the PC speaker: the PIT channel 2 divisor, the speaker's
//! enable bits, and the notes of the boot chime and the error song.
use vstd::prelude::*;

use crate::ports::Port;
use crate::startup::StartupFlags;
use crate::time::PIT_BASE_FREQ;

verus! {

/// The bits required for the PC speaker to play sound through PIT channel 2.
pub const PLAY_BITS: u8 = 0b11;

/// The PIT command setting up channel 2 for the speaker.
pub const SPEAKER_COMMAND: u8 = 0b10110110;

/// How long each pulse of a repeated sound lasts, in ticks.
pub const PULSE_LENGTH: u64 = 6;

/// The writes that set PIT channel 2 to `freq`: the command, then the low and high bytes
/// of the divisor `PIT_BASE_FREQ / freq`.
pub fn play_writes(freq: u32) -> (r: [(Port, u8); 3])
    requires
        freq != 0,
    ensures
        r@ == seq![
            (Port::PITCmd, SPEAKER_COMMAND),
            (Port::PITChannel2, ((PIT_BASE_FREQ as int / freq as int) % 256) as u8),
            (Port::PITChannel2, (((PIT_BASE_FREQ as int / freq as int) / 256) % 256) as u8),
        ],
{
    let div = (PIT_BASE_FREQ as u32) / freq;
    let r = [
        (Port::PITCmd, SPEAKER_COMMAND),
        (Port::PITChannel2, (div % 256) as u8),
        (Port::PITChannel2, ((div / 256) % 256) as u8),
    ];
    assert(r@ =~= seq![
        (Port::PITCmd, SPEAKER_COMMAND),
        (Port::PITChannel2, ((PIT_BASE_FREQ as int / freq as int) % 256) as u8),
        (Port::PITChannel2, (((PIT_BASE_FREQ as int / freq as int) / 256) % 256) as u8),
    ]);
    r
}

/// The value to write to the speaker port, read as `val`, to make it play: `val` with the
/// play bits set, or nothing when they already are.
pub fn speaker_on(val: u8) -> (r: Option<u8>)
    ensures
        val & PLAY_BITS == PLAY_BITS ==> r is None,
        val & PLAY_BITS != PLAY_BITS ==> r == Some(val | PLAY_BITS),
{
    let on = val | PLAY_BITS;
    assert((val != on) == (val & PLAY_BITS != PLAY_BITS)) by (bit_vector)
        requires
            on == val | 3u8,
            PLAY_BITS == 3u8,
    ;
    if val != on {
        Some(on)
    } else {
        None
    }
}

/// The value to write to the speaker port, read as `val`, to make it stop: `val` with the
/// play bits cleared.
pub fn speaker_off(val: u8) -> (r: u8)
    ensures
        r == val & !PLAY_BITS,
{
    val & !PLAY_BITS
}

/// How a sound is played: `freq` is played for `hold` ticks then stopped, or, when
/// `pulses` is set, played and stopped for `PULSE_LENGTH` ticks each that many times.
#[derive(Debug, Clone, Copy, PartialEq, Eq, Structural)]
pub struct SoundPlan {
    pub freq: u32,
    pub hold: u64,
    pub pulses: Option<u64>,
}

/// How `freq` is played for `millis` milliseconds: the timer ticks every 10
/// milliseconds; a repeated sound pulses once every two pulse lengths, 12 ticks.
pub open spec fn special_plan(freq: u32, millis: u64, repeat: bool) -> SoundPlan {
    let ticks = millis / 10;
    if repeat {
        SoundPlan { freq, hold: ticks, pulses: Some(ticks / 12) }
    } else {
        SoundPlan { freq, hold: ticks, pulses: None }
    }
}

/// Decides how `freq` is played for `millis` milliseconds, repeatedly at 6 tick intervals
/// if `repeat` is set (see [`special_plan`]); nothing is played without a PIT.
pub fn play_special(flags: &StartupFlags, freq: u32, millis: u64, repeat: bool) -> (r: Option<
    SoundPlan,
>)
    ensures
        flags.pit_init@ ==> r == Some(special_plan(freq, millis, repeat)),
        !flags.pit_init@ ==> r is None,
{
    let ticks = millis / 10;
    if !flags.pit_init.load() {
        return None;
    }
    if repeat {
        Some(SoundPlan { freq, hold: ticks, pulses: Some(ticks / (PULSE_LENGTH * 2)) })
    } else {
        Some(SoundPlan { freq, hold: ticks, pulses: None })
    }
}

/// A note: a frequency, how long it lasts in milliseconds, and whether it pulses.
#[derive(Debug, Clone, Copy, PartialEq, Eq, Structural)]
pub struct Note {
    pub freq: u32,
    pub millis: u64,
    pub repeat: bool,
}

/// A note that doesn't pulse.
pub open spec fn note(freq: u32, millis: u64) -> Note {
    Note { freq, millis, repeat: false }
}

/// The notes of the boot chime.
pub open spec fn chime_notes() -> Seq<Note> {
    seq![note(600, 350), note(620, 450), note(600, 350), note(780, 900)]
}

/// The rising set of the error song.
pub open spec fn song_rising() -> Seq<Note> {
    seq![note(400, 300), note(430, 300), note(450, 300), note(500, 250), note(550, 250)]
}

/// The first beeping set of the error song.
pub open spec fn song_beeping_1() -> Seq<Note> {
    seq![note(450, 100), note(400, 150), note(500, 250), note(550, 250)]
}

/// The second beeping set of the error song.
pub open spec fn song_beeping_2() -> Seq<Note> {
    seq![
        note(600, 100),
        note(620, 100),
        note(600, 100),
        note(620, 100),
        note(600, 100),
        note(620, 100),
        note(500, 100),
        note(480, 100),
    ]
}

/// The "uh oh" set of the error song.
pub open spec fn song_uh_oh() -> Seq<Note> {
    seq![Note { freq: 600, millis: 900, repeat: true }, note(500, 800), Note { freq: 600, millis: 900, repeat: true }]
}

/// The fading out set of the error song.
pub open spec fn song_fade_out() -> Seq<Note> {
    seq![
        note(550, 100),
        note(540, 100),
        note(530, 100),
        note(520, 100),
        note(510, 100),
        note(500, 100),
        note(490, 100),
        note(480, 100),
        note(470, 100),
        note(460, 100),
        note(450, 1350),
    ]
}

/// The notes of the error song.
pub open spec fn song_notes() -> Seq<Note> {
    song_rising() + song_beeping_1() + song_beeping_2() + song_beeping_1() + song_rising()
        + song_beeping_1() + song_uh_oh() + song_fade_out()
}

/// Appends the notes `notes[..]` to `out`.
fn push_notes(out: &mut Vec<Note>, notes: &[Note])
    ensures
        final(out)@ == old(out)@ + notes@,
{
    let mut i: usize = 0;
    while i < notes.len()
        invariant
            0 <= i <= notes@.len(),
            out@ == old(out)@ + notes@.subrange(0, i as int),
        decreases notes@.len() - i,
    {
        out.push(notes[i]);
        assert(notes@.subrange(0, i + 1) =~= notes@.subrange(0, i as int).push(notes@[i as int]));
        i = i + 1;
    }
    assert(notes@.subrange(0, notes@.len() as int) =~= notes@);
}

/// The notes of the boot chime.
pub fn play_chime() -> (r: Vec<Note>)
    ensures
        r@ == chime_notes(),
{
    let notes = [
        Note { freq: 600, millis: 350, repeat: false },
        Note { freq: 620, millis: 450, repeat: false },
        Note { freq: 600, millis: 350, repeat: false },
        Note { freq: 780, millis: 900, repeat: false },
    ];
    let mut out: Vec<Note> = Vec::new();
    push_notes(&mut out, &notes);
    assert(out@ =~= chime_notes());
    out
}

/// The notes of the song played when everything is wrong in the world.
pub fn play_song() -> (r: Vec<Note>)
    ensures
        r@ == song_notes(),
{
    let rising = [
        Note { freq: 400, millis: 300, repeat: false },
        Note { freq: 430, millis: 300, repeat: false },
        Note { freq: 450, millis: 300, repeat: false },
        Note { freq: 500, millis: 250, repeat: false },
        Note { freq: 550, millis: 250, repeat: false },
    ];
    let beeping_1 = [
        Note { freq: 450, millis: 100, repeat: false },
        Note { freq: 400, millis: 150, repeat: false },
        Note { freq: 500, millis: 250, repeat: false },
        Note { freq: 550, millis: 250, repeat: false },
    ];
    let beeping_2 = [
        Note { freq: 600, millis: 100, repeat: false },
        Note { freq: 620, millis: 100, repeat: false },
        Note { freq: 600, millis: 100, repeat: false },
        Note { freq: 620, millis: 100, repeat: false },
        Note { freq: 600, millis: 100, repeat: false },
        Note { freq: 620, millis: 100, repeat: false },
        Note { freq: 500, millis: 100, repeat: false },
        Note { freq: 480, millis: 100, repeat: false },
    ];
    let uh_oh = [
        Note { freq: 600, millis: 900, repeat: true },
        Note { freq: 500, millis: 800, repeat: false },
        Note { freq: 600, millis: 900, repeat: true },
    ];
    let fade_out = [
        Note { freq: 550, millis: 100, repeat: false },
        Note { freq: 540, millis: 100, repeat: false },
        Note { freq: 530, millis: 100, repeat: false },
        Note { freq: 520, millis: 100, repeat: false },
        Note { freq: 510, millis: 100, repeat: false },
        Note { freq: 500, millis: 100, repeat: false },
        Note { freq: 490, millis: 100, repeat: false },
        Note { freq: 480, millis: 100, repeat: false },
        Note { freq: 470, millis: 100, repeat: false },
        Note { freq: 460, millis: 100, repeat: false },
        Note { freq: 450, millis: 1350, repeat: false },
    ];
    assert(rising@ =~= song_rising());
    assert(beeping_1@ =~= song_beeping_1());
    assert(beeping_2@ =~= song_beeping_2());
    assert(uh_oh@ =~= song_uh_oh());
    assert(fade_out@ =~= song_fade_out());
    let mut out: Vec<Note> = Vec::new();
    push_notes(&mut out, &rising);
    push_notes(&mut out, &beeping_1);
    push_notes(&mut out, &beeping_2);
    push_notes(&mut out, &beeping_1);
    push_notes(&mut out, &rising);
    push_notes(&mut out, &beeping_1);
    push_notes(&mut out, &uh_oh);
    push_notes(&mut out, &fade_out);
    assert(out@ =~= song_notes());
    out
}

} // verus!
