//! The PS/2 keyboard driver: the scancode ring buffer filled by the keyboard interrupt,
//! the shift and SysRq key tracking, and what a key press does.
use vstd::prelude::*;

use pc_keyboard::layouts::Us104Key;
use pc_keyboard::{
    DecodedKey, HandleControl, KeyCode, KeyEvent, KeyState, PS2Keyboard, ScancodeSet2,
};

use crate::startup::StartupFlags;
use crate::vga::cursor::CursorShift;

verus! {

// ---------------------------------------------------------------------------
// The keyboard decoder of `pc_keyboard`
// ---------------------------------------------------------------------------

#[verifier::external_type_specification]
#[verifier::external_body]
pub struct ExKeyCode(KeyCode);

/// The keyboard decoder of `pc_keyboard` the driver uses (US 104 key layout, scancode
/// set 2), held opaquely: the generic `PS2Keyboard` can't be declared as an outside type.
#[verifier::external_body]
pub struct Decoder {
    kbd: PS2Keyboard<Us104Key, ScancodeSet2>,
}

// The code numbers (`KeyCode as u8`) of the keys the driver and the decoder single out.

/// The code number of `F1`; `F2` to `F7` follow it.
pub const CODE_F1: u8 = 1;
/// The code number of `PauseBreak`.
pub const CODE_PAUSE: u8 = 16;
/// The code number of `NumpadLock`.
pub const CODE_NUMLOCK: u8 = 34;
/// The code number of `CapsLock`.
pub const CODE_CAPSLOCK: u8 = 60;
/// The code number of `LShift`.
pub const CODE_LSHIFT: u8 = 76;
/// The code number of `RShift`.
pub const CODE_RSHIFT: u8 = 87;
/// The code number of `ArrowUp`.
pub const CODE_UP: u8 = 88;
/// The code number of `LControl`.
pub const CODE_LCTRL: u8 = 93;
/// The code number of `LAlt`.
pub const CODE_LALT: u8 = 95;
/// The code number of `RAltGr`.
pub const CODE_RALT: u8 = 97;
/// The code number of `RControl`.
pub const CODE_RCTRL: u8 = 100;
/// The code number of `ArrowLeft`.
pub const CODE_LEFT: u8 = 101;
/// The code number of `ArrowDown`.
pub const CODE_DOWN: u8 = 102;
/// The code number of `ArrowRight`.
pub const CODE_RIGHT: u8 = 103;
/// The code number of `RControl2`.
pub const CODE_RCTRL2: u8 = 122;

/// A key mapped through the keyboard layout, by code number: a raw key or a character.
#[derive(Debug, Clone, Copy, PartialEq, Eq, Structural)]
pub enum DecodedCode {
    Raw(u8),
    Unicode(char),
}

/// The bytes fed to the decoder since it was made.
pub uninterp spec fn decoder_bytes(kbd: Decoder) -> Seq<u8>;

/// The decoder's modifier state.
pub uninterp spec fn decoder_mods(kbd: Decoder) -> Modifiers;

/// The key event, as a code number and a new key state, that the scancode set 2 state
/// machine gives for the last byte of `bytes`, all bytes fed to it since it was made;
/// none when that byte completes no event or isn't valid.
pub uninterp spec fn set2_event(bytes: Seq<u8>) -> Option<(u8, KeyDir)>;

/// What the US 104 layout maps the key with code number `code` to, with the modifiers
/// `mods` and control keys passed through, by code number.
pub uninterp spec fn us104_key(code: u8, mods: Modifiers) -> DecodedCode;

/// The modifiers every decoder starts with: num lock on, everything else off.
pub open spec fn initial_mods() -> Modifiers {
    Modifiers {
        lshift: false,
        rshift: false,
        lctrl: false,
        rctrl: false,
        numlock: true,
        capslock: false,
        lalt: false,
        ralt: false,
        rctrl2: false,
    }
}

/// The modifiers after the decoder handles the event for `code` going to `dir` with the
/// modifiers `m`: shift, control and alt keys are held while down, caps lock toggles on
/// each press, and num lock too unless the hidden second right control is held (then the
/// key is the pause key).
pub open spec fn mods_after(m: Modifiers, code: u8, dir: KeyDir) -> Modifiers {
    let held = dir == KeyDir::Down;
    if dir != KeyDir::Down && dir != KeyDir::Up {
        m
    } else if code == CODE_LSHIFT {
        Modifiers { lshift: held, ..m }
    } else if code == CODE_RSHIFT {
        Modifiers { rshift: held, ..m }
    } else if code == CODE_LCTRL {
        Modifiers { lctrl: held, ..m }
    } else if code == CODE_RCTRL {
        Modifiers { rctrl: held, ..m }
    } else if code == CODE_LALT {
        Modifiers { lalt: held, ..m }
    } else if code == CODE_RALT {
        Modifiers { ralt: held, ..m }
    } else if code == CODE_RCTRL2 {
        Modifiers { rctrl2: held, ..m }
    } else if code == CODE_CAPSLOCK && held {
        Modifiers { capslock: !m.capslock, ..m }
    } else if code == CODE_NUMLOCK && held && !m.rctrl2 {
        Modifiers { numlock: !m.numlock, ..m }
    } else {
        m
    }
}

/// Whether `code` is a shift, control, alt or lock key, which the decoder handles itself.
pub open spec fn is_modifier_code(code: u8) -> bool {
    code == CODE_LSHIFT || code == CODE_RSHIFT || code == CODE_LCTRL || code == CODE_RCTRL
        || code == CODE_LALT || code == CODE_RALT || code == CODE_RCTRL2 || code == CODE_CAPSLOCK
        || code == CODE_NUMLOCK
}

/// What the decoder makes of the event for `code` going to `dir` with the modifiers `m`:
/// nothing unless the key goes down; a modifier key comes back raw (num lock as the pause
/// key while the hidden second right control is held); any other key goes through the
/// layout.
pub open spec fn decoded_spec(m: Modifiers, code: u8, dir: KeyDir) -> Option<DecodedCode> {
    if dir != KeyDir::Down {
        None
    } else if code == CODE_NUMLOCK && m.rctrl2 {
        Some(DecodedCode::Raw(CODE_PAUSE))
    } else if is_modifier_code(code) {
        Some(DecodedCode::Raw(code))
    } else {
        Some(us104_key(code, m))
    }
}

/// Whether `code` is one of F1 to F7 or an arrow key, which the US 104 layout passes
/// through as raw keys.
pub open spec fn is_passed_through(code: u8) -> bool {
    (CODE_F1 <= code <= CODE_F1 + 6) || code == CODE_UP || code == CODE_LEFT || code == CODE_DOWN
        || code == CODE_RIGHT
}

/// A key event completed by the decoder: its key code, that code's number, and the key's
/// new state. Only [`decoder_add_byte`] makes one, from the decoder's event.
pub struct Event {
    code: KeyCode,
    num: u8,
    dir: KeyDir,
}

impl Event {
    /// The key's code number.
    pub closed spec fn num(&self) -> u8 {
        self.num
    }

    /// The key's new state.
    pub closed spec fn dir(&self) -> KeyDir {
        self.dir
    }

    /// The key the driver acts on for this event.
    pub open spec fn key(&self) -> Key {
        key_of_num(self.num())
    }

    /// Returns the key the driver acts on for this event.
    pub fn get_key(&self) -> (r: Key)
        ensures
            r == self.key(),
    {
        key_from_num(self.num)
    }

    /// Returns the key's new state.
    pub fn get_dir(&self) -> (r: KeyDir)
        ensures
            r == self.dir(),
    {
        self.dir
    }
}

/// Calls `PS2Keyboard::new` with scancode set 2, the US 104 key layout and control keys
/// passed through. The new decoder has been fed no bytes and starts with the modifiers of
/// `EventDecoder::new`.
#[verifier::external_body]
pub fn new_decoder() -> (r: Decoder)
    ensures
        decoder_bytes(r) == Seq::<u8>::empty(),
        decoder_mods(r) == initial_mods(),
{
    Decoder { kbd: PS2Keyboard::new(ScancodeSet2::new(), Us104Key, HandleControl::Ignore) }
}

/// Calls `PS2Keyboard::clear`, which clears only the PS/2 bit register: the scancode
/// state machine and the modifiers are kept.
#[verifier::external_body]
fn decoder_clear(kbd: &mut Decoder)
    ensures
        decoder_bytes(*final(kbd)) == decoder_bytes(*old(kbd)),
        decoder_mods(*final(kbd)) == decoder_mods(*old(kbd)),
{
    kbd.kbd.clear()
}

/// Calls `PS2Keyboard::add_byte`, which advances the scancode set's state machine by
/// `byte`, and converts a completed `KeyEvent` field by field into an [`Event`]; a
/// decoding error is returned as `None`, like a byte that completes no event.
#[verifier::external_body]
fn decoder_add_byte(kbd: &mut Decoder, byte: u8) -> (r: Option<Event>)
    ensures
        decoder_bytes(*final(kbd)) == decoder_bytes(*old(kbd)).push(byte),
        decoder_mods(*final(kbd)) == decoder_mods(*old(kbd)),
        match r {
            None => set2_event(decoder_bytes(*final(kbd))) is None,
            Some(e) => set2_event(decoder_bytes(*final(kbd))) == Some((e.num(), e.dir())),
        },
{
    match kbd.kbd.add_byte(byte) {
        Ok(Some(ev)) => Some(Event { code: ev.code, num: ev.code as u8, dir: match ev.state {
            KeyState::Up => KeyDir::Up,
            KeyState::Down => KeyDir::Down,
            KeyState::SingleShot => KeyDir::SingleShot,
        } }),
        _ => None,
    }
}

/// Calls `PS2Keyboard::process_keyevent` on the `KeyEvent` of `ev` and converts the
/// decoded key to code numbers: the modifiers change as [`mods_after`] says and the result
/// is [`decoded_spec`] (as the source shows), where an F1 to F7 or arrow key comes back
/// raw.
#[verifier::external_body]
fn decoder_process(kbd: &mut Decoder, ev: &Event) -> (r: Option<DecodedCode>)
    ensures
        decoder_bytes(*final(kbd)) == decoder_bytes(*old(kbd)),
        decoder_mods(*final(kbd)) == mods_after(decoder_mods(*old(kbd)), ev.num(), ev.dir()),
        r == decoded_spec(decoder_mods(*old(kbd)), ev.num(), ev.dir()),
        ev.dir() == KeyDir::Down && !is_modifier_code(ev.num()) ==> r == Some(
            us104_key(ev.num(), decoder_mods(*old(kbd))),
        ),
        ev.dir() == KeyDir::Down && is_passed_through(ev.num()) ==> r == Some(
            DecodedCode::Raw(ev.num()),
        ),
{
    let state = match ev.dir {
        KeyDir::Up => KeyState::Up,
        KeyDir::Down => KeyState::Down,
        KeyDir::SingleShot => KeyState::SingleShot,
    };
    match kbd.kbd.process_keyevent(KeyEvent::new(ev.code, state)) {
        Some(DecodedKey::RawKey(code)) => Some(DecodedCode::Raw(code as u8)),
        Some(DecodedKey::Unicode(c)) => Some(DecodedCode::Unicode(c)),
        None => None,
    }
}

/// Calls `PS2Keyboard::get_modifiers` and copies the modifier flags field by field.
#[verifier::external_body]
fn decoder_modifiers(kbd: &Decoder) -> (r: Modifiers)
    ensures
        r == decoder_mods(*kbd),
{
    let m = kbd.kbd.get_modifiers();
    Modifiers {
        lshift: m.lshift,
        rshift: m.rshift,
        lctrl: m.lctrl,
        rctrl: m.rctrl,
        numlock: m.numlock,
        capslock: m.capslock,
        lalt: m.lalt,
        ralt: m.ralt,
        rctrl2: m.rctrl2,
    }
}

/// The key the driver acts on for the code number `n`.
pub open spec fn key_of_num(n: u8) -> Key {
    if n == CODE_F1 {
        Key::F1
    } else if n == CODE_F1 + 1 {
        Key::F2
    } else if n == CODE_F1 + 2 {
        Key::F3
    } else if n == CODE_F1 + 3 {
        Key::F4
    } else if n == CODE_F1 + 4 {
        Key::F5
    } else if n == CODE_F1 + 5 {
        Key::F6
    } else if n == CODE_F1 + 6 {
        Key::F7
    } else if n == CODE_LEFT {
        Key::ArrowLeft
    } else if n == CODE_RIGHT {
        Key::ArrowRight
    } else if n == CODE_UP {
        Key::ArrowUp
    } else if n == CODE_DOWN {
        Key::ArrowDown
    } else {
        Key::Other
    }
}

/// Returns the key the driver acts on for the code number `n`, see [`key_of_num`].
pub fn key_from_num(n: u8) -> (r: Key)
    ensures
        r == key_of_num(n),
{
    if n == CODE_F1 {
        Key::F1
    } else if n == CODE_F1 + 1 {
        Key::F2
    } else if n == CODE_F1 + 2 {
        Key::F3
    } else if n == CODE_F1 + 3 {
        Key::F4
    } else if n == CODE_F1 + 4 {
        Key::F5
    } else if n == CODE_F1 + 5 {
        Key::F6
    } else if n == CODE_F1 + 6 {
        Key::F7
    } else if n == CODE_LEFT {
        Key::ArrowLeft
    } else if n == CODE_RIGHT {
        Key::ArrowRight
    } else if n == CODE_UP {
        Key::ArrowUp
    } else if n == CODE_DOWN {
        Key::ArrowDown
    } else {
        Key::Other
    }
}

/// A decoded key with its raw key code number turned into the key the driver acts on.
pub open spec fn decoded_key(d: Option<DecodedCode>) -> Option<Decoded> {
    match d {
        None => None,
        Some(DecodedCode::Raw(n)) => Some(Decoded::Raw(key_of_num(n))),
        Some(DecodedCode::Unicode(c)) => Some(Decoded::Unicode(c)),
    }
}

/// Turns the raw key code number of `d` into the key the driver acts on, see
/// [`decoded_key`].
pub fn to_decoded(d: Option<DecodedCode>) -> (r: Option<Decoded>)
    ensures
        r == decoded_key(d),
{
    match d {
        None => None,
        Some(DecodedCode::Raw(n)) => Some(Decoded::Raw(key_from_num(n))),
        Some(DecodedCode::Unicode(c)) => Some(Decoded::Unicode(c)),
    }
}

// ---------------------------------------------------------------------------
// Plain values of key events
// ---------------------------------------------------------------------------

/// The new state of a key in a key event.
#[derive(Debug, Clone, Copy, PartialEq, Eq, Structural)]
pub enum KeyDir {
    Up,
    Down,
    SingleShot,
}

/// The keys the driver acts on by their key code; every other key is `Other`.
#[derive(Debug, Clone, Copy, PartialEq, Eq, Structural)]
pub enum Key {
    F1,
    F2,
    F3,
    F4,
    F5,
    F6,
    F7,
    ArrowLeft,
    ArrowRight,
    ArrowUp,
    ArrowDown,
    Other,
}

/// The character the US keyboard types for the digit or symbol key `c` with shift held.
pub open spec fn us_shifted(c: char) -> Option<char> {
    if c == '1' { Some('!') }
    else if c == '2' { Some('@') }
    else if c == '3' { Some('#') }
    else if c == '4' { Some('$') }
    else if c == '5' { Some('%') }
    else if c == '6' { Some('^') }
    else if c == '7' { Some('&') }
    else if c == '8' { Some('*') }
    else if c == '9' { Some('(') }
    else if c == '0' { Some(')') }
    else if c == '-' { Some('_') }
    else if c == '=' { Some('+') }
    else if c == '[' { Some('{') }
    else if c == ']' { Some('}') }
    else if c == '\\' { Some('|') }
    else if c == ';' { Some(':') }
    else if c == '\'' { Some('"') }
    else if c == ',' { Some('<') }
    else if c == '.' { Some('>') }
    else if c == '/' { Some('?') }
    else if c == '`' { Some('~') }
    else { None }
}

/// A key mapped through the keyboard layout: a raw key or a unicode character.
#[derive(Debug, Clone, Copy, PartialEq, Eq, Structural)]
pub enum Decoded {
    Raw(Key),
    Unicode(char),
}

/// The state of the modifier keys.
#[derive(Debug, Clone, Copy, PartialEq, Eq, Structural)]
pub struct Modifiers {
    pub lshift: bool,
    pub rshift: bool,
    pub lctrl: bool,
    pub rctrl: bool,
    pub numlock: bool,
    pub capslock: bool,
    pub lalt: bool,
    pub ralt: bool,
    pub rctrl2: bool,
}

impl Modifiers {
    /// Whether either control key is held.
    pub fn is_ctrl(&self) -> (r: bool)
        ensures
            r == (self.lctrl || self.rctrl),
    {
        self.lctrl || self.rctrl
    }

    /// Whether either alt key is held.
    pub fn is_alt(&self) -> (r: bool)
        ensures
            r == (self.lalt || self.ralt),
    {
        self.lalt || self.ralt
    }
}

// ---------------------------------------------------------------------------
// The scancode ring buffer
// ---------------------------------------------------------------------------

/// The scancode of the left shift key in set 2.
pub const LSHIFT_SCANCODE: u8 = 0x12;
/// The scancode of the right shift key in set 2.
pub const RSHIFT_SCANCODE: u8 = 0x59;
/// The scancode of the SysRq key in set 2.
pub const SYSRQ_SCANCODE: u8 = 0x7F;
/// The other scancode the SysRq key may send.
pub const SYSRQ_SCANCODE_ALT: u8 = 0x7C;
/// The scancode for `y` in set 2.
pub const Y_SCANCODE: u8 = 0x35;
/// The scancode for `n` in set 2.
pub const N_SCANCODE: u8 = 0x31;
/// The scancode for `enter` in set 2.
pub const ENTER_SCANCODE: u8 = 0x5A;

/// Circular buffer of the scancodes received from the keyboard, with the index of the
/// next one to handle (`rptr`) and of the next one to add (`wptr`), both wrapping around
/// at 256, and the last scancode received.
pub struct KbdBuffer {
    buf: [u8; 256],
    rptr: u8,
    wptr: u8,
    prev: u8,
}

/// The abstract contents of a [`KbdBuffer`].
pub struct KbdBufferView {
    pub buf: Seq<u8>,
    pub rptr: u8,
    pub wptr: u8,
    pub prev: u8,
}

impl View for KbdBuffer {
    type V = KbdBufferView;

    closed spec fn view(&self) -> KbdBufferView {
        KbdBufferView { buf: self.buf@, rptr: self.rptr, wptr: self.wptr, prev: self.prev }
    }
}

/// The buffer after the scancode `sc` is received: stored at the write index, which moves
/// on (wrapping around), and remembered as the last response.
pub open spec fn pushed(b: KbdBufferView, sc: u8) -> KbdBufferView {
    KbdBufferView {
        buf: b.buf.update(b.wptr as int, sc),
        rptr: b.rptr,
        wptr: ((b.wptr + 1) % 256) as u8,
        prev: sc,
    }
}

/// The buffer after one poll: when the read index has caught up with the write index it's
/// moved onto it, otherwise it moves past the scancode it points at.
pub open spec fn polled(b: KbdBufferView) -> KbdBufferView {
    if b.rptr >= b.wptr {
        KbdBufferView { rptr: b.wptr, ..b }
    } else {
        KbdBufferView { rptr: (b.rptr + 1) as u8, ..b }
    }
}

/// The scancode one poll hands out, if any.
pub open spec fn polled_scancode(b: KbdBufferView) -> Option<u8> {
    if b.rptr >= b.wptr {
        None
    } else {
        Some(b.buf[b.rptr as int])
    }
}

impl KbdBuffer {
    /// An empty buffer.
    pub fn new() -> (r: Self)
        ensures
            r@.buf == Seq::new(256, |i: int| 0u8),
            r@.rptr == 0 && r@.wptr == 0 && r@.prev == 0,
    {
        let r = KbdBuffer { buf: [0u8; 256], rptr: 0, wptr: 0, prev: 0 };
        assert(r@.buf =~= Seq::new(256, |i: int| 0u8));
        r
    }

    /// The last scancode received.
    pub fn prev_response(&self) -> (r: u8)
        ensures
            r == self@.prev,
    {
        self.prev
    }

    /// Adds `scancode` to the buffer.
    pub fn push(&mut self, scancode: u8)
        ensures
            final(self)@ == pushed(old(self)@, scancode),
    {
        let ptr = self.wptr;
        self.wptr = if ptr == 255 {
            0
        } else {
            ptr + 1
        };
        self.buf[ptr as usize] = scancode;
        self.prev = scancode;
        assert(self@.buf =~= old(self)@.buf.update(ptr as int, scancode));
    }

    /// Takes the next scancode to handle out of the buffer, if there is one.
    pub fn pop(&mut self) -> (r: Option<u8>)
        ensures
            final(self)@ == polled(old(self)@),
            r == polled_scancode(old(self)@),
    {
        if self.rptr >= self.wptr {
            self.rptr = self.wptr;
            None
        } else {
            let sc = self.buf[self.rptr as usize];
            self.rptr = self.rptr + 1;
            Some(sc)
        }
    }
}

/// A scancode received from an empty buffer whose write index isn't about to wrap
/// around is the next one a poll hands out, and the buffer is empty again after it.
pub proof fn lemma_push_then_pop(b: KbdBufferView, sc: u8)
    requires
        b.buf.len() == 256,
        b.rptr == b.wptr,
        b.wptr < 255,
    ensures
        polled_scancode(pushed(b, sc)) == Some(sc),
        polled(pushed(b, sc)).rptr == polled(pushed(b, sc)).wptr,
{
}

/// Handles a scancode read from the keyboard's data port by the keyboard interrupt:
/// ignored until the keyboard is initialised, added to the buffer afterwards.
pub fn kbd_handler(flags: &StartupFlags, kbuf: &mut KbdBuffer, scancode: u8)
    ensures
        flags.kbd_init@ ==> final(kbuf)@ == pushed(old(kbuf)@, scancode),
        !flags.kbd_init@ ==> final(kbuf)@ == old(kbuf)@,
{
    if !flags.kbd_init.load() {
        return ;
    }
    kbuf.push(scancode);
}

/// The answer a scancode gives to a yes or no question: `y` means yes, `n` no, and
/// `enter` the default answer `enter_eq_true`; any other key gives none.
pub open spec fn response_spec(scancode: u8, enter_eq_true: bool) -> Option<bool> {
    if scancode == Y_SCANCODE {
        Some(true)
    } else if scancode == N_SCANCODE {
        Some(false)
    } else if scancode == ENTER_SCANCODE {
        Some(enter_eq_true)
    } else {
        None
    }
}

/// The answer the last scancode received gives to a yes or no question, see
/// [`response_spec`].
pub fn check_response(scancode: u8, enter_eq_true: bool) -> (r: Option<bool>)
    ensures
        r == response_spec(scancode, enter_eq_true),
{
    if scancode == Y_SCANCODE {
        Some(true)
    } else if scancode == N_SCANCODE {
        Some(false)
    } else if scancode == ENTER_SCANCODE {
        Some(enter_eq_true)
    } else {
        None
    }
}

// ---------------------------------------------------------------------------
// Shift and SysRq tracking
// ---------------------------------------------------------------------------

/// The state of the shift keys (bit 0: left shift held, bit 1: right shift held) and of
/// the SysRq key.
#[derive(Debug, Clone, Copy, PartialEq, Eq, Structural)]
pub struct KbdState {
    pub shift: u8,
    pub sysrq: bool,
}

/// The state after a key event for `scancode`: a shift or SysRq key going down sets its
/// flag, going up clears it; anything else changes nothing. Flags are set and cleared
/// rather than flipped so that a key held at boot can't get stuck.
pub open spec fn track_keys(s: KbdState, scancode: u8, dir: KeyDir) -> KbdState {
    match dir {
        KeyDir::Down => if scancode == LSHIFT_SCANCODE {
            KbdState { shift: s.shift | 1u8, ..s }
        } else if scancode == RSHIFT_SCANCODE {
            KbdState { shift: s.shift | 2u8, ..s }
        } else if scancode == SYSRQ_SCANCODE || scancode == SYSRQ_SCANCODE_ALT {
            KbdState { sysrq: true, ..s }
        } else {
            s
        },
        KeyDir::Up => if scancode == LSHIFT_SCANCODE {
            KbdState { shift: s.shift & 0xFEu8, ..s }
        } else if scancode == RSHIFT_SCANCODE {
            KbdState { shift: s.shift & 0xFDu8, ..s }
        } else if scancode == SYSRQ_SCANCODE || scancode == SYSRQ_SCANCODE_ALT {
            KbdState { sysrq: false, ..s }
        } else {
            s
        },
        KeyDir::SingleShot => s,
    }
}

impl KbdState {
    /// No shift or SysRq key held.
    pub fn new() -> (r: Self)
        ensures
            r.shift == 0 && !r.sysrq,
    {
        KbdState { shift: 0, sysrq: false }
    }

    /// Updates the state for a key event, see [`track_keys`].
    pub fn track_keys(&mut self, scancode: u8, dir: KeyDir)
        ensures
            *final(self) == track_keys(*old(self), scancode, dir),
    {
        match dir {
            KeyDir::Down => {
                if scancode == LSHIFT_SCANCODE {
                    self.shift = self.shift | 1;
                } else if scancode == RSHIFT_SCANCODE {
                    self.shift = self.shift | 2;
                } else if scancode == SYSRQ_SCANCODE || scancode == SYSRQ_SCANCODE_ALT {
                    self.sysrq = true;
                }
            },
            KeyDir::Up => {
                if scancode == LSHIFT_SCANCODE {
                    self.shift = self.shift & 0xFE;
                } else if scancode == RSHIFT_SCANCODE {
                    self.shift = self.shift & 0xFD;
                } else if scancode == SYSRQ_SCANCODE || scancode == SYSRQ_SCANCODE_ALT {
                    self.sysrq = false;
                }
            },
            KeyDir::SingleShot => {},
        }
    }
}

/// Pressing then releasing a shift key leaves it released and the other shift key as it
/// was; pressing then releasing SysRq leaves it released.
pub proof fn lemma_press_release(s: KbdState, scancode: u8)
    ensures
        scancode == LSHIFT_SCANCODE ==> track_keys(
            track_keys(s, scancode, KeyDir::Down),
            scancode,
            KeyDir::Up,
        ).shift == s.shift & 0xFEu8,
        scancode == RSHIFT_SCANCODE ==> track_keys(
            track_keys(s, scancode, KeyDir::Down),
            scancode,
            KeyDir::Up,
        ).shift == s.shift & 0xFDu8,
        (scancode == SYSRQ_SCANCODE || scancode == SYSRQ_SCANCODE_ALT) ==> !track_keys(
            track_keys(s, scancode, KeyDir::Down),
            scancode,
            KeyDir::Up,
        ).sysrq,
{
    let x = s.shift;
    assert((x | 1u8) & 0xFEu8 == x & 0xFEu8) by (bit_vector);
    assert((x | 2u8) & 0xFDu8 == x & 0xFDu8) by (bit_vector);
}

/// A scancode other than the shift and SysRq keys' leaves the state as it was.
pub proof fn lemma_other_keys_keep_state(s: KbdState, scancode: u8, dir: KeyDir)
    requires
        scancode != LSHIFT_SCANCODE,
        scancode != RSHIFT_SCANCODE,
        scancode != SYSRQ_SCANCODE,
        scancode != SYSRQ_SCANCODE_ALT,
    ensures
        track_keys(s, scancode, dir) == s,
{
}

// ---------------------------------------------------------------------------
// What a key press does
// ---------------------------------------------------------------------------

/// The system commands, run with Ctrl+Alt+FX or SysRq+FX.
#[derive(Debug, Clone, Copy, PartialEq, Eq, Structural)]
pub enum SysCmd {
    /// F1: print system information.
    SysInfo,
    /// F2: clear the screen.
    Clear,
    /// F3: beep the PC speaker.
    PlaySong,
    /// F4: trigger a kernel panic.
    Panic,
    /// F5: restart the device.
    Restart,
    /// F6: swap between text buffers.
    SwapBuffers,
    /// F7: show the help message.
    Help,
}

/// The system command `key` runs, if SysRq or both Ctrl and Alt are held.
pub open spec fn syscmd_for(key: Key, sysrq: bool, m: Modifiers) -> Option<SysCmd> {
    if !(sysrq || ((m.lctrl || m.rctrl) && (m.lalt || m.ralt))) {
        None
    } else {
        match key {
            Key::F1 => Some(SysCmd::SysInfo),
            Key::F2 => Some(SysCmd::Clear),
            Key::F3 => Some(SysCmd::PlaySong),
            Key::F4 => Some(SysCmd::Panic),
            Key::F5 => Some(SysCmd::Restart),
            Key::F6 => Some(SysCmd::SwapBuffers),
            Key::F7 => Some(SysCmd::Help),
            _ => None,
        }
    }
}

/// With SysRq held, or both a control and an alt key, F1 to F7 run, in order: system
/// information, clear, play the song, panic, restart, swap buffers and help; any other key
/// runs nothing, and without those keys held nothing runs at all.
pub proof fn lemma_syscmd_keys(key: Key, sysrq: bool, m: Modifiers)
    ensures
        (sysrq || ((m.lctrl || m.rctrl) && (m.lalt || m.ralt))) ==> {
            &&& key == Key::F1 ==> syscmd_for(key, sysrq, m) == Some(SysCmd::SysInfo)
            &&& key == Key::F2 ==> syscmd_for(key, sysrq, m) == Some(SysCmd::Clear)
            &&& key == Key::F3 ==> syscmd_for(key, sysrq, m) == Some(SysCmd::PlaySong)
            &&& key == Key::F4 ==> syscmd_for(key, sysrq, m) == Some(SysCmd::Panic)
            &&& key == Key::F5 ==> syscmd_for(key, sysrq, m) == Some(SysCmd::Restart)
            &&& key == Key::F6 ==> syscmd_for(key, sysrq, m) == Some(SysCmd::SwapBuffers)
            &&& key == Key::F7 ==> syscmd_for(key, sysrq, m) == Some(SysCmd::Help)
            &&& (key == Key::ArrowLeft || key == Key::ArrowRight || key == Key::ArrowUp || key
                == Key::ArrowDown || key == Key::Other) ==> syscmd_for(key, sysrq, m) is None
        },
        !(sysrq || ((m.lctrl || m.rctrl) && (m.lalt || m.ralt))) ==> syscmd_for(key, sysrq, m) is None,
{
}

/// The system command `key` runs, see [`syscmd_for`].
pub fn check_syscmd(key: Key, sysrq: bool, mods: &Modifiers) -> (r: Option<SysCmd>)
    ensures
        r == syscmd_for(key, sysrq, *mods),
        (sysrq || ((mods.lctrl || mods.rctrl) && (mods.lalt || mods.ralt))) ==> {
            &&& key == Key::F1 ==> r == Some(SysCmd::SysInfo)
            &&& key == Key::F2 ==> r == Some(SysCmd::Clear)
            &&& key == Key::F3 ==> r == Some(SysCmd::PlaySong)
            &&& key == Key::F4 ==> r == Some(SysCmd::Panic)
            &&& key == Key::F5 ==> r == Some(SysCmd::Restart)
            &&& key == Key::F6 ==> r == Some(SysCmd::SwapBuffers)
            &&& key == Key::F7 ==> r == Some(SysCmd::Help)
        },
{
    proof {
        lemma_syscmd_keys(key, sysrq, *mods);
    }
    if !(sysrq || mods.is_ctrl() && mods.is_alt()) {
        return None;
    }
    match key {
        Key::F1 => Some(SysCmd::SysInfo),
        Key::F2 => Some(SysCmd::Clear),
        Key::F3 => Some(SysCmd::PlaySong),
        Key::F4 => Some(SysCmd::Panic),
        Key::F5 => Some(SysCmd::Restart),
        Key::F6 => Some(SysCmd::SwapBuffers),
        Key::F7 => Some(SysCmd::Help),
        _ => None,
    }
}

/// The way an arrow key moves the cursor.
pub open spec fn arrow_shift(key: Key) -> Option<CursorShift> {
    match key {
        Key::ArrowLeft => Some(CursorShift::Left),
        Key::ArrowRight => Some(CursorShift::Right),
        Key::ArrowUp => Some(CursorShift::Up),
        Key::ArrowDown => Some(CursorShift::Down),
        _ => None,
    }
}

/// The way an arrow key moves the cursor, see [`arrow_shift`].
pub fn check_arrows(key: Key) -> (r: Option<CursorShift>)
    ensures
        r == arrow_shift(key),
{
    match key {
        Key::ArrowLeft => Some(CursorShift::Left),
        Key::ArrowRight => Some(CursorShift::Right),
        Key::ArrowUp => Some(CursorShift::Up),
        Key::ArrowDown => Some(CursorShift::Down),
        _ => None,
    }
}

/// The characters which a shift key turns into others, each with its shifted form.
pub open spec fn shift_mapping() -> Seq<(char, char)> {
    seq![
        ('1', '!'),
        ('2', '@'),
        ('3', '#'),
        ('4', '$'),
        ('5', '%'),
        ('6', '^'),
        ('7', '&'),
        ('8', '*'),
        ('9', '('),
        ('0', ')'),
        ('-', '_'),
        ('=', '+'),
        ('[', '{'),
        (']', '}'),
        ('\\', '|'),
        (';', ':'),
        ('\'', '"'),
        (',', '<'),
        ('.', '>'),
        ('/', '?'),
        ('`', '~'),
    ]
}

/// The first pair of `m`, from index `i` on, holding `c` in either form.
pub open spec fn find_shift(m: Seq<(char, char)>, c: char, i: int) -> Option<(char, char)>
    decreases m.len() - i,
{
    if i >= m.len() || i < 0 {
        None
    } else if m[i].0 == c || m[i].1 == c {
        Some(m[i])
    } else {
        find_shift(m, c, i + 1)
    }
}

/// `c` in lower case, if it's an ASCII letter.
pub open spec fn ascii_lower(c: char) -> char {
    if 'A' <= c && c <= 'Z' {
        ((c as u32) + 32) as char
    } else {
        c
    }
}

/// `c` in upper case, if it's an ASCII letter.
pub open spec fn ascii_upper(c: char) -> char {
    if 'a' <= c && c <= 'z' {
        ((c as u32) - 32) as char
    } else {
        c
    }
}

/// What a key press does on the screen.
#[derive(Debug, Clone, Copy, PartialEq, Eq, Structural)]
pub enum KeyEffect {
    /// Nothing.
    Nothing,
    /// The cursor moves.
    Shift(CursorShift),
    /// The character before the cursor is deleted.
    DeletePrev,
    /// A character is printed.
    Print(char),
}

/// What typing `c` does: backspace and delete delete the previous character; tab,
/// escape and (when `disable_enter` is set) enter do nothing; otherwise the character is
/// printed in its unshifted form (letters in lower case), or shifted when a shift key is
/// held, with letters in upper case when exactly one of caps lock and shift is on.
pub open spec fn char_effect(c: char, shift_held: bool, capslock: bool, disable_enter: bool) -> KeyEffect {
    if c == '\u{8}' || c == '\u{7F}' {
        KeyEffect::DeletePrev
    } else if c == '\u{9}' || c == '\u{1B}' || (c == '\n' && disable_enter) {
        KeyEffect::Nothing
    } else {
        let found = find_shift(shift_mapping(), c, 0);
        let (key, shifted) = match found {
            Some(p) => (p.0, p.1),
            None => (ascii_lower(c), c),
        };
        if found is Some && shift_held {
            KeyEffect::Print(shifted)
        } else if capslock != shift_held {
            KeyEffect::Print(ascii_upper(key))
        } else {
            KeyEffect::Print(key)
        }
    }
}

/// The pair of [`shift_mapping`] holding `c`, if any.
fn find_shift_pair(c: char) -> (r: Option<(char, char)>)
    ensures
        r == find_shift(shift_mapping(), c, 0),
{
    let table: [(char, char); 21] = [
        ('1', '!'),
        ('2', '@'),
        ('3', '#'),
        ('4', '$'),
        ('5', '%'),
        ('6', '^'),
        ('7', '&'),
        ('8', '*'),
        ('9', '('),
        ('0', ')'),
        ('-', '_'),
        ('=', '+'),
        ('[', '{'),
        (']', '}'),
        ('\\', '|'),
        (';', ':'),
        ('\'', '"'),
        (',', '<'),
        ('.', '>'),
        ('/', '?'),
        ('`', '~'),
    ];
    assert(table@ =~= shift_mapping());
    let mut i: usize = 0;
    while i < 21
        invariant
            0 <= i <= 21,
            table@ == shift_mapping(),
            find_shift(shift_mapping(), c, 0) == find_shift(shift_mapping(), c, i as int),
        decreases 21 - i,
    {
        let pair = table[i];
        if pair.0 == c || pair.1 == c {
            return Some(pair);
        }
        i = i + 1;
    }
    None
}

/// `c` in lower case, if it's an ASCII letter.
fn to_ascii_lower(c: char) -> (r: char)
    ensures
        r == ascii_lower(c),
{
    if 'A' <= c && c <= 'Z' {
        ((c as u8) + 32) as char
    } else {
        c
    }
}

/// `c` in upper case, if it's an ASCII letter.
fn to_ascii_upper(c: char) -> (r: char)
    ensures
        r == ascii_upper(c),
{
    if 'a' <= c && c <= 'z' {
        ((c as u8) - 32) as char
    } else {
        c
    }
}

/// Typing a digit or symbol key with shift held (and caps lock off) types the symbol the
/// US keyboard has on that key, whether the decoder gave the key or its symbol; without
/// shift it types the key itself, whichever of the two the decoder gave.
pub proof fn lemma_us_shift(c: char, disable_enter: bool)
    ensures
        us_shifted(c) is Some ==> char_effect(c, true, false, disable_enter) == KeyEffect::Print(
            us_shifted(c)->0,
        ),
        us_shifted(c) is Some ==> char_effect(us_shifted(c)->0, true, false, disable_enter)
            == KeyEffect::Print(us_shifted(c)->0),
        us_shifted(c) is Some ==> char_effect(us_shifted(c)->0, false, false, disable_enter)
            == KeyEffect::Print(c),
        us_shifted(c) is Some ==> char_effect(c, false, false, disable_enter) == KeyEffect::Print(
            c,
        ),
{
    reveal_with_fuel(find_shift, 22);
}

/// What typing `c` does, see [`char_effect`].
pub fn print_char(c: char, shift_held: bool, capslock: bool, disable_enter: bool) -> (r: KeyEffect)
    ensures
        r == char_effect(c, shift_held, capslock, disable_enter),
        shift_held && !capslock && us_shifted(c) is Some ==> r == KeyEffect::Print(
            us_shifted(c)->0,
        ),
{
    proof {
        lemma_us_shift(c, disable_enter);
    }
    if c == '\u{8}' || c == '\u{7F}' {
        return KeyEffect::DeletePrev;
    } else if c == '\u{9}' || c == '\u{1B}' || (c == '\n' && disable_enter) {
        return KeyEffect::Nothing;
    }
    let found = find_shift_pair(c);
    let key = match found {
        Some(p) => p.0,
        None => to_ascii_lower(c),
    };
    match found {
        Some(p) => {
            if shift_held {
                return KeyEffect::Print(p.1);
            }
        },
        None => {},
    }
    if capslock != shift_held {
        KeyEffect::Print(to_ascii_upper(key))
    } else {
        KeyEffect::Print(key)
    }
}

/// What a key event does: the system command its key runs, and what its decoded form does
/// on the screen.
#[derive(Debug, Clone, Copy, PartialEq, Eq, Structural)]
pub struct KeyAction {
    pub cmd: Option<SysCmd>,
    pub effect: KeyEffect,
}

/// What an event for `key` does once the state is `s` and the decoder turned it into
/// `decoded` with the modifiers `m`: nothing if it decoded to nothing, otherwise the
/// system command `key` runs, and the cursor moves for a raw arrow key or the character
/// is typed (see [`char_effect`]).
pub open spec fn key_action(
    s: KbdState,
    key: Key,
    decoded: Option<Decoded>,
    m: Modifiers,
    disable_enter: bool,
) -> KeyAction {
    match decoded {
        None => KeyAction { cmd: None, effect: KeyEffect::Nothing },
        Some(d) => KeyAction {
            cmd: syscmd_for(key, s.sysrq, m),
            effect: match d {
                Decoded::Raw(k) => match arrow_shift(k) {
                    Some(sh) => KeyEffect::Shift(sh),
                    None => KeyEffect::Nothing,
                },
                Decoded::Unicode(c) => char_effect(c, s.shift != 0, m.capslock, disable_enter),
            },
        },
    }
}

/// Handles a key event for `scancode` (its key and direction given), which the decoder
/// turned into `decoded` with the modifiers `mods`: updates the shift and SysRq state,
/// then decides what the event does.
pub fn handle_key(
    scancode: u8,
    key: Key,
    dir: KeyDir,
    decoded: Option<Decoded>,
    mods: Modifiers,
    state: &mut KbdState,
    disable_enter: bool,
) -> (r: KeyAction)
    ensures
        *final(state) == track_keys(*old(state), scancode, dir),
        r == key_action(*final(state), key, decoded, mods, disable_enter),
{
    state.track_keys(scancode, dir);
    match decoded {
        None => KeyAction { cmd: None, effect: KeyEffect::Nothing },
        Some(d) => {
            let cmd = check_syscmd(key, state.sysrq, &mods);
            let effect = match d {
                Decoded::Raw(k) => match check_arrows(k) {
                    Some(sh) => KeyEffect::Shift(sh),
                    None => KeyEffect::Nothing,
                },
                Decoded::Unicode(c) => print_char(c, state.shift != 0, mods.capslock, disable_enter),
            };
            KeyAction { cmd, effect }
        },
    }
}

/// What handling the event for `scancode` with code number `code` and new state `dir`
/// does, from the key state `s0` and the decoder's modifiers `m`: the new key state (see
/// [`track_keys`]) and what [`key_action`] gives for the key, what the decoder makes of it
/// and the modifiers after it.
pub open spec fn event_action(
    s0: KbdState,
    scancode: u8,
    code: u8,
    dir: KeyDir,
    m: Modifiers,
    disable_enter: bool,
) -> (KbdState, KeyAction) {
    let s1 = track_keys(s0, scancode, dir);
    (
        s1,
        key_action(
            s1,
            key_of_num(code),
            decoded_key(decoded_spec(m, code, dir)),
            mods_after(m, code, dir),
            disable_enter,
        ),
    )
}

/// Handles the key event `ev` for `scancode`: the shift and SysRq state follows its
/// direction, the decoder maps the event, and the result is what [`key_action`] gives for
/// its key, the decoded key and the decoder's modifiers, see [`event_action`].
pub fn keyboard_input(
    scancode: u8,
    ev: &Event,
    kbd: &mut Decoder,
    state: &mut KbdState,
    disable_enter: bool,
) -> (r: KeyAction)
    ensures
        (*final(state), r) == event_action(
            *old(state),
            scancode,
            ev.num(),
            ev.dir(),
            decoder_mods(*old(kbd)),
            disable_enter,
        ),
        decoder_bytes(*final(kbd)) == decoder_bytes(*old(kbd)),
        decoder_mods(*final(kbd)) == mods_after(decoder_mods(*old(kbd)), ev.num(), ev.dir()),
{
    let key = ev.get_key();
    let dir = ev.get_dir();
    let decoded = to_decoded(decoder_process(kbd, ev));
    let mods = decoder_modifiers(kbd);
    handle_key(scancode, key, dir, decoded, mods, state, disable_enter)
}

/// Handles what the decoder made of `scancode`: nothing when it completed no event,
/// otherwise the event, see [`keyboard_input`].
pub fn handle_event(
    scancode: u8,
    ev: Option<Event>,
    kbd: &mut Decoder,
    state: &mut KbdState,
    disable_enter: bool,
) -> (r: Option<KeyAction>)
    ensures
        decoder_bytes(*final(kbd)) == decoder_bytes(*old(kbd)),
        match ev {
            None => r is None && *final(state) == *old(state) && decoder_mods(*final(kbd))
                == decoder_mods(*old(kbd)),
            Some(e) => {
                &&& r is Some
                &&& (*final(state), r->0) == event_action(
                    *old(state),
                    scancode,
                    e.num(),
                    e.dir(),
                    decoder_mods(*old(kbd)),
                    disable_enter,
                )
                &&& decoder_mods(*final(kbd)) == mods_after(decoder_mods(*old(kbd)), e.num(), e.dir())
            },
        },
{
    match ev {
        None => None,
        Some(e) => Some(keyboard_input(scancode, &e, kbd, state, disable_enter)),
    }
}

/// Polls the keyboard buffer: takes the next scancode, if any, feeds it to the decoder and
/// handles the event it completes, see [`set2_event`] and [`event_action`]. An empty buffer
/// clears the decoder's bit register.
pub fn poll_keyboard(
    kbuf: &mut KbdBuffer,
    kbd: &mut Decoder,
    state: &mut KbdState,
    disable_enter: bool,
) -> (r: Option<KeyAction>)
    ensures
        final(kbuf)@ == polled(old(kbuf)@),
        match polled_scancode(old(kbuf)@) {
            None => {
                &&& r is None
                &&& *final(state) == *old(state)
                &&& decoder_bytes(*final(kbd)) == decoder_bytes(*old(kbd))
                &&& decoder_mods(*final(kbd)) == decoder_mods(*old(kbd))
            },
            Some(sc) => {
                &&& decoder_bytes(*final(kbd)) == decoder_bytes(*old(kbd)).push(sc)
                &&& match set2_event(decoder_bytes(*old(kbd)).push(sc)) {
                    None => r is None && *final(state) == *old(state) && decoder_mods(*final(kbd))
                        == decoder_mods(*old(kbd)),
                    Some((code, dir)) => {
                        &&& r is Some
                        &&& (*final(state), r->0) == event_action(
                            *old(state),
                            sc,
                            code,
                            dir,
                            decoder_mods(*old(kbd)),
                            disable_enter,
                        )
                        &&& decoder_mods(*final(kbd)) == mods_after(decoder_mods(*old(kbd)), code, dir)
                    },
                }
            },
        },
{
    match kbuf.pop() {
        None => {
            decoder_clear(kbd);
            None
        },
        Some(scancode) => {
            let ev = decoder_add_byte(kbd, scancode);
            handle_event(scancode, ev, kbd, state, disable_enter)
        },
    }
}

} // verus!
