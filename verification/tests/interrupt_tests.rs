use sunflower::interrupts::cont_access::{BadAccess, ContAccess};
use sunflower::interrupts::idt::{
    bit_set, gp_errcode, pf_errcode, Idt, IdtHandlers, InterruptDescriptor, INT_GATE_FLAGS,
};
use sunflower::interrupts::keyboard::{
    check_arrows, check_response, check_syscmd, handle_key, kbd_handler, new_decoder,
    poll_keyboard, print_char, Decoded, KbdBuffer, KbdState, Key, KeyAction, KeyDir, KeyEffect,
    Modifiers, SysCmd,
};
use sunflower::interrupts::pic::{eoi, init_writes, EOI_COMMAND, INIT_CMD};
use sunflower::interrupts::rbod::{draw_box, ErrCodeHandler, ErrorCode, RbodAction, RbodBorder, RbodKeys};
use sunflower::ports::Port;
use sunflower::startup::StartupFlags;
use sunflower::vga::buffers::Vga;
use sunflower::vga::cursor::CursorShift;
use sunflower::vga::print::{Color, Corner, VGAChar};

fn no_mods() -> Modifiers {
    Modifiers {
        lshift: false,
        rshift: false,
        lctrl: false,
        rctrl: false,
        numlock: false,
        capslock: false,
        lalt: false,
        ralt: false,
        rctrl2: false,
    }
}

fn ctrl_alt() -> Modifiers {
    Modifiers { lctrl: true, ralt: true, ..no_mods() }
}

#[test]
fn kbd_buffer_is_fifo() {
    let mut kbuf = KbdBuffer::new();
    assert_eq!(kbuf.pop(), None);
    kbuf.push(0x1C);
    kbuf.push(0x32);
    assert_eq!(kbuf.prev_response(), 0x32);
    assert_eq!(kbuf.pop(), Some(0x1C));
    assert_eq!(kbuf.pop(), Some(0x32));
    assert_eq!(kbuf.pop(), None);
}

#[test]
fn kbd_handler_waits_for_keyboard_init() {
    let mut flags = StartupFlags::new();
    let mut kbuf = KbdBuffer::new();
    kbd_handler(&flags, &mut kbuf, 0x1C);
    assert_eq!(kbuf.pop(), None);
    assert_eq!(kbuf.prev_response(), 0);
    flags.kbd_init.store(true);
    kbd_handler(&flags, &mut kbuf, 0x1C);
    assert_eq!(kbuf.prev_response(), 0x1C);
    assert_eq!(kbuf.pop(), Some(0x1C));
}

#[test]
fn responses_to_questions() {
    assert_eq!(check_response(0x35, false), Some(true));
    assert_eq!(check_response(0x31, true), Some(false));
    assert_eq!(check_response(0x5A, true), Some(true));
    assert_eq!(check_response(0x5A, false), Some(false));
    assert_eq!(check_response(0x10, true), None);
}

#[test]
fn shift_and_sysrq_tracking() {
    let mut st = KbdState::new();
    st.track_keys(0x12, KeyDir::Down);
    assert_eq!(st.shift, 1);
    st.track_keys(0x59, KeyDir::Down);
    assert_eq!(st.shift, 3);
    st.track_keys(0x12, KeyDir::Up);
    assert_eq!(st.shift, 2);
    st.track_keys(0x7F, KeyDir::Down);
    assert!(st.sysrq);
    st.track_keys(0x7C, KeyDir::Up);
    assert!(!st.sysrq);
    st.track_keys(0x59, KeyDir::SingleShot);
    assert_eq!(st.shift, 2);
    st.track_keys(0x1C, KeyDir::Down);
    assert_eq!(st, KbdState { shift: 2, sysrq: false });
}

#[test]
fn system_commands() {
    assert_eq!(check_syscmd(Key::F1, true, &no_mods()), Some(SysCmd::SysInfo));
    assert_eq!(check_syscmd(Key::F1, false, &no_mods()), None);
    assert_eq!(check_syscmd(Key::F7, false, &ctrl_alt()), Some(SysCmd::Help));
    assert_eq!(check_syscmd(Key::F5, false, &ctrl_alt()), Some(SysCmd::Restart));
    assert_eq!(check_syscmd(Key::ArrowUp, true, &no_mods()), None);
    let only_ctrl = Modifiers { rctrl: true, ..no_mods() };
    assert_eq!(check_syscmd(Key::F2, false, &only_ctrl), None);
}

#[test]
fn arrows_move_the_cursor() {
    assert_eq!(check_arrows(Key::ArrowLeft), Some(CursorShift::Left));
    assert_eq!(check_arrows(Key::ArrowDown), Some(CursorShift::Down));
    assert_eq!(check_arrows(Key::F3), None);
}

#[test]
fn typed_characters() {
    assert_eq!(print_char('\u{8}', false, false, false), KeyEffect::DeletePrev);
    assert_eq!(print_char('\u{7F}', true, false, false), KeyEffect::DeletePrev);
    assert_eq!(print_char('\t', false, false, false), KeyEffect::Nothing);
    assert_eq!(print_char('\u{1B}', false, false, false), KeyEffect::Nothing);
    assert_eq!(print_char('\n', false, false, true), KeyEffect::Nothing);
    assert_eq!(print_char('\n', false, false, false), KeyEffect::Print('\n'));
    assert_eq!(print_char('1', true, false, false), KeyEffect::Print('!'));
    assert_eq!(print_char('!', false, false, false), KeyEffect::Print('1'));
    assert_eq!(print_char('`', true, true, false), KeyEffect::Print('~'));
    assert_eq!(print_char('A', false, false, false), KeyEffect::Print('a'));
    assert_eq!(print_char('a', true, false, false), KeyEffect::Print('A'));
    assert_eq!(print_char('a', false, true, false), KeyEffect::Print('A'));
    assert_eq!(print_char('a', true, true, false), KeyEffect::Print('a'));
    assert_eq!(print_char('[', false, true, false), KeyEffect::Print('['));
}

#[test]
fn handling_key_events() {
    let mut st = KbdState::new();
    let r = handle_key(0x12, Key::Other, KeyDir::Down, None, no_mods(), &mut st, false);
    assert_eq!(r, KeyAction { cmd: None, effect: KeyEffect::Nothing });
    assert_eq!(st.shift, 1);
    let r = handle_key(0x1C, Key::Other, KeyDir::Down, Some(Decoded::Unicode('a')), no_mods(), &mut st, false);
    assert_eq!(r, KeyAction { cmd: None, effect: KeyEffect::Print('A') });
    let r = handle_key(0x06, Key::F2, KeyDir::Down, Some(Decoded::Raw(Key::F2)), ctrl_alt(), &mut st, false);
    assert_eq!(r, KeyAction { cmd: Some(SysCmd::Clear), effect: KeyEffect::Nothing });
    let r = handle_key(0x75, Key::ArrowUp, KeyDir::Down, Some(Decoded::Raw(Key::ArrowUp)), no_mods(), &mut st, false);
    assert_eq!(r, KeyAction { cmd: None, effect: KeyEffect::Shift(CursorShift::Up) });
}

#[test]
fn polling_decodes_scancodes() {
    let mut kbuf = KbdBuffer::new();
    let mut kbd = new_decoder();
    let mut st = KbdState::new();
    assert_eq!(poll_keyboard(&mut kbuf, &mut kbd, &mut st, false), None);
    // `a` pressed
    kbuf.push(0x1C);
    let r = poll_keyboard(&mut kbuf, &mut kbd, &mut st, false);
    assert_eq!(r, Some(KeyAction { cmd: None, effect: KeyEffect::Print('a') }));
    // left shift pressed, then `1`
    kbuf.push(0x12);
    let r = poll_keyboard(&mut kbuf, &mut kbd, &mut st, false);
    assert_eq!(r, Some(KeyAction { cmd: None, effect: KeyEffect::Nothing }));
    assert_eq!(st.shift, 1);
    kbuf.push(0x16);
    let r = poll_keyboard(&mut kbuf, &mut kbd, &mut st, false);
    assert_eq!(r, Some(KeyAction { cmd: None, effect: KeyEffect::Print('!') }));
    // left shift released
    kbuf.push(0xF0);
    kbuf.push(0x12);
    assert_eq!(poll_keyboard(&mut kbuf, &mut kbd, &mut st, false), None);
    let r = poll_keyboard(&mut kbuf, &mut kbd, &mut st, false);
    assert_eq!(r, Some(KeyAction { cmd: None, effect: KeyEffect::Nothing }));
    assert_eq!(st.shift, 0);
    // arrow up
    kbuf.push(0xE0);
    kbuf.push(0x75);
    assert_eq!(poll_keyboard(&mut kbuf, &mut kbd, &mut st, false), None);
    let r = poll_keyboard(&mut kbuf, &mut kbd, &mut st, false);
    assert_eq!(r, Some(KeyAction { cmd: None, effect: KeyEffect::Shift(CursorShift::Up) }));
    // caps lock pressed: `a` prints upper case
    kbuf.push(0x58);
    assert_eq!(poll_keyboard(&mut kbuf, &mut kbd, &mut st, false), Some(KeyAction { cmd: None, effect: KeyEffect::Nothing }));
    kbuf.push(0x1C);
    let r = poll_keyboard(&mut kbuf, &mut kbd, &mut st, false);
    assert_eq!(r, Some(KeyAction { cmd: None, effect: KeyEffect::Print('A') }));
}

#[test]
fn eoi_commands() {
    assert_eq!(eoi(16), vec![]);
    assert_eq!(eoi(1), vec![(Port::MainPicCmd, EOI_COMMAND)]);
    assert_eq!(eoi(8), vec![(Port::SecondaryPicCmd, EOI_COMMAND), (Port::MainPicCmd, EOI_COMMAND)]);
    assert_eq!(eoi(15).len(), 2);
}

#[test]
fn pic_init_sequence() {
    let w = init_writes();
    assert_eq!(w[0], (Port::MainPicCmd, INIT_CMD));
    assert_eq!(w[2], (Port::MainPicData, 32));
    assert_eq!(w[3], (Port::SecondaryPicData, 40));
    assert_eq!(w[4], (Port::MainPicData, 4));
    assert_eq!(w[5], (Port::SecondaryPicData, 2));
    assert_eq!(w[9], (Port::SecondaryPicData, 0));
}

fn handlers() -> IdtHandlers {
    IdtHandlers {
        divide_error: 0x1000,
        debug: 0x1010,
        nmi: 0x1020,
        breakpoint: 0x1030,
        overflow: 0x1040,
        invalid_opcode: 0x1050,
        device_not_available: 0x1060,
        double_fault: 0xFFFF_8000_1234_5678,
        gp_fault: 0x1080,
        page_fault: 0x1090,
        timer: 0x2000,
        keyboard: 0x2010,
        floppy: 0x2020,
        spurious: 0x2030,
        rtc: 0x2040,
    }
}

/// The descriptors of the IDT point to their handlers.
#[test]
fn descriptors_point_to_handlers() {
    let h = handlers();
    let idt = Idt::new(&h, 0x8);
    assert_eq!(idt.entry(8).ptr(), h.double_fault);
    assert_eq!(idt.entry(8).ist(), 1);
    assert_eq!(idt.entry(14).ist(), 1);
    assert_eq!(idt.entry(32).ptr(), h.timer);
    assert_eq!(idt.entry(33).ptr(), h.keyboard);
    assert_eq!(idt.entry(38).ptr(), h.floppy);
    assert_eq!(idt.entry(39).ptr(), h.spurious);
    assert_eq!(idt.entry(40).ptr(), h.rtc);
    assert_eq!(idt.entry(47).ptr(), h.spurious);
    assert_eq!(idt.entry(33).selector(), 0x8);
    assert_eq!(idt.entry(4).ptr(), 0);
    assert_eq!(idt.entry(200).ptr(), 0);
}

#[test]
fn descriptor_keeps_three_ist_bits() {
    let d = InterruptDescriptor::new(0xDEAD_BEEF_CAFE_F00D, 0xFF, 0x10);
    assert_eq!(d.ptr(), 0xDEAD_BEEF_CAFE_F00D);
    assert_eq!(d.ist(), 7);
    assert_eq!(d.selector(), 0x10);
    assert_eq!(INT_GATE_FLAGS, 0x8F);
    let mut idt = Idt::invalid();
    idt.set_handler(3, Some(2), 0x4242, 0x8);
    assert_eq!(idt.entry(3).ptr(), 0x4242);
    assert_eq!(idt.entry(3).ist(), 2);
}

#[test]
fn error_code_bits() {
    assert!(bit_set(0b101, 2));
    assert!(!bit_set(0b101, 1));
    assert_eq!(pf_errcode(0b11), ("Wrote", "Page-protection Violation"));
    assert_eq!(pf_errcode(0), ("Read", "Non-present page"));
    let gp = gp_errcode(0b1000_0011);
    assert_eq!(gp.ext, "External");
    assert_eq!(gp.null, "");
    assert_eq!(gp.gate, "IDT");
    assert_eq!(gp.idx, 0b1_0000);
    let gp = gp_errcode(0b1);
    assert_eq!(gp.null, " null");
    assert_eq!(gp.gate, "GDT");
    let gp = gp_errcode(0b100);
    assert_eq!(gp.ext, "Non-external");
    assert_eq!(gp.gate, "LDT");
}

/// Accessing a continuous access value inside an interrupt handler fails.
#[test]
fn badbug_on_ints() {
    let mut ca = ContAccess::new(42);
    assert_eq!(ca.copy(0), Ok(42));
    assert_eq!(ca.write(15, 1), Err(BadAccess { int_depth: 1, locked: false }));
    assert_eq!(ca.copy(1), Err(BadAccess { int_depth: 1, locked: false }));
    assert!(ca.btemap(1, |_| {}).is_err());
    assert_eq!(ca.copy(0), Ok(42));
}

/// Continuous access values can be written to, copied and mapped.
#[test]
fn everything_works_fine() {
    let mut ca = ContAccess::new(42);
    assert_eq!(ca.copy(0), Ok(42));
    ca.btemap(0, |ans| assert_eq!(*ans, 42)).unwrap();
    ca.write(87, 0).unwrap();
    assert_eq!(ca.copy(0), Ok(87));
    assert_eq!(ca.btemap(0, |ans| *ans), Ok(87));
    assert_eq!(ca.check_access(0), Ok(()));
}

#[test]
fn error_codes() {
    assert_eq!(ErrorCode::DivisionError.code(), 0);
    assert_eq!(ErrorCode::GeneralProtectionFault.code(), 13);
    assert_eq!(ErrorCode::PageFault.code(), 14);
    assert_eq!(ErrorCode::KernelPanic.code(), 257);
    assert_eq!(ErrorCode::SysCmd4.code(), 258);
    let h = ErrCodeHandler::new(5u8, 0x42).unwrap();
    assert_eq!(h.err_code, 0x42);
    assert_eq!(h.handler, 5);
}

#[test]
fn rbod_keys() {
    let mut keys = RbodKeys::new();
    assert_eq!(keys.check_keyboard(0x16), Some(RbodAction::Restart));
    assert_eq!(keys.check_keyboard(0x16), None);
    assert_eq!(keys.check_keyboard(0x72), Some(RbodAction::SwapBuffers));
    assert_eq!(keys.check_keyboard(0x26), Some(RbodAction::PlaySong));
    assert_eq!(keys.check_keyboard(0x10), None);
    assert_eq!(keys.prev, 0x10);
}

#[test]
fn rbod_border_goes_around_the_box() {
    let mut vga = Vga::new();
    let mut b = RbodBorder::new();
    // 80 steps along the top row, then the turn
    for _ in 0..80 {
        b.rbod_colors(&mut vga);
    }
    assert_eq!((b.last_turn, b.row, b.col), (Corner::TopRight, 0, 79));
    assert_eq!(vga.char_at(0, 5).as_raw(), VGAChar::space().as_raw() % 256 + 4 * 256);
    for _ in 0..25 {
        b.rbod_colors(&mut vga);
    }
    assert_eq!((b.last_turn, b.row, b.col), (Corner::BottomRight, 24, 79));
    for _ in 0..80 {
        b.rbod_colors(&mut vga);
    }
    assert_eq!((b.last_turn, b.row, b.col), (Corner::BottomLeft, 24, 0));
    for _ in 0..24 {
        b.rbod_colors(&mut vga);
    }
    assert_eq!((b.last_turn, b.row, b.col), (Corner::TopLeft, 0, 0));
    assert_eq!(b.color, 5);
}

#[test]
fn rbod_colors_skip_greys() {
    let mut vga = Vga::new();
    let mut b = RbodBorder { last_turn: Corner::BottomLeft, color: 6, row: 1, col: 0 };
    b.rbod_colors(&mut vga);
    assert_eq!(b.color, 9);
    let mut b = RbodBorder { last_turn: Corner::BottomLeft, color: 14, row: 1, col: 0 };
    b.rbod_colors(&mut vga);
    assert_eq!(b.color, 1);
}

#[test]
fn rbod_box() {
    let mut vga = Vga::new();
    draw_box(&mut vga);
    assert_eq!(vga.char_at(24, 79).as_raw(), VGAChar::new(0xBC, Color::Grey, Color::Black).as_raw());
    assert_eq!(vga.char_at(5, 0).as_raw(), VGAChar::new(0xBA, Color::White, Color::Black).as_raw());
    assert_eq!(vga.char_at(0, 40).as_raw(), VGAChar::new(0xCD, Color::White, Color::Black).as_raw());
    assert_eq!(vga.char_at(0, 0).as_raw(), VGAChar::space().as_raw());
    assert_eq!(vga.char_at(10, 10).as_raw(), VGAChar::space().as_raw());
}
