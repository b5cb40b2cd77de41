use nixtui_core::input::constants;
use nixtui_core::input::modifiers::Modifiers;
use nixtui_core::tty::changes::{EnterCaMode, FromTerminfo, SaveCursor, TtyChange};
use nixtui_core::tty::database::is_evaluable;
use nixtui_core::tty::errors::{CapabilityError, TerminfoCreationError, TerminfoFailure};
use nixtui_core::tty::session::{Mode, Session, SetAttributes, SetWhen};
use nixtui_core::tty::termios::{raw_mode, RawModeFlags, TermiosAttrs};
use nixtui_core::tty::TerminfoWrapper;
use nix::sys::termios::{
    ControlFlags, InputFlags, LocalFlags, OutputFlags, SpecialCharacterIndices,
};
use terminfo::Database;

fn kitty() -> Database {
    let mut builder = Database::new();
    builder.name("xterm-kitty");
    builder.raw("bell", b"\x07".to_vec());
    builder.raw("cursor_address", b"\x1B[%i%p1%d;%p2%dH".to_vec());
    builder.raw("enter_bold_mode", b"\x1B[1m".to_vec());
    builder.raw("exit_attribute_mode", b"\x1B(B\x1B[m".to_vec());
    builder.raw("enter_ca_mode", b"\x1B[?1049h".to_vec());
    builder.raw("exit_ca_mode", b"\x1B[?1049l".to_vec());
    builder.raw("save_cursor", b"\x1B7".to_vec());
    builder.raw("restore_cursor", b"\x1B8".to_vec());
    builder.raw("cursor_invisible", b"\x1B[?25l".to_vec());
    builder.raw(
        "set_a_foreground",
        b"\x1B[%?%p1%{8}%<%t3%p1%d%e%p1%{16}%<%t9%p1%{8}%-%d%e38;5;%p1%d%;m".to_vec(),
    );
    builder.raw("change_scroll_region", b"\x1B[%i%p1%d;%p2%dr".to_vec());
    builder.raw("parm_up_cursor", b"\x1B[%p1%dA".to_vec());
    builder.raw(
        "set_attributes",
        b"%?%p9%t\x1B(0%e\x1B(B%;\x1B[0%?%p6%t;1%;%?%p1%p3%|%t;7%;%?%p2%t;4%;m".to_vec(),
    );
    builder.raw("key_up", b"\x1B[A".to_vec());
    builder.raw("key_down", b"\x1BOB".to_vec());
    builder.raw("key_dc", b"\x1B[3~".to_vec());
    builder.raw("key_f5", b"\x1B[15~".to_vec());
    builder.raw("key_backspace", b"\x7F".to_vec());
    builder.raw("lines", 24);
    builder.raw("user9", b"%p1%s".to_vec());
    builder.raw("user8", b"%p1%p1%*%d".to_vec());
    builder.raw("user7", b"%{1234567}%d".to_vec());
    builder.build().unwrap()
}

fn attrs() -> TermiosAttrs {
    TermiosAttrs {
        input_flags: 0o2402,
        output_flags: 0o5,
        control_flags: 0o2277,
        local_flags: 0o105073,
        control_chars: (0..32).collect(),
    }
}

fn linux() -> RawModeFlags {
    RawModeFlags {
        ignbrk: 0o1,
        brkint: 0o2,
        parmrk: 0o10,
        istrip: 0o40,
        icrnl: 0o400,
        igncr: 0o200,
        ixon: 0o2000,
        opost: 0o1,
        echo: 0o10,
        echonl: 0o100,
        icanon: 0o2,
        isig: 0o1,
        iexten: 0o100000,
        csize: 0o60,
        parenb: 0o400,
        cs8: 0o60,
        vmin: 6,
        vtime: 5,
    }
}

#[test]
fn tty_test() {
    let mut db = TerminfoWrapper::from(kitty());
    db.move_cursor(0, 0).unwrap();
    db.bell().unwrap();
    db.enter_bold_mode().unwrap();
    db.exit_attribute_mode().unwrap();
    let bytes = db.buffered().to_vec();
    db.clear();
    assert_eq!(
        b"\x1B[1;1H\
            \x07\
            \x1B[1m\
            \x1B(B\
            \x1B[m",
        &*bytes
    );
    assert!(db.buffered().is_empty());
}

#[test]
fn missing_capability_is_named() {
    let mut session = TerminfoWrapper::new(kitty());
    session.append(b"x");
    match session.flash_screen() {
        Err(CapabilityError::CapabilityNotFound { cap_name }) => {
            assert_eq!(cap_name, "flash_screen")
        }
        other => panic!("{other:?}"),
    }
    match session.expand_write("lines") {
        Err(CapabilityError::CapabilityNotFound { cap_name }) => assert_eq!(cap_name, "lines"),
        other => panic!("{other:?}"),
    }
    assert_eq!(session.buffered(), b"x");
}

#[test]
fn failed_expansion_leaves_the_buffer_alone() {
    let mut session = TerminfoWrapper::new(kitty());
    session.append(b"abc");
    assert!(matches!(
        session.expand_write_with("user9", &[1]),
        Err(CapabilityError::CapabilityExpansionError)
    ));
    assert_eq!(session.buffered(), b"abc");
}

#[test]
fn unevaluable_is_not_evaluated() {
    let mut session = TerminfoWrapper::new(kitty());
    assert!(matches!(
        session.expand_write_with("user8", &[3]),
        Err(CapabilityError::CapabilityExpansionError)
    ));
    assert!(matches!(
        session.expand_write("user7"),
        Err(CapabilityError::CapabilityExpansionError)
    ));
    assert!(matches!(
        session.move_cursor(0x10_0000, 0),
        Err(CapabilityError::CapabilityExpansionError)
    ));
    assert!(matches!(
        session.expand_write_with("cursor_address", &[-0x10_0000, 0]),
        Err(CapabilityError::CapabilityExpansionError)
    ));
    assert!(session.buffered().is_empty());
    session.move_cursor(0xF_FFFF, 7).unwrap();
    assert_eq!(session.buffered(), b"\x1B[1048576;8H");
}

#[test]
fn evaluable_is_decided_by_the_text() {
    assert!(is_evaluable(b"\x1B[%i%p1%d;%p2%dH", &[0, 0]));
    assert!(is_evaluable(b"", &[]));
    assert!(is_evaluable(b"plain text; 1234567890 *", &[]));
    assert!(is_evaluable(b"%{123456}%d", &[]));
    assert!(is_evaluable(b"%{}%d", &[]));
    assert!(!is_evaluable(b"%{1234567}%d", &[]));
    assert!(!is_evaluable(b"%{12", &[]));
    assert!(!is_evaluable(b"%{12x}", &[]));
    assert!(!is_evaluable(b"%p1%p2%*%d", &[1, 1]));
    assert!(is_evaluable(b"%p1%p2%+%d", &[0xF_FFFF, -0xF_FFFF]));
    assert!(!is_evaluable(b"%p1%p2%+%d", &[0x10_0000, 0]));
    assert!(!is_evaluable(b"%p1%p2%+%d", &[0, -0x10_0000]));
    assert!(is_evaluable(b"%+%+%+%+%+%-%-%-%m%/", &[]));
    assert!(!is_evaluable(b"%+%+%+%+%+%-%-%-%m%/%i", &[]));
    assert!(is_evaluable(b"%+%+%+%+%+%-%-%-%m%/%&%|%^%~%A%O%!%=%>%<", &[]));
    assert!(is_evaluable(b"%%+%%-%%i", &[]));
    assert!(is_evaluable(b"100%%", &[]));
    assert!(!is_evaluable(b"100%", &[]));
    assert!(!is_evaluable(b"100% sure", &[]));
    assert!(is_evaluable(b"%p1%d%p9%x%p1%X%p1%o%p1%c%p1%s%l", &[65]));
    assert!(!is_evaluable(b"%p0%d", &[65]));
    assert!(!is_evaluable(b"%p", &[65]));
    assert!(!is_evaluable(b"%pz", &[65]));
    assert!(!is_evaluable(b"%z", &[]));
    assert!(!is_evaluable(b"%u", &[65]));
    assert!(is_evaluable(b"%'a'%'%'%'\''%c", &[]));
    assert!(!is_evaluable(b"%'a", &[]));
    assert!(!is_evaluable(b"%'ab'", &[]));
    assert!(is_evaluable(b"%p1%Pa%ga%PZ%gZ%d", &[1]));
    assert!(!is_evaluable(b"%P1", &[]));
    assert!(!is_evaluable(b"%g", &[]));
    assert!(is_evaluable(b"%?%p1%t1%e2%;", &[1]));
    assert!(!is_evaluable(b"%p1%2d", &[65]));
    assert!(!is_evaluable(b"%p1%.2d", &[65]));
    assert!(!is_evaluable(b"%p1%:-2d", &[65]));
    assert!(!is_evaluable(b"%p1% d", &[65]));
    assert!(!is_evaluable(b"%p1%#x", &[65]));
}

#[test]
fn malformed_templates_fail_to_expand() {
    let mut builder = Database::new();
    builder.name("odd");
    builder.raw("bell", b"%z".to_vec());
    builder.raw("tab", b"a%pzb".to_vec());
    builder.raw("newline", b"%'a".to_vec());
    builder.raw("cursor_up", b"%p1%{3}%+%d %%".to_vec());
    builder.raw("cursor_down", b"%d".to_vec());
    builder.raw("cursor_left", b"%?%p1%t".to_vec());
    let mut session = TerminfoWrapper::new(builder.build().unwrap());
    assert!(matches!(
        session.expand_write_with("cursor_left", &[0]),
        Err(CapabilityError::CapabilityExpansionError)
    ));
    session.expand_write_with("cursor_left", &[1]).unwrap();
    for name in ["bell", "tab", "newline", "cursor_down"] {
        assert!(
            matches!(
                session.expand_write_with(name, &[1]),
                Err(CapabilityError::CapabilityExpansionError)
            ),
            "{name}"
        );
    }
    assert!(session.buffered().is_empty());
    session.expand_write_with("cursor_up", &[4]).unwrap();
    assert_eq!(session.buffered(), b"7 %");
}

#[test]
fn parameters_reach_the_template() {
    let mut session = TerminfoWrapper::new(kitty());
    session.set_a_foreground(1).unwrap();
    session.set_a_foreground(9).unwrap();
    session.set_a_foreground(200).unwrap();
    assert_eq!(session.buffered(), b"\x1B[31m\x1B[91m\x1B[38;5;200m");
    session.clear();
    session.change_scroll_region(2, 10).unwrap();
    session.parm_up_cursor(4).unwrap();
    session.cursor_address(4, 9).unwrap();
    assert_eq!(session.buffered(), b"\x1B[3;11r\x1B[4A\x1B[5;10H");
    session.clear();
    session.set_attributes(false, true, true, false, false, true, false, false, false).unwrap();
    assert_eq!(session.buffered(), b"\x1B(B\x1B[0;1;7;4m");
    session.clear();
    session.set_attributes(false, false, false, false, false, false, false, false, true).unwrap();
    assert_eq!(session.buffered(), b"\x1B(0\x1B[0m");
}

#[test]
fn legacy_colours_are_written_directly() {
    let mut session = TerminfoWrapper::new(kitty());
    session.legacy_foreground(0);
    session.legacy_foreground(7);
    session.legacy_background(3);
    assert_eq!(session.buffered(), b"\x1B[30m\x1B[37m\x1B[43m");
}

#[test]
fn parser_takes_its_bindings_from_the_database() {
    let parser = TerminfoWrapper::new(kitty()).get_parser();
    let events = parser.parse(b"\x1B[A\x1B[3;2~\x1B[15~\x1B[B\x7F");
    assert_eq!(events.len(), 4);
    assert_eq!(events[0].key_code.0, constants::UP);
    assert_eq!(events[1].key_code.0, constants::DELETE);
    assert_eq!(events[1].mods, Modifiers::new(Modifiers::SHIFT));
    assert_eq!(events[2].key_code.0, constants::F5);
    assert_eq!(events[3].key_code.0, 0x7F);
}

#[test]
fn terminfo_failures_map_to_creation_errors() {
    assert!(matches!(
        TerminfoCreationError::from_terminfo(terminfo::Error::NotFound),
        TerminfoCreationError::TerminfoDbNotFound
    ));
    assert!(matches!(
        TerminfoCreationError::from_terminfo(terminfo::Error::Parse),
        TerminfoCreationError::TerminfoProcessingError
    ));
    assert!(matches!(
        TerminfoCreationError::from_failure(TerminfoFailure::Parse),
        TerminfoCreationError::TerminfoProcessingError
    ));
    assert!(matches!(
        TerminfoCreationError::from_failure(TerminfoFailure::NotFound),
        TerminfoCreationError::TerminfoDbNotFound
    ));
    let io = std::io::Error::from(std::io::ErrorKind::PermissionDenied);
    match TerminfoCreationError::from_terminfo(terminfo::Error::Io(io)) {
        TerminfoCreationError::IoError(e) => {
            assert_eq!(e.kind(), std::io::ErrorKind::PermissionDenied)
        }
        other => panic!("{other:?}"),
    }
    assert!(matches!(
        TerminfoCreationError::from_failure(TerminfoFailure::Expand),
        TerminfoCreationError::TerminfoProcessingError
    ));
}

#[test]
fn raw_mode_clears_and_sets_the_documented_flags() {
    let raw = raw_mode(&attrs(), &linux());
    assert_eq!(raw.input_flags, 0);
    assert_eq!(raw.output_flags, 0o4);
    assert_eq!(raw.control_flags, 0o2277 & !0o460 | 0o60);
    assert_eq!(raw.local_flags, 0o5060);
    let mut chars: Vec<u8> = (0..32).collect();
    chars[5] = 0;
    chars[6] = 1;
    assert_eq!(raw.control_chars, chars);
    assert_eq!(raw_mode(&raw, &linux()), raw);
}

#[test]
fn flags_are_put_together_in_order() {
    let flags = RawModeFlags::from_bits(
        [0o1, 0o2, 0o10, 0o40, 0o400, 0o200, 0o2000],
        0o1,
        [0o10, 0o100, 0o2, 0o1, 0o100000],
        [0o60, 0o400, 0o60],
        [6, 5],
    );
    assert_eq!(flags, linux());
    let other = RawModeFlags::from_bits(
        [1, 2, 3, 4, 5, 6, 7],
        8,
        [9, 10, 11, 12, 13],
        [14, 15, 16],
        [17, 18],
    );
    assert_eq!((other.ignbrk, other.brkint, other.parmrk, other.istrip), (1, 2, 3, 4));
    assert_eq!((other.icrnl, other.igncr, other.ixon, other.opost), (5, 6, 7, 8));
    assert_eq!((other.echo, other.echonl, other.icanon, other.isig), (9, 10, 11, 12));
    assert_eq!((other.iexten, other.csize, other.parenb, other.cs8), (13, 14, 15, 16));
    assert_eq!((other.vmin, other.vtime), (17, 18));
}

#[test]
fn platform_flags_are_those_of_nix() {
    let flags = RawModeFlags::platform();
    assert_eq!(flags.ignbrk, InputFlags::IGNBRK.bits() as u64);
    assert_eq!(flags.brkint, InputFlags::BRKINT.bits() as u64);
    assert_eq!(flags.parmrk, InputFlags::PARMRK.bits() as u64);
    assert_eq!(flags.istrip, InputFlags::ISTRIP.bits() as u64);
    assert_eq!(flags.icrnl, InputFlags::ICRNL.bits() as u64);
    assert_eq!(flags.igncr, InputFlags::IGNCR.bits() as u64);
    assert_eq!(flags.ixon, InputFlags::IXON.bits() as u64);
    assert_eq!(flags.opost, OutputFlags::OPOST.bits() as u64);
    assert_eq!(flags.echo, LocalFlags::ECHO.bits() as u64);
    assert_eq!(flags.echonl, LocalFlags::ECHONL.bits() as u64);
    assert_eq!(flags.icanon, LocalFlags::ICANON.bits() as u64);
    assert_eq!(flags.isig, LocalFlags::ISIG.bits() as u64);
    assert_eq!(flags.iexten, LocalFlags::IEXTEN.bits() as u64);
    assert_eq!(flags.csize, ControlFlags::CSIZE.bits() as u64);
    assert_eq!(flags.parenb, ControlFlags::PARENB.bits() as u64);
    assert_eq!(flags.cs8, ControlFlags::CS8.bits() as u64);
    assert_eq!(flags.vmin, SpecialCharacterIndices::VMIN as usize);
    assert_eq!(flags.vtime, SpecialCharacterIndices::VTIME as usize);
}

#[test]
fn changes_come_from_pairs_of_capabilities() {
    let db = kitty();
    let save = SaveCursor::from_terminfo(&db).unwrap();
    let mut out = b">".to_vec();
    save.apply(&mut out);
    save.revert(&mut out);
    assert_eq!(out, b">\x1B7\x1B8");
    let screen = EnterCaMode::from_terminfo(&db).unwrap();
    let mut out = Vec::new();
    screen.revert(&mut out);
    screen.apply(&mut out);
    assert_eq!(out, b"\x1B[?1049l\x1B[?1049h");
    let mut builder = Database::new();
    builder.name("half");
    builder.raw("save_cursor", b"\x1B7".to_vec());
    builder.raw("exit_ca_mode", b"\x1B[?1049l".to_vec());
    let half = builder.build().unwrap();
    assert!(SaveCursor::from_terminfo(&half).is_none());
    assert!(EnterCaMode::from_terminfo(&half).is_none());
}

#[test]
fn session_walks_through_its_states() {
    let mut session = Session::new(TerminfoWrapper::new(kitty()), attrs());
    assert_eq!(session.current_mode(), Mode::Cooked);
    assert!(session.leave_raw().is_none());
    assert!(!session.leave_alternate_screen());
    let raw = session.enter_raw(&linux()).unwrap();
    assert_eq!(raw.attrs, raw_mode(&attrs(), &linux()));
    assert_eq!(raw.when, SetWhen::Flush);
    assert_eq!(session.current_mode(), Mode::Raw);
    assert!(session.enter_raw(&linux()).is_none());
    assert_eq!(
        session.leave_raw().unwrap(),
        SetAttributes { attrs: attrs(), when: SetWhen::Drain }
    );
    assert_eq!(session.current_mode(), Mode::Cooked);
    assert!(session.enter_raw(&linux()).is_some());
    assert_eq!(session.enter_alternate_screen().unwrap(), true);
    assert_eq!(session.current_mode(), Mode::AlternateScreen { raw: true });
    assert_eq!(session.enter_alternate_screen().unwrap(), false);
    assert!(session.enter_raw(&linux()).is_none());
    assert!(session.leave_raw().is_none());
    assert_eq!(session.buffered(), b"\x1B[?1049h");
    assert!(session.leave_alternate_screen());
    assert_eq!(session.current_mode(), Mode::Raw);
    assert_eq!(session.buffered(), b"\x1B[?1049h\x1B[?1049l");
    assert_eq!(session.close().unwrap(), SetAttributes { attrs: attrs(), when: SetWhen::Drain });
    assert_eq!(session.current_mode(), Mode::Closed);
    assert_eq!(session.buffered(), b"\x1B[?1049h\x1B[?1049l");
    assert!(session.close().is_none());
    assert!(session.enter_raw(&linux()).is_none());
    assert_eq!(session.enter_alternate_screen().unwrap(), false);
    assert_eq!(session.snapshot(), attrs());
}

#[test]
fn teardown_replays_undos_in_reverse_order() {
    let db = kitty();
    let mut session = Session::new(TerminfoWrapper::new(kitty()), attrs());
    assert!(session.apply_change(&SaveCursor::from_terminfo(&db).unwrap()));
    assert_eq!(session.enter_alternate_screen().unwrap(), true);
    assert_eq!(session.current_mode(), Mode::AlternateScreen { raw: false });
    session.output_mut().cursor_invisible().unwrap();
    assert_eq!(session.buffered(), b"\x1B7\x1B[?1049h\x1B[?25l");
    session.clear();
    assert_eq!(session.close().unwrap().attrs, attrs());
    assert_eq!(session.buffered(), b"\x1B[?1049l\x1B8");
    assert!(!session.apply_change(&SaveCursor::from_terminfo(&db).unwrap()));
    assert_eq!(session.buffered(), b"\x1B[?1049l\x1B8");
}

#[test]
fn leaving_the_alternate_screen_keeps_the_other_undos() {
    let db = kitty();
    let mut session = Session::new(TerminfoWrapper::new(kitty()), attrs());
    assert_eq!(session.enter_alternate_screen().unwrap(), true);
    assert!(session.apply_change(&SaveCursor::from_terminfo(&db).unwrap()));
    session.clear();
    assert!(session.leave_alternate_screen());
    assert_eq!(session.current_mode(), Mode::Cooked);
    assert_eq!(session.buffered(), b"\x1B[?1049l");
    session.clear();
    session.close();
    assert_eq!(session.buffered(), b"\x1B8");
}

#[test]
fn alternate_screen_needs_the_capability() {
    let mut builder = Database::new();
    builder.name("dumb");
    builder.raw("bell", b"\x07".to_vec());
    let mut session = Session::new(TerminfoWrapper::new(builder.build().unwrap()), attrs());
    match session.enter_alternate_screen() {
        Err(CapabilityError::CapabilityNotFound { cap_name }) => {
            assert_eq!(cap_name, "enter_ca_mode")
        }
        other => panic!("{other:?}"),
    }
    assert_eq!(session.current_mode(), Mode::Cooked);
    assert!(session.buffered().is_empty());
}

#[test]
fn capabilities_can_be_read_and_expanded() {
    let session = TerminfoWrapper::new(kitty());
    assert_eq!(session.literal("bell"), Some(b"\x07".to_vec()));
    assert_eq!(session.literal("cursor_address"), Some(b"\x1B[%i%p1%d;%p2%dH".to_vec()));
    assert_eq!(session.literal("lines"), None);
    assert_eq!(session.literal("flash_screen"), None);
    assert_eq!(session.expand("cursor_address", &[2, 3]).unwrap(), b"\x1B[3;4H");
    assert_eq!(session.expand("bell", &[]).unwrap(), b"\x07");
    assert!(matches!(
        session.expand("flash_screen", &[]),
        Err(CapabilityError::CapabilityNotFound { .. })
    ));
    assert!(matches!(
        session.expand("user9", &[1]),
        Err(CapabilityError::CapabilityExpansionError)
    ));
    assert!(session.buffered().is_empty());
    assert_eq!(
        TerminfoWrapper::expansion_result("x", Some(Some(vec![1, 2]))).unwrap(),
        vec![1, 2]
    );
}

#[test]
fn session_output_is_a_writer() {
    use_writer(&mut TerminfoWrapper::new(kitty()));
}

fn use_writer(session: &mut TerminfoWrapper) {
    std::io::Write::write_all(session, b"plain ").unwrap();
    session.bell().unwrap();
    std::io::Write::flush(session).unwrap();
    assert_eq!(session.buffered(), b"plain \x07");
    session.finish_emission("bell", Some(Some(b"!".to_vec()))).unwrap();
    assert!(session.finish_emission("bell", Some(None)).is_err());
    assert!(session.finish_emission("bell", None).is_err());
    assert_eq!(session.buffered(), b"plain \x07!");
}
