use nixtui_core::input::constants;
use nixtui_core::input::csi::{CSICommand, CSIList};
use nixtui_core::input::modifiers::{check_bit_at, Modifiers};
use nixtui_core::input::{InputParser, KeyCode, KeyEvent};

fn as_bin(num: u32) -> String {
    let mut s = String::from("0b");
    for i in (0..32).rev() {
        if num & (1_u32 << i) != 0 {
            s.push('1');
        } else {
            s.push('0');
        }
    }
    s
}

fn decoder() -> InputParser {
    let mut parser = InputParser::new();
    parser.push_default();
    parser
}

fn key(event: &KeyEvent) -> u32 {
    event.key_code.0
}

#[test]
fn test_check_bit() {
    for i in 0..8_u8 {
        for j in 0..8_u8 {
            let mut should_pass = true;
            if j == i && i != 7 {
                should_pass = false;
            }
            let this = 2_u8.pow(i as u32) + if i == 7 && j == 7 { 0 } else { 2_u8.pow(j as u32) };
            assert_eq!(check_bit_at(this, i), should_pass, "This: {this}, i: {i}, j: {j}",);
        }
    }
}

#[test]
fn check_sup_sub_set() {
    let ctrl = Modifiers::new(Modifiers::CTRL);
    let alt = Modifiers::new(Modifiers::ALT);
    let a = ctrl | Modifiers::new(Modifiers::CAPS_LOCK);
    assert!(ctrl.subset_of(a));
    assert!(a.superset_of(ctrl));
    assert!(!alt.subset_of(a));
    assert!(!alt.superset_of(a));
}

#[test]
fn test_parser() {
    let parser = decoder();
    let parsed = parser.parse(b"\xD0\x91")[0].key_code.0;
    assert_eq!(parsed, 0x411, "\n {parsed}: {}", as_bin(parsed));
    let parsed = parser.parse(b"\xE0\xAA\x85")[0].key_code.0;
    assert_eq!(parsed, 0xA85, "\n {parsed}: {}", as_bin(parsed));
    let parsed = parser.parse(b"\xF0\x9F\x98\xAD")[0].key_code.0;
    assert_eq!(parsed, 0x1F62D, "\n {parsed}: {}", as_bin(parsed));
}

#[test]
fn test_call_multiple() {
    let mut num = 0;
    let mut cl = |x| {
        num += x;
    };
    for _ in 0..10 {
        cl(1);
    }
    assert_eq!(num, 10);
    let mut num2 = 0;
    let mut cl = |x| {
        num2 += x;
    };
    cl(1);
    cl(2);
    cl(3);
    cl(4);
    assert_eq!(num2, 10);
}

#[test]
fn test_csi_parser() {
    let res = CSICommand::parse(b"\x1B[109;109###Hasd").unwrap();
    assert_eq!(
        res.0,
        CSICommand {
            parameter_bytes: b"109;109".to_vec(),
            intermediate_bytes: b"###".to_vec(),
            final_byte: b'H',
        }
    );
    assert_eq!(res.1, 13);
    let res = CSICommand::parse(b"109;109###Hasd").unwrap();
    assert_eq!(
        res.0,
        CSICommand {
            parameter_bytes: b"109;109".to_vec(),
            intermediate_bytes: b"###".to_vec(),
            final_byte: b'H',
        }
    );
    assert_eq!(res.1, 11);
    let res = CSICommand::parse(b"\x1B[B").unwrap().0;
    assert_eq!(
        res,
        CSICommand {
            parameter_bytes: b"".to_vec(),
            intermediate_bytes: b"".to_vec(),
            final_byte: b'B',
        }
    );
    let res = CSICommand::parse(b"\x1B[###~").unwrap().0;
    assert_eq!(
        res,
        CSICommand {
            parameter_bytes: b"".to_vec(),
            intermediate_bytes: b"###".to_vec(),
            final_byte: b'~',
        }
    );
}

#[test]
fn test_csi_list() {
    let csi = CSICommand {
        parameter_bytes: b"2;5".to_vec(),
        intermediate_bytes: Vec::new(),
        final_byte: b'~',
    };
    let mut list = CSIList::new();
    list.push(CSICommand::parse(b"2~").unwrap().0, 57349);
    assert_eq!(list.match_csi(&csi), Some(57349));
}

#[test]
fn csi_parser_rejects_malformed_input() {
    assert_eq!(CSICommand::parse(b""), None);
    assert_eq!(CSICommand::parse(b"\x1B["), None);
    assert_eq!(CSICommand::parse(b"12;3"), None);
    assert_eq!(CSICommand::parse(b"12\x07m"), None);
    assert_eq!(CSICommand::parse(b"1#2m"), None);
    assert_eq!(CSICommand::parse(b"\x1BOA"), None);
    assert_eq!(CSICommand::parse(b"12\x7F"), None);
}

#[test]
fn arrow_up_is_decoded() {
    let events = decoder().parse(b"\x1B[A");
    assert_eq!(events.len(), 1);
    assert_eq!(key(&events[0]), constants::UP);
    assert_eq!(events[0].mods, Modifiers::new(Modifiers::NONE));
}

#[test]
fn ctrl_arrow_up_is_decoded() {
    let events = decoder().parse(b"\x1B[1;5A");
    assert_eq!(events.len(), 1);
    assert_eq!(events[0].key_code, KeyCode(constants::UP));
    assert_eq!(events[0].mods, Modifiers::new(Modifiers::CTRL));
    assert!(events[0].mods.ctrl_pressed());
}

#[test]
fn back_tab_is_shift_tab() {
    let events = InputParser::new().parse(b"\x1B[Z");
    assert_eq!(events.len(), 1);
    assert_eq!(key(&events[0]), constants::TAB);
    assert_eq!(events[0].mods, Modifiers::new(Modifiers::SHIFT));
}

#[test]
fn escape_then_letter_is_alt_letter() {
    let events = decoder().parse(b"\x1Ba");
    assert_eq!(events.len(), 1);
    assert_eq!(key(&events[0]), 'a' as u32);
    assert_eq!(events[0].mods, Modifiers::new(Modifiers::ALT));
}

#[test]
fn escape_bracket_without_command_is_alt_bracket() {
    let events = decoder().parse(b"\x1B[");
    assert_eq!(events.len(), 1);
    assert_eq!(key(&events[0]), '[' as u32);
    assert_eq!(events[0].mods, Modifiers::new(Modifiers::ALT));
    let events = decoder().parse(b"\x1B[\x07");
    assert_eq!(events.len(), 2);
    assert_eq!(key(&events[0]), '[' as u32);
    assert_eq!(events[0].mods, Modifiers::new(Modifiers::ALT));
    assert_eq!(key(&events[1]), 7);
}

#[test]
fn escape_bracket_bracket_is_an_unbound_command() {
    assert_eq!(decoder().parse(b"\x1B[[").len(), 0);
}

#[test]
fn lone_escape_is_the_escape_key() {
    let events = decoder().parse(b"\x1B");
    assert_eq!(events.len(), 1);
    assert_eq!(key(&events[0]), 0x1B);
    assert_eq!(events[0].mods, Modifiers::new(Modifiers::NONE));
    let events = decoder().parse(b"\x1BA");
    assert_eq!(events.len(), 2);
    assert_eq!(key(&events[0]), 0x1B);
    assert_eq!(key(&events[1]), 'A' as u32);
}

#[test]
fn selector_keys_are_down_down_enter() {
    let events = decoder().parse(b"\x1B[B\x1B[B\r");
    let keys: Vec<u32> = events.iter().map(key).collect();
    assert_eq!(keys, vec![constants::DOWN, constants::DOWN, '\r' as u32]);
    let items = ["foo", "bar", "baz", "cow"];
    let mut cursor = 0;
    for k in keys {
        if k == constants::DOWN && cursor < items.len() - 1 {
            cursor += 1;
        }
    }
    assert_eq!(cursor, 2);
    assert_eq!(items[cursor], "baz");
}

fn csi(params: &[u8], final_byte: u8) -> CSICommand {
    CSICommand {
        parameter_bytes: params.to_vec(),
        intermediate_bytes: Vec::new(),
        final_byte,
    }
}

#[test]
fn set_operations_act_flag_by_flag() {
    for a in 0..=255_u8 {
        for b in [0_u8, 1, 2, 0x55, 0xAA, 0x80, 0xFF, a, !a] {
            let (x, y) = (Modifiers::new(a), Modifiers::new(b));
            assert_eq!((x | y).bits(), a | b);
            assert_eq!((x & y).bits(), a & b);
            assert_eq!((x ^ y).bits(), a ^ b);
            assert_eq!((!x).bits(), !a);
            for n in 0..8 {
                let (in_a, in_b) = (check_bit_at(a, n), check_bit_at(b, n));
                assert_eq!(check_bit_at((x | y).bits(), n), in_a || in_b);
                assert_eq!(check_bit_at((x & y).bits(), n), in_a && in_b);
                assert_eq!(check_bit_at((x ^ y).bits(), n), in_a != in_b);
                assert_eq!(check_bit_at((!x).bits(), n), !in_a);
            }
            assert_eq!(x.subset_of(y), a & b == a);
            assert_eq!(x.superset_of(y), a & b == b);
            let mut z = x;
            z |= y;
            assert_eq!(z, x | y);
            z = x;
            z &= y;
            assert_eq!(z, x & y);
            z = x;
            z ^= y;
            assert_eq!(z, x ^ y);
        }
    }
}

#[test]
fn flags_have_their_bits_and_names() {
    let all = [
        (Modifiers::SHIFT, 1, "Shift"),
        (Modifiers::ALT, 2, "Alt"),
        (Modifiers::CTRL, 4, "Ctrl"),
        (Modifiers::SUPER, 8, "Super"),
        (Modifiers::HYPER, 16, "Hyper"),
        (Modifiers::META, 32, "Meta"),
        (Modifiers::CAPS_LOCK, 64, "CapsLock"),
        (Modifiers::NUM_LOCK, 128, "NumLock"),
    ];
    for (flag, bits, name) in all {
        assert_eq!(flag, bits);
        assert_eq!(Modifiers::new(flag).names(), vec![name]);
    }
    assert_eq!(Modifiers::NONE, 0);
    assert_eq!(Modifiers::default(), Modifiers::new(0));
    assert!(Modifiers::default().names().is_empty());
    let m = Modifiers::new(0b1000_0111);
    assert!(m.shift_pressed() && m.alt_pressed() && m.ctrl_pressed() && m.num_lock_pressed());
    assert!(!m.super_pressed() && !m.hyper_pressed() && !m.meta_pressed());
    assert!(!m.caps_lock_pressed());
    assert_eq!(m.names(), vec!["Shift", "Ctrl", "Alt", "NumLock"]);
    assert_eq!(
        Modifiers::new(0xFF).names(),
        vec!["Shift", "Ctrl", "Alt", "Super", "Hyper", "Meta", "CapsLock", "NumLock"]
    );
}

#[test]
fn modifiers_come_from_the_second_parameter() {
    assert_eq!(csi(b"1;5", b'A').modifiers(), Modifiers::new(4));
    assert_eq!(csi(b"3;2", b'~').modifiers(), Modifiers::new(1));
    assert_eq!(csi(b"1;16;9", b'B').modifiers(), Modifiers::new(15));
    assert_eq!(csi(b";256", b'C').modifiers(), Modifiers::new(255));
    assert_eq!(csi(b"1;257", b'C').modifiers(), Modifiers::new(0));
    assert_eq!(csi(b"1;999", b'C').modifiers(), Modifiers::new(230));
    assert_eq!(csi(b"1;0", b'C').modifiers(), Modifiers::new(255));
    assert_eq!(csi(b"1;001", b'C').modifiers(), Modifiers::new(0));
    assert_eq!(csi(b"5", b'A').modifiers(), Modifiers::new(0));
    assert_eq!(csi(b"", b'A').modifiers(), Modifiers::new(0));
    assert_eq!(csi(b"1;", b'A').modifiers(), Modifiers::new(0));
    assert_eq!(csi(b"1;;5", b'A').modifiers(), Modifiers::new(0));
    assert_eq!(csi(b"1;1000", b'A').modifiers(), Modifiers::new(0));
    assert_eq!(csi(b"1;5?", b'A').modifiers(), Modifiers::new(0));
    assert_eq!(csi(b"1;:5", b'A').modifiers(), Modifiers::new(0));
    assert_eq!(csi(b"1;5", b'a').modifiers(), Modifiers::new(0));
    assert_eq!(csi(b"1;5", b'[').modifiers(), Modifiers::new(0));
}

#[test]
fn matching_goes_by_the_final_byte() {
    let up = csi(b"", b'A');
    assert!(csi(b"1;5", b'A').matches(&up));
    assert!(csi(b"", b'A').matches(&csi(b"7", b'A')));
    assert!(!csi(b"", b'B').matches(&up));
    let insert = csi(b"2", b'~');
    assert!(csi(b"2", b'~').matches(&insert));
    assert!(csi(b"2;3", b'~').matches(&insert));
    assert!(!csi(b"20", b'~').matches(&insert));
    assert!(!csi(b"", b'~').matches(&insert));
    assert!(csi(b";5", b'~').matches(&csi(b"", b'~')));
    assert!(!csi(b"2", b'~').matches(&csi(b"2", b'A')));
    assert!(!csi(b"", b'a').matches(&csi(b"", b'a')));
    assert!(!csi(b"", b'@').matches(&csi(b"", b'@')));
    assert!(!csi(b"", b'[').matches(&csi(b"", b'[')));
    assert_eq!(csi(b"2;3", b'~').get_parameter(), b"2;3");
    assert_eq!(csi(b"2;3", b'~').get_final(), b'~');
    let both = CSICommand::parse(b"1 !p").unwrap().0;
    assert_eq!(both.get_intermediate(), b" !");
}

#[test]
fn first_binding_wins() {
    let mut list = CSIList::default();
    assert_eq!(list.len(), 0);
    assert_eq!(list.match_csi(&csi(b"", b'A')), None);
    list.push(csi(b"", b'B'), 1);
    list.push(csi(b"", b'A'), 2);
    list.push(csi(b"9", b'A'), 3);
    list.push(csi(b"5", b'~'), 4);
    list.push(csi(b"5", b'~'), 5);
    assert_eq!(list.len(), 5);
    assert_eq!(list.match_csi(&csi(b"", b'A')), Some(2));
    assert_eq!(list.match_csi(&csi(b"9", b'A')), Some(2));
    assert_eq!(list.match_csi(&csi(b"5;2", b'~')), Some(4));
    assert_eq!(list.match_csi(&csi(b"6", b'~')), None);
    assert_eq!(list.match_csi(&csi(b"", b'm')), None);
    assert_eq!(list.find_by_codepoint(3), Some(&csi(b"9", b'A')));
    assert_eq!(list.find_by_codepoint(5), Some(&csi(b"5", b'~')));
    assert_eq!(list.find_by_codepoint(6), None);
}

#[test]
fn default_table_binds_the_usual_keys() {
    let parser = decoder();
    let cases: [(&[u8], u32); 16] = [
        (b"\x1B[2~", constants::INSERT),
        (b"\x1B[3~", constants::DELETE),
        (b"\x1B[5~", constants::PAGE_UP),
        (b"\x1B[6~", constants::PAGE_DOWN),
        (b"\x1B[C", constants::RIGHT),
        (b"\x1B[D", constants::LEFT),
        (b"\x1BOH", constants::HOME),
        (b"\x1B[F", constants::END),
        (b"\x1BOP", constants::F1),
        (b"\x1BOS", constants::F4),
        (b"\x1B[11~", constants::F1),
        (b"\x1B[15~", constants::F5),
        (b"\x1B[17~", constants::F6),
        (b"\x1B[24~", constants::F12),
        (b"\x1B[29~", constants::MENU),
        (b"\x1BOA", constants::UP),
    ];
    for (bytes, code) in cases {
        let events = parser.parse(bytes);
        assert_eq!(events.len(), 1, "{bytes:?}");
        assert_eq!(events[0].key_code, KeyCode(code), "{bytes:?}");
        assert_eq!(events[0].mods, Modifiers::new(0), "{bytes:?}");
    }
    assert!(parser.parse(b"\x1B[16~").is_empty());
    assert!(parser.parse(b"\x1B[1m").is_empty());
    assert!(InputParser::new().parse(b"\x1B[A").is_empty());
    assert!(InputParser::default().parse(b"\x1B[1;2Z").is_empty());
}

#[test]
fn capabilities_bind_without_their_prefix() {
    let mut parser = InputParser::new();
    parser.push_capability(b"\x1B[A", 1);
    parser.push_capability(b"\x1BOB", 2);
    parser.push_capability(b"C", 3);
    parser.push_capability(b"\x1B[\x1B[D", 4);
    parser.push_capability(b"\x7F", 5);
    parser.push_capability(b"", 6);
    parser.push(csi(b"", b'E'), 7);
    let keys: Vec<u32> =
        parser.parse(b"\x1B[A\x1B[B\x1B[C\x1B[D\x1B[E").iter().map(key).collect();
    assert_eq!(keys, vec![1, 3, 4, 7]);
}

#[test]
fn plain_bytes_are_keys_of_their_own() {
    let events = decoder().parse(b"a\x00\x7F\r\x1A\x1C~");
    let keys: Vec<u32> = events.iter().map(key).collect();
    assert_eq!(keys, vec![0x61, 0, 0x7F, 0x0D, 0x1A, 0x1C, 0x7E]);
    assert!(events.iter().all(|e| e.mods == Modifiers::new(0)));
    assert_eq!(events[0], KeyEvent { key_code: KeyCode::from(b'a'), ..KeyEvent::default() });
    assert_eq!(KeyCode::from(0x1F62D_u32), KeyCode(0x1F62D));
    assert!(decoder().parse(b"").is_empty());
}

#[test]
fn broken_utf8_is_dropped() {
    let parser = decoder();
    assert!(parser.parse(b"\x80\xBF\xC0\xC1\xF5\xFF").is_empty());
    assert!(parser.parse(b"\xD0").is_empty());
    assert!(parser.parse(b"\xE0\xAA").is_empty());
    assert!(parser.parse(b"\xF0\x9F\x98").is_empty());
    assert!(parser.parse(b"\xF0a").is_empty());
    let keys: Vec<u32> = parser.parse(b"\x80a\xC1b\xD0\x91c").iter().map(key).collect();
    assert_eq!(keys, vec![0x61, 0x62, 0x411, 0x63]);
    let keys: Vec<u32> = parser.parse(b"\xC3\xA9\xF4\x8F\xBF\xBF").iter().map(key).collect();
    assert_eq!(keys, vec![0xE9, 0x10FFFF]);
    let keys: Vec<u32> = parser.parse(b"\xDFab").iter().map(key).collect();
    assert_eq!(keys, vec![0x7E1, 0x62]);
}

#[test]
fn escape_sequences_use_up_their_bytes() {
    let parser = decoder();
    let keys: Vec<u32> = parser.parse(b"\x1B[1;5Ax\x1BOzy\x1B[1mz").iter().map(key).collect();
    assert_eq!(keys, vec![constants::UP, 0x78, 0x79, 0x7A]);
    let events = parser.parse(b"\x1BO\x07");
    assert_eq!(events.iter().map(key).collect::<Vec<u32>>(), vec![7]);
    let events = parser.parse(b"\x1BO");
    assert!(events.is_empty());
    let events = parser.parse(b"\x1B\x1B");
    assert_eq!(events.len(), 1);
    assert_eq!(key(&events[0]), 0x1B);
    assert_eq!(events[0].mods, Modifiers::new(Modifiers::ALT));
    let events = parser.parse(b"\x1B\x7F");
    assert_eq!(events.iter().map(key).collect::<Vec<u32>>(), vec![0x1B, 0x7F]);
    let events = parser.parse(b"\x1B[\x1B[A");
    assert_eq!(events.iter().map(key).collect::<Vec<u32>>(), vec![constants::UP]);
    assert_eq!(parser.step(b"ab\x1B[3;2~c", 2), (Some(parser.parse(b"\x1B[3;2~")[0]), 6));
    assert_eq!(parser.event_of(&csi(b"", b'Z')).unwrap().key_code, KeyCode(constants::TAB));
    assert_eq!(parser.event_of(&csi(b"1", b'Z')), None);
}
