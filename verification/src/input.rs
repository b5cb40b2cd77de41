//! Decoding of raw tty input into key events.

pub mod bindings;
pub mod constants;
pub mod csi;
pub mod modifiers;

pub use crate::input::csi::{CSICommand, CSIList};
pub use crate::input::modifiers::Modifiers;

use crate::input::bindings::{
    capability_csi, default_binding, default_binding_at, default_bindings, key_capability_at,
    terminfo_bindings, DEFAULT_BINDINGS, KEY_CAPABILITIES,
};
use crate::input::csi::{
    csi_modifiers, lemma_parse_csi_length, matched_code, parse_csi, CsiView,
};
use crate::tty::database::{capability_string, string_capabilities};
use terminfo::Database;
use vstd::prelude::*;
use vstd::slice::slice_subrange;

verus! {

/// A key: a Unicode scalar value for printable input, or one of the codes of
/// [`constants`] for a functional key.
#[derive(PartialEq, Eq, Structural, Clone, Copy, Debug)]
pub struct KeyCode(pub u32);

impl From<u32> for KeyCode {
    fn from(val: u32) -> (code: KeyCode) {
        KeyCode(val)
    }
}

impl vstd::std_specs::convert::FromSpecImpl<u32> for KeyCode {
    open spec fn obeys_from_spec() -> bool {
        true
    }

    open spec fn from_spec(val: u32) -> KeyCode {
        KeyCode(val)
    }
}

impl From<u8> for KeyCode {
    fn from(value: u8) -> (code: KeyCode) {
        KeyCode(value as u32)
    }
}

impl vstd::std_specs::convert::FromSpecImpl<u8> for KeyCode {
    open spec fn obeys_from_spec() -> bool {
        true
    }

    open spec fn from_spec(value: u8) -> KeyCode {
        KeyCode(value as u32)
    }
}

impl Default for KeyCode {
    fn default() -> (code: KeyCode)
        ensures
            code == KeyCode(0),
    {
        KeyCode(0)
    }
}

/// Whether a key went down, is held or went up.
#[derive(PartialEq, Eq, Structural, Clone, Copy, Debug)]
pub enum EventType {
    Press,
    Repeat,
    Release,
}

impl Default for EventType {
    fn default() -> (t: EventType)
        ensures
            t == EventType::Repeat,
    {
        EventType::Repeat
    }
}

/// One decoded key event.
#[derive(PartialEq, Eq, Structural, Clone, Copy, Debug)]
pub struct KeyEvent {
    pub key_code: KeyCode,
    pub mods: Modifiers,
    pub event_type: EventType,
}

impl Default for KeyEvent {
    fn default() -> (event: KeyEvent)
        ensures
            event == key_event(0, Modifiers(0)),
    {
        KeyEvent { key_code: KeyCode(0), mods: Modifiers(0), event_type: EventType::Repeat }
    }
}

/// The event of key `code` with the modifiers `mods`. The decoder cannot tell
/// a press from a repeat, so every event it makes is a repeat.
pub open spec fn key_event(code: u32, mods: Modifiers) -> KeyEvent {
    KeyEvent { key_code: KeyCode(code), mods, event_type: EventType::Repeat }
}

/// The scalar value of a two-byte UTF-8 sequence.
pub open spec fn scalar_of_two(b0: u8, b1: u8) -> u32 {
    ((b0 as u32 & 0x1F) << 6) | (b1 as u32 & 0x3F)
}

/// The scalar value of a three-byte UTF-8 sequence.
pub open spec fn scalar_of_three(b0: u8, b1: u8, b2: u8) -> u32 {
    ((b0 as u32 & 0x0F) << 12) | ((b1 as u32 & 0x3F) << 6) | (b2 as u32 & 0x3F)
}

/// The scalar value of a four-byte UTF-8 sequence.
pub open spec fn scalar_of_four(b0: u8, b1: u8, b2: u8, b3: u8) -> u32 {
    ((b0 as u32 & 0x07) << 18) | ((b1 as u32 & 0x3F) << 12) | ((b2 as u32 & 0x3F) << 6) | (b3 as u32
        & 0x3F)
}

/// The event that a complete command behind `ESC [` or `ESC O` stands for.
/// `Z` without parameters is the back tab. Any other command is looked up in
/// the bindings and takes its modifiers from its parameters; one that no
/// binding matches is no event.
pub open spec fn csi_event(bindings: Seq<(CsiView, u32)>, csi: CsiView) -> Option<KeyEvent> {
    if csi.final_byte == 0x5A && csi.parameter_bytes.len() == 0 {
        Some(key_event(constants::TAB, Modifiers(Modifiers::SHIFT)))
    } else {
        match matched_code(bindings, csi) {
            Some(code) => Some(key_event(code, csi_modifiers(csi))),
            None => None,
        }
    }
}

/// What the decoder makes of the input from `ESC` at index `i` on: the event,
/// if there is one, and the number of bytes used up.
pub open spec fn escape_step(bindings: Seq<(CsiView, u32)>, s: Seq<u8>, i: int) -> (
    Option<KeyEvent>,
    int,
) {
    if i + 1 < s.len() && (s[i + 1] == 0x5B || s[i + 1] == 0x4F) {
        match parse_csi(s.subrange(i + 2, s.len() as int)) {
            Some((csi, consumed)) => (csi_event(bindings, csi), consumed + 2),
            None => if s[i + 1] == 0x5B {
                (Some(key_event(0x5B, Modifiers(Modifiers::ALT))), 2)
            } else {
                (None, 2)
            },
        }
    } else if i + 1 < s.len() && (s[i + 1] <= 0x40 || 0x5B <= s[i + 1] <= 0x7E) {
        (Some(key_event(s[i + 1] as u32, Modifiers(Modifiers::ALT))), 2)
    } else {
        (Some(key_event(0x1B, Modifiers(0))), 1)
    }
}

/// What the decoder makes of the input from index `i` on: the event, if
/// there is one, and the number of bytes used up.
///
/// `ESC` opens an escape sequence. Any other byte below 0x80 is a key of its
/// own. A UTF-8 lead byte takes the one, two or three bytes behind it,
/// whatever they are, and gives their scalar value; where the input ends
/// before that, the rest is dropped. Continuation bytes and the bytes that
/// UTF-8 never uses are dropped one by one.
pub open spec fn decode_step(bindings: Seq<(CsiView, u32)>, s: Seq<u8>, i: int) -> (
    Option<KeyEvent>,
    int,
) {
    let b = s[i];
    if b == 0x1B {
        escape_step(bindings, s, i)
    } else if b < 0x80 {
        (Some(key_event(b as u32, Modifiers(0))), 1)
    } else if b < 0xC2 {
        (None, 1)
    } else if b < 0xE0 {
        if i + 1 < s.len() {
            (Some(key_event(scalar_of_two(b, s[i + 1]), Modifiers(0))), 2)
        } else {
            (None, s.len() - i)
        }
    } else if b < 0xF0 {
        if i + 2 < s.len() {
            (Some(key_event(scalar_of_three(b, s[i + 1], s[i + 2]), Modifiers(0))), 3)
        } else {
            (None, s.len() - i)
        }
    } else if b < 0xF5 {
        if i + 3 < s.len() {
            (Some(key_event(scalar_of_four(b, s[i + 1], s[i + 2], s[i + 3]), Modifiers(0))), 4)
        } else {
            (None, s.len() - i)
        }
    } else {
        (None, 1)
    }
}

/// The events of the input from index `i` on, in input order.
pub open spec fn decode_from(bindings: Seq<(CsiView, u32)>, s: Seq<u8>, i: int) -> Seq<KeyEvent>
    decreases s.len() - i,
    via decode_from_decreases
{
    if 0 <= i < s.len() {
        let step = decode_step(bindings, s, i);
        let rest = decode_from(bindings, s, i + step.1);
        match step.0 {
            Some(event) => seq![event] + rest,
            None => rest,
        }
    } else {
        Seq::empty()
    }
}

#[via_fn]
proof fn decode_from_decreases(bindings: Seq<(CsiView, u32)>, s: Seq<u8>, i: int) {
    if 0 <= i < s.len() {
        lemma_step_length(bindings, s, i);
    }
}

/// Every step uses up at least one byte and stays within the input.
pub proof fn lemma_step_length(bindings: Seq<(CsiView, u32)>, s: Seq<u8>, i: int)
    requires
        0 <= i < s.len(),
    ensures
        1 <= decode_step(bindings, s, i).1 <= s.len() - i,
{
    if i + 1 < s.len() {
        lemma_parse_csi_length(s.subrange(i + 2, s.len() as int));
    }
}

/// There are no more events than bytes.
pub proof fn lemma_decode_length(bindings: Seq<(CsiView, u32)>, s: Seq<u8>, i: int)
    requires
        0 <= i <= s.len(),
    ensures
        decode_from(bindings, s, i).len() <= s.len() - i,
    decreases s.len() - i,
{
    if i < s.len() {
        lemma_step_length(bindings, s, i);
        lemma_decode_length(bindings, s, i + decode_step(bindings, s, i).1);
    }
}

/// Input without `ESC` and without bytes from 0x80 on is decoded byte by
/// byte: every byte is the key of its own code, without modifiers.
pub proof fn lemma_decode_plain_bytes(bindings: Seq<(CsiView, u32)>, s: Seq<u8>, i: int)
    requires
        0 <= i <= s.len(),
        forall|k: int| i <= k < s.len() ==> #[trigger] s[k] < 0x80 && s[k] != 0x1B,
    ensures
        decode_from(bindings, s, i) == Seq::new(
            (s.len() - i) as nat,
            |k: int| key_event(s[i + k] as u32, Modifiers(0)),
        ),
    decreases s.len() - i,
{
    let expected = Seq::new(
        (s.len() - i) as nat,
        |k: int| key_event(s[i + k] as u32, Modifiers(0)),
    );
    if i < s.len() {
        lemma_decode_plain_bytes(bindings, s, i + 1);
        let rest = Seq::new(
            (s.len() - (i + 1)) as nat,
            |k: int| key_event(s[i + 1 + k] as u32, Modifiers(0)),
        );
        assert(seq![key_event(s[i] as u32, Modifiers(0))] + rest =~= expected);
    } else {
        assert(decode_from(bindings, s, i) =~= expected);
    }
}

/// The events of a whole input.
pub open spec fn decode(bindings: Seq<(CsiView, u32)>, s: Seq<u8>) -> Seq<KeyEvent> {
    decode_from(bindings, s, 0)
}

/// The decoder: a table of bindings from CSI commands to key codes.
#[derive(Debug)]
pub struct InputParser {
    mappings: CSIList,
}

impl Default for InputParser {
    fn default() -> (parser: Self)
        ensures
            parser.bindings() == Seq::<(CsiView, u32)>::empty(),
    {
        InputParser { mappings: CSIList::new() }
    }
}

impl InputParser {
    /// The bindings, first added first.
    pub closed spec fn bindings(&self) -> Seq<(CsiView, u32)> {
        self.mappings@
    }

    /// A decoder without bindings.
    pub fn new() -> (parser: Self)
        ensures
            parser.bindings() == Seq::<(CsiView, u32)>::empty(),
    {
        InputParser { mappings: CSIList::new() }
    }

    /// Adds one binding behind those that are there.
    pub fn push(&mut self, csi: CSICommand, code: u32)
        ensures
            final(self).bindings() == old(self).bindings().push((csi@, code)),
    {
        self.mappings.push(csi, code);
    }

    /// Binds the key `code` to the command that `capability` stands for: the
    /// capability without a leading `ESC [`, read as a CSI command. A
    /// capability that does not read as one binds nothing.
    pub fn push_capability(&mut self, capability: &[u8], code: u32)
        ensures
            final(self).bindings() == match capability_csi(capability@) {
                Some(csi) => old(self).bindings().push((csi, code)),
                None => old(self).bindings(),
            },
    {
        let len = capability.len();
        let body = if len >= 2 && capability[0] == 0x1B && capability[1] == 0x5B {
            slice_subrange(capability, 2, len)
        } else {
            capability
        };
        match CSICommand::parse(body) {
            Some((command, _)) => self.mappings.push(command, code),
            None => {},
        }
    }

    /// Binds the keys that the terminal of `db` describes: for each key
    /// capability that the terminal has, in the order of [`key_capability`],
    /// what [`InputParser::push_capability`] makes of it.
    pub fn push_from_terminfo(&mut self, db: &Database)
        ensures
            final(self).bindings() == old(self).bindings() + terminfo_bindings(
                string_capabilities(*db),
                KEY_CAPABILITIES as int,
            ),
    {
        let mut i: usize = 0;
        assert(self.bindings() =~= old(self).bindings() + terminfo_bindings(
            string_capabilities(*db),
            0,
        ));
        while i < KEY_CAPABILITIES
            invariant
                i <= KEY_CAPABILITIES,
                self.bindings() == old(self).bindings() + terminfo_bindings(
                    string_capabilities(*db),
                    i as int,
                ),
            decreases KEY_CAPABILITIES - i,
        {
            let ghost before = self.bindings();
            let (name, code) = key_capability_at(i);
            match capability_string(db, name) {
                Some(bytes) => self.push_capability(bytes.as_slice(), code),
                None => {},
            }
            i += 1;
            assert(self.bindings() =~= old(self).bindings() + terminfo_bindings(
                string_capabilities(*db),
                i as int,
            ));
        }
    }

    /// A decoder with the bindings that the terminal of `db` describes.
    pub fn from_terminfo(db: &Database) -> (parser: Self)
        ensures
            parser.bindings() == terminfo_bindings(
                string_capabilities(*db),
                KEY_CAPABILITIES as int,
            ),
    {
        let mut parser = Self::new();
        parser.push_from_terminfo(db);
        assert(parser.bindings() =~= terminfo_bindings(
            string_capabilities(*db),
            KEY_CAPABILITIES as int,
        ));
        parser
    }

    /// Adds the default table, so that decoding works without a terminfo
    /// entry.
    pub fn push_default(&mut self)
        ensures
            final(self).bindings() == old(self).bindings() + default_bindings(),
    {
        let mut i: usize = 0;
        assert(self.bindings() =~= old(self).bindings() + Seq::new(
            0,
            |k: int| default_binding(k),
        ));
        while i < DEFAULT_BINDINGS
            invariant
                i <= DEFAULT_BINDINGS,
                self.bindings() == old(self).bindings() + Seq::new(
                    i as nat,
                    |k: int| default_binding(k),
                ),
            decreases DEFAULT_BINDINGS - i,
        {
            let (command, code) = default_binding_at(i);
            self.mappings.push(command, code);
            i += 1;
            assert(self.bindings() =~= old(self).bindings() + Seq::new(
                i as nat,
                |k: int| default_binding(k),
            ));
        }
    }

    /// The event that a complete command behind `ESC [` or `ESC O` stands
    /// for.
    pub fn event_of(&self, command: &CSICommand) -> (r: Option<KeyEvent>)
        ensures
            r == csi_event(self.bindings(), command@),
    {
        if command.final_byte == 0x5A && command.parameter_bytes.len() == 0 {
            return Some(
                KeyEvent {
                    key_code: KeyCode(constants::TAB),
                    mods: Modifiers(Modifiers::SHIFT),
                    event_type: EventType::Repeat,
                },
            );
        }
        match self.mappings.match_csi(command) {
            Some(code) => Some(
                KeyEvent {
                    key_code: KeyCode(code),
                    mods: command.modifiers(),
                    event_type: EventType::Repeat,
                },
            ),
            None => None,
        }
    }

    /// Decodes one read from the tty into key events, in input order. Every
    /// byte sequence has a decoding: what is malformed or unknown is dropped.
    /// Nothing is kept from one call to the next.
    pub fn parse(&self, input: &[u8]) -> (events: Vec<KeyEvent>)
        ensures
            events@ == decode(self.bindings(), input@),
    {
        let mut events: Vec<KeyEvent> = Vec::new();
        let len = input.len();
        let mut i: usize = 0;
        while i < len
            invariant
                i <= len,
                len == input@.len(),
                decode(self.bindings(), input@) == events@ + decode_from(
                    self.bindings(),
                    input@,
                    i as int,
                ),
            decreases len - i,
        {
            let ghost before = events@;
            proof {
                lemma_step_length(self.bindings(), input@, i as int);
            }
            let (event, used) = self.step(input, i);
            match event {
                Some(e) => {
                    events.push(e);
                    assert(events@ + decode_from(self.bindings(), input@, i + used) =~= before + (
                    seq![e] + decode_from(self.bindings(), input@, i + used)));
                },
                None => {},
            }
            i += used;
        }
        assert(events@ + Seq::<KeyEvent>::empty() =~= events@);
        events
    }

    /// Decodes the bytes at index `i`: the event, if there is one, and the
    /// number of bytes used up.
    pub fn step(&self, input: &[u8], i: usize) -> (r: (Option<KeyEvent>, usize))
        requires
            i < input@.len(),
        ensures
            r.0 == decode_step(self.bindings(), input@, i as int).0,
            r.1 == decode_step(self.bindings(), input@, i as int).1,
            1 <= r.1 <= input@.len() - i,
    {
        let len = input.len();
        let b = input[i];
        proof {
            lemma_step_length(self.bindings(), input@, i as int);
        }
        if b == 0x1B {
            if len - i > 1 && (input[i + 1] == 0x5B || input[i + 1] == 0x4F) {
                let rest = slice_subrange(input, i + 2, len);
                match CSICommand::parse(rest) {
                    Some((command, consumed)) => (self.event_of(&command), consumed + 2),
                    None => if input[i + 1] == 0x5B {
                        (Some(plain_event(0x5B, Modifiers(Modifiers::ALT))), 2)
                    } else {
                        (None, 2)
                    },
                }
            } else if len - i > 1 && (input[i + 1] <= 0x40 || (0x5B <= input[i + 1] && input[i
                + 1] <= 0x7E)) {
                (Some(plain_event(input[i + 1] as u32, Modifiers(Modifiers::ALT))), 2)
            } else {
                (Some(plain_event(0x1B, Modifiers(0))), 1)
            }
        } else if b < 0x80 {
            (Some(plain_event(b as u32, Modifiers(0))), 1)
        } else if b < 0xC2 {
            (None, 1)
        } else if b < 0xE0 {
            if len - i > 1 {
                let code = ((b as u32 & 0x1F) << 6) | (input[i + 1] as u32 & 0x3F);
                (Some(plain_event(code, Modifiers(0))), 2)
            } else {
                (None, len - i)
            }
        } else if b < 0xF0 {
            if len - i > 2 {
                let code = ((b as u32 & 0x0F) << 12) | ((input[i + 1] as u32 & 0x3F) << 6) | (
                input[i + 2] as u32 & 0x3F);
                (Some(plain_event(code, Modifiers(0))), 3)
            } else {
                (None, len - i)
            }
        } else if b < 0xF5 {
            if len - i > 3 {
                let code = ((b as u32 & 0x07) << 18) | ((input[i + 1] as u32 & 0x3F) << 12) | ((
                input[i + 2] as u32 & 0x3F) << 6) | (input[i + 3] as u32 & 0x3F);
                (Some(plain_event(code, Modifiers(0))), 4)
            } else {
                (None, len - i)
            }
        } else {
            (None, 1)
        }
    }
}

/// The event of key `code` with the modifiers `mods`.
fn plain_event(code: u32, mods: Modifiers) -> (event: KeyEvent)
    ensures
        event == key_event(code, mods),
{
    KeyEvent { key_code: KeyCode(code), mods, event_type: EventType::Repeat }
}

} // verus!
