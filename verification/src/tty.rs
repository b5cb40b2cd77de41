//! The terminal session: capability-driven output and line-discipline
//! attributes.

pub mod capabilities;
pub mod changes;
pub mod database;
pub mod errors;
pub mod session;
pub mod termios;

use crate::input::bindings::{terminfo_bindings, KEY_CAPABILITIES};
use crate::input::InputParser;
use crate::tty::database::{
    capability_string, evaluable, expand_template, expansion, is_evaluable, string_capabilities,
    PARAMETER_BOUND,
};
use crate::tty::changes::TtyChange;
use crate::tty::errors::CapabilityError;
use terminfo::Database;
use vstd::prelude::*;

verus! {

/// The size of the terminal window in character cells.
#[derive(PartialEq, Eq, Structural, Clone, Copy, Debug)]
pub struct Winsize {
    pub col: u16,
    pub row: u16,
}

/// What becomes of the request to write a capability: `None` where the
/// terminal has no such capability, `Some(None)` where its template cannot be
/// evaluated, and the bytes to write otherwise. A template that is not
/// [`evaluable`] counts as one that cannot be evaluated.
pub open spec fn emission(
    capabilities: Map<Seq<char>, Seq<u8>>,
    name: Seq<char>,
    params: Seq<i32>,
) -> Option<Option<Seq<u8>>> {
    if !capabilities.contains_key(name) {
        None
    } else if !evaluable(capabilities[name], params) {
        Some(None)
    } else {
        Some(expansion(capabilities[name], params))
    }
}

/// A coordinate or a count as a parameter of a template. What is too large
/// for a template becomes [`PARAMETER_BOUND`], which no template accepts.
pub open spec fn parameter_of(n: int) -> i32 {
    if 0 <= n < PARAMETER_BOUND {
        n as i32
    } else {
        PARAMETER_BOUND
    }
}

/// A flag as a parameter of a template: one or zero.
pub open spec fn flag_parameter(flag: bool) -> i32 {
    if flag {
        1
    } else {
        0
    }
}

pub(crate) fn usize_parameter(n: usize) -> (p: i32)
    ensures
        p == parameter_of(n as int),
{
    if n < 0x10_0000 {
        n as i32
    } else {
        PARAMETER_BOUND
    }
}

pub(crate) fn u32_parameter(n: u32) -> (p: i32)
    ensures
        p == parameter_of(n as int),
{
    if n < 0x10_0000 {
        n as i32
    } else {
        PARAMETER_BOUND
    }
}

pub(crate) fn bool_parameter(flag: bool) -> (p: i32)
    ensures
        p == flag_parameter(flag),
{
    if flag {
        1
    } else {
        0
    }
}

/// The output side of a session: a capability database and the bytes that
/// wait to be written to the terminal.
pub struct TerminfoWrapper {
    pub db: Database,
    buffer: Vec<u8>,
}

impl From<Database> for TerminfoWrapper {
    /// A session on `value` with nothing to write.
    fn from(value: Database) -> (session: TerminfoWrapper)
        ensures
            session.database() == value,
            session.pending() == Seq::<u8>::empty(),
    {
        TerminfoWrapper { db: value, buffer: Vec::new() }
    }
}

impl vstd::std_specs::convert::FromSpecImpl<Database> for TerminfoWrapper {
    open spec fn obeys_from_spec() -> bool {
        false
    }

    open spec fn from_spec(value: Database) -> TerminfoWrapper {
        choose|session: TerminfoWrapper|
            session.database() == value && session.pending() == Seq::<u8>::empty()
    }
}

impl std::io::Write for TerminfoWrapper {
    /// Adds all of `buf` to the pending output. This cannot fail.
    fn write(&mut self, buf: &[u8]) -> (r: std::io::Result<usize>)
        ensures
            r matches Ok(n) && n == buf@.len(),
            final(self).pending() == old(self).pending() + buf@,
            final(self).database() == old(self).database(),
    {
        self.buffer.extend_from_slice(buf);
        Ok(buf.len())
    }

    /// Does nothing: the pending output stays until the caller takes it.
    fn flush(&mut self) -> (r: std::io::Result<()>)
        ensures
            r is Ok,
            *final(self) == *old(self),
    {
        Ok(())
    }
}

impl TerminfoWrapper {
    /// The bytes that wait to be written, in the order of the calls that
    /// made them.
    pub closed spec fn pending(&self) -> Seq<u8> {
        self.buffer@
    }

    /// The capability database of the session.
    pub closed spec fn database(&self) -> Database {
        self.db
    }

    /// The string capabilities of the session's terminal.
    pub open spec fn capabilities(&self) -> Map<Seq<char>, Seq<u8>> {
        string_capabilities(self.database())
    }

    /// Whether a call with the result `r` has turned the session `before`
    /// into `after` as `outcome` asks: the bytes of a successful expansion
    /// are added to the pending output, and every failure leaves the session
    /// as it was and names its cause.
    pub open spec fn emitted(
        before: &TerminfoWrapper,
        after: &TerminfoWrapper,
        name: Seq<char>,
        outcome: Option<Option<Seq<u8>>>,
        r: Result<(), CapabilityError>,
    ) -> bool {
        &&& after.database() == before.database()
        &&& match outcome {
            Some(Some(bytes)) => r.is_ok() && after.pending() =~= before.pending() + bytes,
            Some(None) => r matches Err(CapabilityError::CapabilityExpansionError)
                && after.pending() == before.pending(),
            None => r matches Err(CapabilityError::CapabilityNotFound { cap_name }) && cap_name@
                == name && after.pending() == before.pending(),
        }
    }

    /// Whether a request to write the capability `name` with `params`, which
    /// gave the result `r`, has turned the session `before` into `after` as
    /// it should.
    pub open spec fn wrote(
        before: &TerminfoWrapper,
        after: &TerminfoWrapper,
        name: Seq<char>,
        params: Seq<i32>,
        r: Result<(), CapabilityError>,
    ) -> bool {
        Self::emitted(before, after, name, emission(before.capabilities(), name, params), r)
    }

    /// A session on `db` with nothing to write.
    pub fn new(db: Database) -> (session: Self)
        ensures
            session.database() == db,
            session.pending() == Seq::<u8>::empty(),
    {
        TerminfoWrapper { db, buffer: Vec::new() }
    }

    /// The bytes that wait to be written.
    pub fn buffered(&self) -> (bytes: &[u8])
        ensures
            bytes@ == self.pending(),
    {
        self.buffer.as_slice()
    }

    /// Forgets the pending output.
    pub fn clear(&mut self)
        ensures
            final(self).pending() == Seq::<u8>::empty(),
            final(self).database() == old(self).database(),
    {
        self.buffer.clear();
    }

    /// Adds `bytes` to the pending output as they are.
    pub fn append(&mut self, bytes: &[u8])
        ensures
            final(self).pending() == old(self).pending() + bytes@,
            final(self).database() == old(self).database(),
    {
        self.buffer.extend_from_slice(bytes);
    }

    /// Adds the bytes that make `change` to the pending output.
    pub fn apply_change<C: TtyChange>(&mut self, change: &C)
        ensures
            final(self).pending() == old(self).pending() + change.apply_bytes(),
            final(self).database() == old(self).database(),
    {
        change.apply(&mut self.buffer);
    }

    /// Adds the bytes that undo `change` to the pending output.
    pub fn revert_change<C: TtyChange>(&mut self, change: &C)
        ensures
            final(self).pending() == old(self).pending() + change.revert_bytes(),
            final(self).database() == old(self).database(),
    {
        change.revert(&mut self.buffer);
    }

    /// Settles the request to write the capability `name`, given what
    /// became of it.
    pub fn finish_emission(&mut self, name: &str, outcome: Option<Option<Vec<u8>>>) -> (r: Result<
        (),
        CapabilityError,
    >)
        ensures
            Self::emitted(
                old(self),
                final(self),
                name@,
                match outcome {
                    Some(Some(bytes)) => Some(Some(bytes@)),
                    Some(None) => Some(None),
                    None => None,
                },
                r,
            ),
    {
        match outcome {
            Some(Some(bytes)) => {
                self.buffer.extend_from_slice(bytes.as_slice());
                Ok(())
            },
            Some(None) => Err(CapabilityError::CapabilityExpansionError),
            None => Err(CapabilityError::CapabilityNotFound { cap_name: name.to_owned() }),
        }
    }

    /// The bytes of the capability `name` as the database holds them, if the
    /// terminal has it as a string.
    pub fn literal(&self, name: &str) -> (r: Option<Vec<u8>>)
        ensures
            match r {
                Some(bytes) => self.capabilities().contains_key(name@) && self.capabilities()[name@]
                    == bytes@,
                None => !self.capabilities().contains_key(name@),
            },
    {
        capability_string(&self.db, name)
    }

    /// What becomes of the request to write the capability `name` with
    /// `params`.
    fn emission_of(&self, name: &str, params: &[i32]) -> (outcome: Option<Option<Vec<u8>>>)
        ensures
            emission(self.capabilities(), name@, params@) == match outcome {
                Some(Some(bytes)) => Some(Some(bytes@)),
                Some(None) => Some(None),
                None => None,
            },
    {
        match capability_string(&self.db, name) {
            Some(template) => {
                if is_evaluable(template.as_slice(), params) {
                    Some(expand_template(template.as_slice(), params))
                } else {
                    Some(None)
                }
            },
            None => None,
        }
    }

    /// The result of expanding the capability `name`, given what became of
    /// the expansion: the bytes, or the error that names the cause.
    pub fn expansion_result(name: &str, outcome: Option<Option<Vec<u8>>>) -> (r: Result<
        Vec<u8>,
        CapabilityError,
    >)
        ensures
            match outcome {
                Some(Some(bytes)) => r matches Ok(v) && v@ == bytes@,
                Some(None) => r matches Err(CapabilityError::CapabilityExpansionError),
                None => r matches Err(CapabilityError::CapabilityNotFound { cap_name }) && cap_name@
                    == name@,
            },
    {
        match outcome {
            Some(Some(bytes)) => Ok(bytes),
            Some(None) => Err(CapabilityError::CapabilityExpansionError),
            None => Err(CapabilityError::CapabilityNotFound { cap_name: name.to_owned() }),
        }
    }

    /// Expands the capability `name` with `params` and hands the bytes out.
    /// The pending output stays as it is.
    pub fn expand(&self, name: &str, params: &[i32]) -> (r: Result<Vec<u8>, CapabilityError>)
        ensures
            match emission(self.capabilities(), name@, params@) {
                Some(Some(bytes)) => r matches Ok(v) && v@ == bytes,
                Some(None) => r matches Err(CapabilityError::CapabilityExpansionError),
                None => r matches Err(CapabilityError::CapabilityNotFound { cap_name }) && cap_name@
                    == name@,
            },
    {
        Self::expansion_result(name, self.emission_of(name, params))
    }

    /// Expands the capability `name` with `params` and adds the result to the
    /// pending output.
    pub fn expand_write_with(&mut self, name: &str, params: &[i32]) -> (r: Result<
        (),
        CapabilityError,
    >)
        ensures
            Self::wrote(old(self), final(self), name@, params@, r),
    {
        let outcome = self.emission_of(name, params);
        self.finish_emission(name, outcome)
    }

    /// Expands the capability `name`, which takes no parameters, and adds
    /// the result to the pending output.
    pub fn expand_write(&mut self, name: &str) -> (r: Result<(), CapabilityError>)
        ensures
            Self::wrote(old(self), final(self), name@, Seq::<i32>::empty(), r),
    {
        let params: [i32; 0] = [];
        assert(params@ =~= Seq::<i32>::empty());
        self.expand_write_with(name, params.as_slice())
    }

    /// A decoder with the key bindings that the session's terminal
    /// describes.
    pub fn get_parser(&self) -> (parser: InputParser)
        ensures
            parser.bindings() == terminfo_bindings(self.capabilities(), KEY_CAPABILITIES as int),
    {
        InputParser::from_terminfo(&self.db)
    }

    /// Sets the foreground to one of the eight colours of the legacy
    /// palette, with the sequence `ESC [ 3c m`.
    pub fn legacy_foreground(&mut self, color: u8)
        requires
            color <= 7,
        ensures
            final(self).database() == old(self).database(),
            final(self).pending() == old(self).pending() + seq![
                0x1Bu8,
                0x5Bu8,
                0x33u8,
                (0x30 + color) as u8,
                0x6Du8,
            ],
    {
        let bytes: [u8; 5] = [0x1B, 0x5B, 0x33, 0x30 + color, 0x6D];
        assert(bytes@ =~= seq![0x1Bu8, 0x5Bu8, 0x33u8, (0x30 + color) as u8, 0x6Du8]);
        self.buffer.extend_from_slice(bytes.as_slice());
    }

    /// Sets the background to one of the eight colours of the legacy
    /// palette, with the sequence `ESC [ 4c m`.
    pub fn legacy_background(&mut self, color: u8)
        requires
            color <= 7,
        ensures
            final(self).database() == old(self).database(),
            final(self).pending() == old(self).pending() + seq![
                0x1Bu8,
                0x5Bu8,
                0x34u8,
                (0x30 + color) as u8,
                0x6Du8,
            ],
    {
        let bytes: [u8; 5] = [0x1B, 0x5B, 0x34, 0x30 + color, 0x6D];
        assert(bytes@ =~= seq![0x1Bu8, 0x5Bu8, 0x34u8, (0x30 + color) as u8, 0x6Du8]);
        self.buffer.extend_from_slice(bytes.as_slice());
    }

    /// Moves the cursor to the zero-based `row` and `col`. The template of
    /// the terminal sees to the one-based form that terminals expect.
    pub fn move_cursor(&mut self, row: usize, col: usize) -> (r: Result<(), CapabilityError>)
        ensures
            Self::wrote(
                old(self),
                final(self),
                "cursor_address"@,
                seq![parameter_of(row as int), parameter_of(col as int)],
                r,
            ),
    {
        let params: [i32; 2] = [usize_parameter(row), usize_parameter(col)];
        assert(params@ =~= seq![parameter_of(row as int), parameter_of(col as int)]);
        self.expand_write_with("cursor_address", params.as_slice())
    }
}

} // verus!
