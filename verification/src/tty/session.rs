//! The states of a terminal session and the steps between them. The session
//! decides and keeps the books; what it hands back is carried out by the
//! caller, who owns the tty.

use crate::tty::changes::{capability_pair, EnterCaMode, FromTerminfo, TtyChange};
use crate::tty::errors::CapabilityError;
use crate::tty::termios::{raw_attributes, raw_mode, RawModeFlags, TermiosAttrs, TermiosView};
use crate::tty::TerminfoWrapper;
use vstd::prelude::*;

verus! {

/// The state of a session.
#[derive(PartialEq, Eq, Structural, Clone, Copy, Debug)]
pub enum Mode {
    /// The tty has the attributes it was found with.
    Cooked,
    /// Raw mode is in effect.
    Raw,
    /// The alternate screen is shown; `raw` says whether raw mode was in
    /// effect when it was entered.
    AlternateScreen { raw: bool },
    /// The session is over.
    Closed,
}

/// When a change of attributes takes effect.
#[derive(PartialEq, Eq, Structural, Clone, Copy, Debug)]
pub enum SetWhen {
    /// Once the output has been written.
    Drain,
    /// Once the output has been written, with the pending input thrown away.
    Flush,
}

/// An order to the owner of the tty: set these attributes.
#[derive(Clone, Debug, PartialEq, Eq)]
pub struct SetAttributes {
    pub attrs: TermiosAttrs,
    pub when: SetWhen,
}

/// The undo sequences in the order in which teardown writes them: the last
/// recorded first.
pub open spec fn replayed(undos: Seq<Seq<u8>>) -> Seq<u8>
    decreases undos.len(),
{
    if undos.len() == 0 {
        Seq::empty()
    } else {
        undos.last() + replayed(undos.drop_last())
    }
}

/// A terminal session: its state, the attributes that the tty had when the
/// session began, the output that waits to be written, and the undo
/// sequences of the changes that were applied.
pub struct Session {
    terminfo: TerminfoWrapper,
    mode: Mode,
    original: TermiosAttrs,
    undos: Vec<Vec<u8>>,
    screen_slot: usize,
}

impl Session {
    /// The session's invariant: in the alternate screen, the undo sequence
    /// of the screen is among the recorded ones.
    pub closed spec fn wf(&self) -> bool {
        self.mode is AlternateScreen ==> self.screen_slot < self.undos@.len()
    }

    /// The state.
    pub closed spec fn mode(&self) -> Mode {
        self.mode
    }

    /// The attributes that the tty had when the session began.
    pub closed spec fn original(&self) -> TermiosView {
        self.original@
    }

    /// The output side of the session.
    pub closed spec fn output(&self) -> TerminfoWrapper {
        self.terminfo
    }

    /// The undo sequences of the changes in effect, first applied first.
    pub closed spec fn undos(&self) -> Seq<Seq<u8>> {
        Seq::new(self.undos@.len(), |i: int| self.undos@[i]@)
    }

    /// Where among the undo sequences that of the alternate screen stands.
    pub closed spec fn screen_slot(&self) -> int {
        self.screen_slot as int
    }

    /// A session in the state `Cooked` on a tty that has the attributes
    /// `original`.
    pub fn new(terminfo: TerminfoWrapper, original: TermiosAttrs) -> (session: Self)
        ensures
            session.wf(),
            session.mode() == Mode::Cooked,
            session.original() == original@,
            session.output() == terminfo,
            session.undos() == Seq::<Seq<u8>>::empty(),
    {
        let session = Session {
            terminfo,
            mode: Mode::Cooked,
            original,
            undos: Vec::new(),
            screen_slot: 0,
        };
        assert(session.undos() =~= Seq::<Seq<u8>>::empty());
        session
    }

    /// The state.
    pub fn current_mode(&self) -> (mode: Mode)
        ensures
            mode == self.mode(),
    {
        self.mode
    }

    /// The output that waits to be written.
    pub fn buffered(&self) -> (bytes: &[u8])
        ensures
            bytes@ == self.output().pending(),
    {
        self.terminfo.buffered()
    }

    /// Access to the output side, to write capabilities. The rest of the
    /// session stays as it is.
    pub fn output_mut(&mut self) -> (out: &mut TerminfoWrapper)
        requires
            old(self).wf(),
        ensures
            *out == old(self).output(),
            final(self).output() == *final(out),
            final(self).wf(),
            final(self).mode() == old(self).mode(),
            final(self).original() == old(self).original(),
            final(self).undos() == old(self).undos(),
            final(self).screen_slot() == old(self).screen_slot(),
    {
        &mut self.terminfo
    }

    /// Forgets the pending output, after the caller has written it.
    pub fn clear(&mut self)
        requires
            old(self).wf(),
        ensures
            final(self).wf(),
            final(self).output().pending() == Seq::<u8>::empty(),
            final(self).output().database() == old(self).output().database(),
            final(self).mode() == old(self).mode(),
            final(self).original() == old(self).original(),
            final(self).undos() == old(self).undos(),
            final(self).screen_slot() == old(self).screen_slot(),
    {
        self.terminfo.clear();
    }

    /// From `Cooked` to `Raw`. The result is the order to set the attributes
    /// of raw mode, once the output has drained and with the pending input
    /// thrown away. In any other state nothing happens and the result is
    /// `None`.
    pub fn enter_raw(&mut self, flags: &RawModeFlags) -> (set: Option<SetAttributes>)
        requires
            old(self).wf(),
            flags.vmin < old(self).original().control_chars.len(),
            flags.vtime < old(self).original().control_chars.len(),
        ensures
            final(self).wf(),
            final(self).original() == old(self).original(),
            final(self).output() == old(self).output(),
            final(self).undos() == old(self).undos(),
            final(self).screen_slot() == old(self).screen_slot(),
            match set {
                Some(order) => {
                    &&& old(self).mode() == Mode::Cooked
                    &&& final(self).mode() == Mode::Raw
                    &&& order.attrs@ == raw_attributes(old(self).original(), *flags)
                    &&& order.when == SetWhen::Flush
                },
                None => old(self).mode() != Mode::Cooked && final(self).mode() == old(self).mode(),
            },
    {
        match self.mode {
            Mode::Cooked => {
                self.mode = Mode::Raw;
                Some(SetAttributes { attrs: raw_mode(&self.original, flags), when: SetWhen::Flush })
            },
            _ => None,
        }
    }

    /// From `Raw` back to `Cooked`. The result is the order to set, once the
    /// output has drained, the attributes that the tty had when the session
    /// began. In any other state nothing happens and the result is `None`.
    pub fn leave_raw(&mut self) -> (set: Option<SetAttributes>)
        requires
            old(self).wf(),
        ensures
            final(self).wf(),
            final(self).original() == old(self).original(),
            final(self).output() == old(self).output(),
            final(self).undos() == old(self).undos(),
            final(self).screen_slot() == old(self).screen_slot(),
            match set {
                Some(order) => {
                    &&& old(self).mode() == Mode::Raw
                    &&& final(self).mode() == Mode::Cooked
                    &&& order.attrs@ == old(self).original()
                    &&& order.when == SetWhen::Drain
                },
                None => old(self).mode() != Mode::Raw && final(self).mode() == old(self).mode(),
            },
    {
        match self.mode {
            Mode::Raw => {
                self.mode = Mode::Cooked;
                Some(SetAttributes { attrs: self.snapshot(), when: SetWhen::Drain })
            },
            _ => None,
        }
    }

    /// A copy of the attributes that the tty had when the session began.
    pub fn snapshot(&self) -> (attrs: TermiosAttrs)
        ensures
            attrs@ == self.original(),
    {
        TermiosAttrs {
            input_flags: self.original.input_flags,
            output_flags: self.original.output_flags,
            control_flags: self.original.control_flags,
            local_flags: self.original.local_flags,
            control_chars: self.original.control_chars.clone(),
        }
    }

    /// Applies a change that can be taken back: its bytes join the pending
    /// output, and its undo sequence is recorded behind those that are
    /// there. A closed session applies nothing and says `false`.
    pub fn apply_change<C: TtyChange>(&mut self, change: &C) -> (applied: bool)
        requires
            old(self).wf(),
        ensures
            final(self).wf(),
            final(self).original() == old(self).original(),
            final(self).mode() == old(self).mode(),
            final(self).screen_slot() == old(self).screen_slot(),
            final(self).output().database() == old(self).output().database(),
            applied == (old(self).mode() != Mode::Closed),
            applied ==> final(self).output().pending() == old(self).output().pending()
                + change.apply_bytes(),
            applied ==> final(self).undos() == old(self).undos().push(change.revert_bytes()),
            !applied ==> final(self).output() == old(self).output(),
            !applied ==> final(self).undos() == old(self).undos(),
    {
        if self.mode == Mode::Closed {
            return false;
        }
        self.record(change);
        true
    }

    fn record<C: TtyChange>(&mut self, change: &C)
        requires
            old(self).mode is AlternateScreen ==> old(self).screen_slot < old(self).undos@.len(),
        ensures
            final(self).mode == old(self).mode,
            final(self).original == old(self).original,
            final(self).screen_slot == old(self).screen_slot,
            final(self).undos@.len() == old(self).undos@.len() + 1,
            final(self).output().database() == old(self).output().database(),
            final(self).output().pending() == old(self).output().pending() + change.apply_bytes(),
            final(self).undos() == old(self).undos().push(change.revert_bytes()),
    {
        self.terminfo.apply_change(change);
        let mut undo: Vec<u8> = Vec::new();
        change.revert(&mut undo);
        assert(undo@ =~= change.revert_bytes());
        self.undos.push(undo);
        assert(self.undos() =~= old(self).undos().push(change.revert_bytes()));
    }

    /// From `Cooked` or `Raw` to the alternate screen, as a change that can
    /// be taken back. `Ok(true)` says that the step was made. Where the
    /// terminal cannot enter the alternate screen and leave it again, the
    /// result is the error that names `enter_ca_mode` and nothing has
    /// happened. In the alternate screen and in a closed session nothing
    /// happens either, and the result is `Ok(false)`.
    pub fn enter_alternate_screen(&mut self) -> (r: Result<bool, CapabilityError>)
        requires
            old(self).wf(),
        ensures
            final(self).wf(),
            final(self).original() == old(self).original(),
            final(self).output().database() == old(self).output().database(),
            match r {
                Ok(true) => {
                    &&& old(self).mode() == Mode::Cooked || old(self).mode() == Mode::Raw
                    &&& final(self).mode() == (Mode::AlternateScreen {
                        raw: old(self).mode() == Mode::Raw,
                    })
                    &&& capability_pair(
                        old(self).output().capabilities(),
                        "enter_ca_mode"@,
                        "exit_ca_mode"@,
                    ) matches Some(pair)
                    &&& final(self).output().pending() == old(self).output().pending() + pair.0
                    &&& final(self).undos() == old(self).undos().push(pair.1)
                    &&& final(self).screen_slot() == old(self).undos().len()
                },
                Ok(false) => {
                    &&& old(self).mode() != Mode::Cooked && old(self).mode() != Mode::Raw
                    &&& final(self).mode() == old(self).mode()
                    &&& final(self).output() == old(self).output()
                    &&& final(self).undos() == old(self).undos()
                    &&& final(self).screen_slot() == old(self).screen_slot()
                },
                Err(e) => {
                    &&& old(self).mode() == Mode::Cooked || old(self).mode() == Mode::Raw
                    &&& capability_pair(
                        old(self).output().capabilities(),
                        "enter_ca_mode"@,
                        "exit_ca_mode"@,
                    ).is_none()
                    &&& e matches CapabilityError::CapabilityNotFound { cap_name }
                    &&& cap_name@ == "enter_ca_mode"@
                    &&& final(self).mode() == old(self).mode()
                    &&& final(self).output() == old(self).output()
                    &&& final(self).undos() == old(self).undos()
                    &&& final(self).screen_slot() == old(self).screen_slot()
                },
            },
    {
        let raw = match self.mode {
            Mode::Cooked => false,
            Mode::Raw => true,
            _ => {
                return Ok(false);
            },
        };
        match EnterCaMode::from_terminfo(&self.terminfo.db) {
            Some(change) => {
                let slot = self.undos.len();
                self.record(&change);
                self.screen_slot = slot;
                self.mode = Mode::AlternateScreen { raw };
                Ok(true)
            },
            None => Err(
                CapabilityError::CapabilityNotFound { cap_name: "enter_ca_mode".to_owned() },
            ),
        }
    }

    /// From the alternate screen back to the state it was entered from. The
    /// undo sequence of the screen joins the pending output and leaves the
    /// record. In any other state nothing happens and the result is `false`.
    pub fn leave_alternate_screen(&mut self) -> (left: bool)
        requires
            old(self).wf(),
        ensures
            final(self).wf(),
            final(self).original() == old(self).original(),
            final(self).output().database() == old(self).output().database(),
            left == (old(self).mode() is AlternateScreen),
            old(self).mode() matches Mode::AlternateScreen { raw } ==> {
                &&& final(self).mode() == if raw {
                    Mode::Raw
                } else {
                    Mode::Cooked
                }
                &&& 0 <= old(self).screen_slot() < old(self).undos().len()
                &&& final(self).output().pending() == old(self).output().pending() + old(
                    self,
                ).undos()[old(self).screen_slot()]
                &&& final(self).undos() == old(self).undos().remove(old(self).screen_slot())
            },
            !left ==> final(self).mode() == old(self).mode() && final(self).output() == old(
                self,
            ).output() && final(self).undos() == old(self).undos() && final(self).screen_slot()
                == old(self).screen_slot(),
    {
        match self.mode {
            Mode::AlternateScreen { raw } => {
                let undo = self.undos.remove(self.screen_slot);
                self.terminfo.append(undo.as_slice());
                self.mode = if raw {
                    Mode::Raw
                } else {
                    Mode::Cooked
                };
                assert(self.undos() =~= old(self).undos().remove(old(self).screen_slot()));
                true
            },
            _ => false,
        }
    }

    /// Ends the session, from any state. The undo sequences of the changes in
    /// effect join the pending output, the last recorded first, and the
    /// record is emptied. The result is the order to set, once the output has
    /// drained, the attributes that the tty had when the session began. A
    /// session that is closed already stays as it is and gives `None`.
    pub fn close(&mut self) -> (restore: Option<SetAttributes>)
        requires
            old(self).wf(),
        ensures
            final(self).wf(),
            final(self).mode() == Mode::Closed,
            final(self).original() == old(self).original(),
            final(self).output().database() == old(self).output().database(),
            match restore {
                Some(order) => {
                    &&& old(self).mode() != Mode::Closed
                    &&& order.attrs@ == old(self).original()
                    &&& order.when == SetWhen::Drain
                    &&& final(self).output().pending() == old(self).output().pending() + replayed(
                        old(self).undos(),
                    )
                    &&& final(self).undos() == Seq::<Seq<u8>>::empty()
                },
                None => {
                    &&& old(self).mode() == Mode::Closed
                    &&& final(self).output() == old(self).output()
                    &&& final(self).undos() == old(self).undos()
                },
            },
    {
        if self.mode == Mode::Closed {
            return None;
        }
        self.mode = Mode::Closed;
        assert(old(self).undos().take(old(self).undos().len() as int) =~= old(self).undos());
        assert(self.terminfo.pending() =~= old(self).output().pending() + replayed(
            old(self).undos().skip(old(self).undos().len() as int),
        ));
        while self.undos.len() > 0
            invariant
                self.mode == Mode::Closed,
                self.original == old(self).original,
                self.terminfo.database() == old(self).output().database(),
                self.undos@.len() <= old(self).undos().len(),
                self.undos() == old(self).undos().take(self.undos@.len() as int),
                self.terminfo.pending() + replayed(self.undos()) == old(self).output().pending()
                    + replayed(old(self).undos()),
            decreases self.undos@.len(),
        {
            let ghost before = self.undos();
            let ghost written = self.terminfo.pending();
            let undo = match self.undos.pop() {
                Some(undo) => undo,
                None => Vec::new(),
            };
            self.terminfo.append(undo.as_slice());
            proof {
                assert(undo@ == before.last());
                assert(self.undos() =~= before.drop_last());
                assert(self.undos() =~= old(self).undos().take(self.undos@.len() as int));
                assert(written + replayed(before) =~= (written + before.last()) + replayed(
                    before.drop_last(),
                ));
            }
        }
        assert(self.undos() =~= Seq::<Seq<u8>>::empty());
        assert(self.terminfo.pending() + replayed(self.undos()) =~= self.terminfo.pending());
        Some(SetAttributes { attrs: self.snapshot(), when: SetWhen::Drain })
    }
}

} // verus!
