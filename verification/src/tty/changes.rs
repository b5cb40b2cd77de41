//! Changes to the terminal that can be taken back: each holds the bytes that
//! make the change and the bytes that undo it.

use crate::tty::database::{capability_string, string_capabilities};
use terminfo::Database;
use vstd::prelude::*;

verus! {

/// A change to the terminal that can be taken back, so that the terminal can
/// be left as it was found.
pub trait TtyChange {
    /// The bytes that make the change.
    spec fn apply_bytes(&self) -> Seq<u8>;

    /// The bytes that undo the change.
    spec fn revert_bytes(&self) -> Seq<u8>;

    /// Writes the bytes that make the change behind what `tty` holds.
    fn apply(&self, tty: &mut Vec<u8>)
        ensures
            final(tty)@ == old(tty)@ + self.apply_bytes(),
    ;

    /// Writes the bytes that undo the change behind what `tty` holds.
    fn revert(&self, tty: &mut Vec<u8>)
        ensures
            final(tty)@ == old(tty)@ + self.revert_bytes(),
    ;
}

/// A change that a capability database describes.
pub trait FromTerminfo: Sized {
    /// The change as the terminal of `db` makes it, if it can.
    fn from_terminfo(db: &Database) -> Option<Self>;
}

/// The change that a pair of capabilities describes on a terminal with the
/// string capabilities `capabilities`: the bytes of `apply` and of `restore`,
/// if the terminal has both.
pub open spec fn capability_pair(
    capabilities: Map<Seq<char>, Seq<u8>>,
    apply: Seq<char>,
    restore: Seq<char>,
) -> Option<(Seq<u8>, Seq<u8>)> {
    if capabilities.contains_key(apply) && capabilities.contains_key(restore) {
        Some((capabilities[apply], capabilities[restore]))
    } else {
        None
    }
}

/// Saving the cursor's position, undone by putting the cursor back.
pub struct SaveCursor {
    apply: Vec<u8>,
    restore: Vec<u8>,
}

impl TtyChange for SaveCursor {
    closed spec fn apply_bytes(&self) -> Seq<u8> {
        self.apply@
    }

    closed spec fn revert_bytes(&self) -> Seq<u8> {
        self.restore@
    }

    fn apply(&self, tty: &mut Vec<u8>) {
        tty.extend_from_slice(self.apply.as_slice());
    }

    fn revert(&self, tty: &mut Vec<u8>) {
        tty.extend_from_slice(self.restore.as_slice());
    }
}

impl FromTerminfo for SaveCursor {
    fn from_terminfo(db: &Database) -> (r: Option<Self>)
        ensures
            match r {
                Some(change) => capability_pair(
                    string_capabilities(*db),
                    "save_cursor"@,
                    "restore_cursor"@,
                ) == Some((change.apply_bytes(), change.revert_bytes())),
                None => capability_pair(
                    string_capabilities(*db),
                    "save_cursor"@,
                    "restore_cursor"@,
                ).is_none(),
            },
    {
        match capability_string(db, "save_cursor") {
            Some(apply) => match capability_string(db, "restore_cursor") {
                Some(restore) => Some(SaveCursor { apply, restore }),
                None => None,
            },
            None => None,
        }
    }
}

/// Entering the alternate screen, undone by leaving it.
pub struct EnterCaMode {
    apply: Vec<u8>,
    restore: Vec<u8>,
}

impl TtyChange for EnterCaMode {
    closed spec fn apply_bytes(&self) -> Seq<u8> {
        self.apply@
    }

    closed spec fn revert_bytes(&self) -> Seq<u8> {
        self.restore@
    }

    fn apply(&self, tty: &mut Vec<u8>) {
        tty.extend_from_slice(self.apply.as_slice());
    }

    fn revert(&self, tty: &mut Vec<u8>) {
        tty.extend_from_slice(self.restore.as_slice());
    }
}

impl FromTerminfo for EnterCaMode {
    fn from_terminfo(db: &Database) -> (r: Option<Self>)
        ensures
            match r {
                Some(change) => capability_pair(
                    string_capabilities(*db),
                    "enter_ca_mode"@,
                    "exit_ca_mode"@,
                ) == Some((change.apply_bytes(), change.revert_bytes())),
                None => capability_pair(
                    string_capabilities(*db),
                    "enter_ca_mode"@,
                    "exit_ca_mode"@,
                ).is_none(),
            },
    {
        match capability_string(db, "enter_ca_mode") {
            Some(apply) => match capability_string(db, "exit_ca_mode") {
                Some(restore) => Some(EnterCaMode { apply, restore }),
                None => None,
            },
            None => None,
        }
    }
}

} // verus!
