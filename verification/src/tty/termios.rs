//! The line-discipline attributes of a tty as plain numbers, and the change
//! that puts a tty into raw mode.

use nix::sys::termios::{ControlFlags, InputFlags, LocalFlags, OutputFlags, SpecialCharacterIndices};
use vstd::prelude::*;

verus! {

/// The attributes of a tty: the four flag words and the control characters.
#[derive(Clone, Debug, PartialEq, Eq)]
pub struct TermiosAttrs {
    pub input_flags: u64,
    pub output_flags: u64,
    pub control_flags: u64,
    pub local_flags: u64,
    pub control_chars: Vec<u8>,
}

/// The value of a [`TermiosAttrs`].
pub struct TermiosView {
    pub input_flags: u64,
    pub output_flags: u64,
    pub control_flags: u64,
    pub local_flags: u64,
    pub control_chars: Seq<u8>,
}

impl View for TermiosAttrs {
    type V = TermiosView;

    open spec fn view(&self) -> TermiosView {
        TermiosView {
            input_flags: self.input_flags,
            output_flags: self.output_flags,
            control_flags: self.control_flags,
            local_flags: self.local_flags,
            control_chars: self.control_chars@,
        }
    }
}

/// Where a platform keeps what raw mode touches: the bits of the flags in
/// their words, and the places of `VMIN` and `VTIME` among the control
/// characters.
#[derive(Clone, Copy, Debug, PartialEq, Eq)]
pub struct RawModeFlags {
    pub ignbrk: u64,
    pub brkint: u64,
    pub parmrk: u64,
    pub istrip: u64,
    pub icrnl: u64,
    pub igncr: u64,
    pub ixon: u64,
    pub opost: u64,
    pub echo: u64,
    pub echonl: u64,
    pub icanon: u64,
    pub isig: u64,
    pub iexten: u64,
    pub csize: u64,
    pub parenb: u64,
    pub cs8: u64,
    pub vmin: usize,
    pub vtime: usize,
}

/// The attributes of raw mode, made from `attrs`: no input processing
/// (`IGNBRK`, `BRKINT`, `PARMRK`, `ISTRIP`, `ICRNL`, `IGNCR`, `IXON` off), no
/// output processing (`OPOST` off), no echo, line editing, signals or
/// extensions (`ECHO`, `ECHONL`, `ICANON`, `ISIG`, `IEXTEN` off), characters
/// of eight bits without parity (`CSIZE` and `PARENB` off, then `CS8` on),
/// and reads that wait for one byte (`VTIME` 0, `VMIN` 1). Everything else
/// stays as it is.
pub open spec fn raw_attributes(attrs: TermiosView, flags: RawModeFlags) -> TermiosView {
    TermiosView {
        input_flags: attrs.input_flags & !(flags.ignbrk | flags.brkint | flags.parmrk
            | flags.istrip | flags.icrnl | flags.igncr | flags.ixon),
        output_flags: attrs.output_flags & !flags.opost,
        control_flags: (attrs.control_flags & !(flags.csize | flags.parenb)) | flags.cs8,
        local_flags: attrs.local_flags & !(flags.echo | flags.echonl | flags.icanon | flags.isig
            | flags.iexten),
        control_chars: attrs.control_chars.update(flags.vtime as int, 0u8).update(
            flags.vmin as int,
            1u8,
        ),
    }
}

/// The bits of `IGNBRK`, `BRKINT`, `PARMRK`, `ISTRIP`, `ICRNL`, `IGNCR` and
/// `IXON`, in this order, as `nix` has them for this platform.
#[verifier::external_body]
fn input_flag_bits() -> (bits: [u64; 7]) {
    [
        InputFlags::IGNBRK.bits() as u64,
        InputFlags::BRKINT.bits() as u64,
        InputFlags::PARMRK.bits() as u64,
        InputFlags::ISTRIP.bits() as u64,
        InputFlags::ICRNL.bits() as u64,
        InputFlags::IGNCR.bits() as u64,
        InputFlags::IXON.bits() as u64,
    ]
}

/// The bit of `OPOST`, as `nix` has it for this platform.
#[verifier::external_body]
fn output_flag_bits() -> (bits: u64) {
    OutputFlags::OPOST.bits() as u64
}

/// The bits of `ECHO`, `ECHONL`, `ICANON`, `ISIG` and `IEXTEN`, in this
/// order, as `nix` has them for this platform.
#[verifier::external_body]
fn local_flag_bits() -> (bits: [u64; 5]) {
    [
        LocalFlags::ECHO.bits() as u64,
        LocalFlags::ECHONL.bits() as u64,
        LocalFlags::ICANON.bits() as u64,
        LocalFlags::ISIG.bits() as u64,
        LocalFlags::IEXTEN.bits() as u64,
    ]
}

/// The bits of `CSIZE`, `PARENB` and `CS8`, in this order, as `nix` has them
/// for this platform.
#[verifier::external_body]
fn control_flag_bits() -> (bits: [u64; 3]) {
    [
        ControlFlags::CSIZE.bits() as u64,
        ControlFlags::PARENB.bits() as u64,
        ControlFlags::CS8.bits() as u64,
    ]
}

/// The places of `VMIN` and `VTIME` among the control characters, in this
/// order, as `nix` has them for this platform.
#[verifier::external_body]
fn control_char_slots() -> (slots: [usize; 2]) {
    [SpecialCharacterIndices::VMIN as usize, SpecialCharacterIndices::VTIME as usize]
}

impl RawModeFlags {
    /// The flags of the platform that the program runs on: what `nix` has
    /// for it, put together by [`RawModeFlags::from_bits`]. The bits differ
    /// from platform to platform, so nothing is said of them here.
    pub fn platform() -> (flags: Self) {
        Self::from_bits(
            input_flag_bits(),
            output_flag_bits(),
            local_flag_bits(),
            control_flag_bits(),
            control_char_slots(),
        )
    }

    /// The flags from the bits of a platform: `input` holds those of
    /// `IGNBRK`, `BRKINT`, `PARMRK`, `ISTRIP`, `ICRNL`, `IGNCR` and `IXON`,
    /// `output` that of `OPOST`, `local` those of `ECHO`, `ECHONL`, `ICANON`,
    /// `ISIG` and `IEXTEN`, `control` those of `CSIZE`, `PARENB` and `CS8`,
    /// and `slots` the places of `VMIN` and `VTIME`, each in this order.
    pub fn from_bits(
        input: [u64; 7],
        output: u64,
        local: [u64; 5],
        control: [u64; 3],
        slots: [usize; 2],
    ) -> (flags: Self)
        ensures
            flags == (RawModeFlags {
                ignbrk: input[0],
                brkint: input[1],
                parmrk: input[2],
                istrip: input[3],
                icrnl: input[4],
                igncr: input[5],
                ixon: input[6],
                opost: output,
                echo: local[0],
                echonl: local[1],
                icanon: local[2],
                isig: local[3],
                iexten: local[4],
                csize: control[0],
                parenb: control[1],
                cs8: control[2],
                vmin: slots[0],
                vtime: slots[1],
            }),
    {
        RawModeFlags {
            ignbrk: input[0],
            brkint: input[1],
            parmrk: input[2],
            istrip: input[3],
            icrnl: input[4],
            igncr: input[5],
            ixon: input[6],
            opost: output,
            echo: local[0],
            echonl: local[1],
            icanon: local[2],
            isig: local[3],
            iexten: local[4],
            csize: control[0],
            parenb: control[1],
            cs8: control[2],
            vmin: slots[0],
            vtime: slots[1],
        }
    }
}

/// The attributes of raw mode, made from `attrs`.
pub fn raw_mode(attrs: &TermiosAttrs, flags: &RawModeFlags) -> (raw: TermiosAttrs)
    requires
        flags.vmin < attrs@.control_chars.len(),
        flags.vtime < attrs@.control_chars.len(),
    ensures
        raw@ == raw_attributes(attrs@, *flags),
{
    let mut control_chars = attrs.control_chars.clone();
    control_chars.set(flags.vtime, 0);
    control_chars.set(flags.vmin, 1);
    TermiosAttrs {
        input_flags: attrs.input_flags & !(flags.ignbrk | flags.brkint | flags.parmrk
            | flags.istrip | flags.icrnl | flags.igncr | flags.ixon),
        output_flags: attrs.output_flags & !flags.opost,
        control_flags: (attrs.control_flags & !(flags.csize | flags.parenb)) | flags.cs8,
        local_flags: attrs.local_flags & !(flags.echo | flags.echonl | flags.icanon | flags.isig
            | flags.iexten),
        control_chars,
    }
}

/// Raw mode is a fixed point: to make raw what is raw already changes
/// nothing.
pub proof fn lemma_raw_mode_idempotent(attrs: TermiosView, flags: RawModeFlags)
    requires
        flags.vmin < attrs.control_chars.len(),
        flags.vtime < attrs.control_chars.len(),
    ensures
        raw_attributes(raw_attributes(attrs, flags), flags) == raw_attributes(attrs, flags),
{
    let once = raw_attributes(attrs, flags);
    let twice = raw_attributes(once, flags);
    let i = attrs.input_flags;
    let im = flags.ignbrk | flags.brkint | flags.parmrk | flags.istrip | flags.icrnl | flags.igncr
        | flags.ixon;
    assert((i & !im) & !im == i & !im) by (bit_vector);
    let o = attrs.output_flags;
    let om = flags.opost;
    assert((o & !om) & !om == o & !om) by (bit_vector);
    let l = attrs.local_flags;
    let lm = flags.echo | flags.echonl | flags.icanon | flags.isig | flags.iexten;
    assert((l & !lm) & !lm == l & !lm) by (bit_vector);
    let c = attrs.control_flags;
    let cm = flags.csize | flags.parenb;
    let cs8 = flags.cs8;
    assert(((((c & !cm) | cs8) & !cm) | cs8) == ((c & !cm) | cs8)) by (bit_vector);
    assert(twice.control_chars =~= once.control_chars);
}

} // verus!
