//! Control Sequence Introducer commands: their wire form, the table that
//! binds them to key codes and the modifiers that their parameters carry.

use crate::input::modifiers::Modifiers;
use vstd::prelude::*;

verus! {

/// A parsed CSI command: parameter bytes (0x30 to 0x3F), intermediate bytes
/// (0x20 to 0x2F) and the final byte (0x40 to 0x7E).
#[derive(Clone, PartialEq, Eq, Debug)]
pub struct CSICommand {
    pub parameter_bytes: Vec<u8>,
    pub intermediate_bytes: Vec<u8>,
    pub final_byte: u8,
}

/// The value of a [`CSICommand`].
pub struct CsiView {
    pub parameter_bytes: Seq<u8>,
    pub intermediate_bytes: Seq<u8>,
    pub final_byte: u8,
}

impl View for CSICommand {
    type V = CsiView;

    open spec fn view(&self) -> CsiView {
        CsiView {
            parameter_bytes: self.parameter_bytes@,
            intermediate_bytes: self.intermediate_bytes@,
            final_byte: self.final_byte,
        }
    }
}

pub open spec fn is_parameter_byte(b: u8) -> bool {
    0x30 <= b <= 0x3F
}

pub open spec fn is_intermediate_byte(b: u8) -> bool {
    0x20 <= b <= 0x2F
}

pub open spec fn is_final_byte(b: u8) -> bool {
    0x40 <= b <= 0x7E
}

/// Whether `s` begins with `ESC [`.
pub open spec fn has_csi_prefix(s: Seq<u8>) -> bool {
    s.len() >= 2 && s[0] == 0x1B && s[1] == 0x5B
}

/// Where the run of bytes between `lo` and `hi` that starts at `from` ends.
pub open spec fn run_end(s: Seq<u8>, from: int, lo: u8, hi: u8) -> int
    decreases s.len() - from,
{
    if 0 <= from < s.len() && lo <= s[from] <= hi {
        run_end(s, from + 1, lo, hi)
    } else {
        from
    }
}

/// The CSI command at the head of `s`, with the number of bytes it takes up.
/// A leading `ESC [` is skipped and counted. Then come the parameter bytes,
/// the intermediate bytes and one final byte; anything else in their place,
/// or the end of `s`, leaves no command.
pub open spec fn parse_csi(s: Seq<u8>) -> Option<(CsiView, int)> {
    let start: int = if has_csi_prefix(s) {
        2
    } else {
        0
    };
    let p = run_end(s, start, 0x30, 0x3F);
    let q = run_end(s, p, 0x20, 0x2F);
    if q < s.len() && is_final_byte(s[q]) {
        Some(
            (
                CsiView {
                    parameter_bytes: s.subrange(start, p),
                    intermediate_bytes: s.subrange(p, q),
                    final_byte: s[q],
                },
                q + 1,
            ),
        )
    } else {
        None
    }
}

/// A run ends at or after its start, within the sequence, at the first byte
/// out of range.
pub proof fn lemma_run_end(s: Seq<u8>, from: int, lo: u8, hi: u8)
    requires
        0 <= from <= s.len(),
    ensures
        from <= run_end(s, from, lo, hi) <= s.len(),
        forall|k: int| from <= k < run_end(s, from, lo, hi) ==> lo <= #[trigger] s[k] <= hi,
        run_end(s, from, lo, hi) < s.len() ==> !(lo <= s[run_end(s, from, lo, hi)] <= hi),
    decreases s.len() - from,
{
    if from < s.len() && lo <= s[from] <= hi {
        lemma_run_end(s, from + 1, lo, hi);
    }
}

/// A run ends where a byte out of range stands behind bytes in range.
pub proof fn lemma_run_end_is(s: Seq<u8>, from: int, end: int, lo: u8, hi: u8)
    requires
        0 <= from <= end <= s.len(),
        forall|k: int| from <= k < end ==> lo <= #[trigger] s[k] <= hi,
        end < s.len() ==> !(lo <= s[end] <= hi),
    ensures
        run_end(s, from, lo, hi) == end,
    decreases end - from,
{
    if from < end {
        lemma_run_end_is(s, from + 1, end, lo, hi);
    }
}

/// The grammar of a command: behind the optional `ESC [` stand parameter
/// bytes up to `p`, intermediate bytes up to `q` and a final byte at `q`.
/// Whatever has this shape is read as the command of these parts, and uses
/// up the bytes up to and with the final byte.
pub proof fn lemma_parse_csi_shape(s: Seq<u8>, p: int, q: int)
    requires
        (if has_csi_prefix(s) {
            2int
        } else {
            0int
        }) <= p <= q < s.len(),
        forall|k: int|
            (if has_csi_prefix(s) {
                2int
            } else {
                0int
            }) <= k < p ==> is_parameter_byte(#[trigger] s[k]),
        forall|k: int| p <= k < q ==> is_intermediate_byte(#[trigger] s[k]),
        is_final_byte(s[q]),
    ensures
        parse_csi(s) == Some(
            (
                CsiView {
                    parameter_bytes: s.subrange(
                        if has_csi_prefix(s) {
                            2int
                        } else {
                            0int
                        },
                        p,
                    ),
                    intermediate_bytes: s.subrange(p, q),
                    final_byte: s[q],
                },
                q + 1,
            ),
        ),
{
    let start: int = if has_csi_prefix(s) {
        2
    } else {
        0
    };
    lemma_run_end_is(s, start, p, 0x30, 0x3F);
    lemma_run_end_is(s, p, q, 0x20, 0x2F);
}

/// What has no such shape is no command: where a command is read, the bytes
/// before its final byte are parameter bytes followed by intermediate bytes.
pub proof fn lemma_parse_csi_only_shape(s: Seq<u8>)
    requires
        parse_csi(s).is_some(),
    ensures
        ({
            let start: int = if has_csi_prefix(s) {
                2
            } else {
                0
            };
            let (csi, consumed) = parse_csi(s).unwrap();
            let p = start + csi.parameter_bytes.len();
            let q = consumed - 1;
            &&& start <= p <= q < s.len()
            &&& q == p + csi.intermediate_bytes.len()
            &&& forall|k: int| start <= k < p ==> is_parameter_byte(#[trigger] s[k])
            &&& forall|k: int| p <= k < q ==> is_intermediate_byte(#[trigger] s[k])
            &&& is_final_byte(s[q])
            &&& csi.final_byte == s[q]
        }),
{
    let start: int = if has_csi_prefix(s) {
        2
    } else {
        0
    };
    lemma_run_end(s, start, 0x30, 0x3F);
    lemma_run_end(s, run_end(s, start, 0x30, 0x3F), 0x20, 0x2F);
}

/// A command takes up at least one byte and no more than there are.
pub proof fn lemma_parse_csi_length(s: Seq<u8>)
    ensures
        parse_csi(s) matches Some(c) ==> 1 <= c.1 <= s.len(),
{
    let start: int = if has_csi_prefix(s) {
        2
    } else {
        0
    };
    lemma_run_end(s, start, 0x30, 0x3F);
    lemma_run_end(s, run_end(s, start, 0x30, 0x3F), 0x20, 0x2F);
}

/// Where the semicolon-separated segment that starts at `from` ends: at the
/// next semicolon, or at the end of `s`.
pub open spec fn segment_end(s: Seq<u8>, from: int) -> int
    decreases s.len() - from,
{
    if 0 <= from < s.len() && s[from] != 0x3B {
        segment_end(s, from + 1)
    } else {
        from
    }
}

/// The bytes of `s` before its first semicolon.
pub open spec fn first_segment(s: Seq<u8>) -> Seq<u8> {
    s.subrange(0, segment_end(s, 0))
}

/// The bytes of `s` between its first and its second semicolon, if it has a
/// first one.
pub open spec fn second_segment(s: Seq<u8>) -> Option<Seq<u8>> {
    let first = segment_end(s, 0);
    if first < s.len() {
        Some(s.subrange(first + 1, segment_end(s, first + 1)))
    } else {
        None
    }
}

pub proof fn lemma_segment_end(s: Seq<u8>, from: int)
    requires
        0 <= from <= s.len(),
    ensures
        from <= segment_end(s, from) <= s.len(),
        forall|k: int| from <= k < segment_end(s, from) ==> #[trigger] s[k] != 0x3B,
        segment_end(s, from) < s.len() ==> s[segment_end(s, from)] == 0x3B,
    decreases s.len() - from,
{
    if from < s.len() && s[from] != 0x3B {
        lemma_segment_end(s, from + 1);
    }
}

/// Whether an incoming command is the key that `bound` stands for. A final
/// byte from `A` to `Z` decides alone. With the final byte `~` the first
/// parameter segment must be the parameter bytes of `bound`. No other final
/// byte is a key.
pub open spec fn csi_matches(incoming: CsiView, bound: CsiView) -> bool {
    if 0x41 <= incoming.final_byte <= 0x5A {
        incoming.final_byte == bound.final_byte
    } else if incoming.final_byte == 0x7E {
        bound.final_byte == 0x7E && first_segment(incoming.parameter_bytes)
            == bound.parameter_bytes
    } else {
        false
    }
}

/// The index of the first binding from `from` on that `csi` matches, or the
/// length of the table.
pub open spec fn first_hit(bindings: Seq<(CsiView, u32)>, csi: CsiView, from: int) -> int
    decreases bindings.len() - from,
{
    if 0 <= from < bindings.len() && !csi_matches(csi, bindings[from].0) {
        first_hit(bindings, csi, from + 1)
    } else {
        from
    }
}

/// The key code of the first binding that `csi` matches.
pub open spec fn matched_code(bindings: Seq<(CsiView, u32)>, csi: CsiView) -> Option<u32> {
    let i = first_hit(bindings, csi, 0);
    if i < bindings.len() {
        Some(bindings[i].1)
    } else {
        None
    }
}

/// The first hit wins: no binding before it matches.
pub proof fn lemma_first_hit(bindings: Seq<(CsiView, u32)>, csi: CsiView, from: int)
    requires
        0 <= from <= bindings.len(),
    ensures
        from <= first_hit(bindings, csi, from) <= bindings.len(),
        forall|k: int|
            from <= k < first_hit(bindings, csi, from) ==> !csi_matches(
                csi,
                (#[trigger] bindings[k]).0,
            ),
        first_hit(bindings, csi, from) < bindings.len() ==> csi_matches(
            csi,
            bindings[first_hit(bindings, csi, from)].0,
        ),
    decreases bindings.len() - from,
{
    if from < bindings.len() && !csi_matches(csi, bindings[from].0) {
        lemma_first_hit(bindings, csi, from + 1);
    }
}

/// The index of the first binding from `from` on whose key code is `code`,
/// or the length of the table.
pub open spec fn first_with_code(bindings: Seq<(CsiView, u32)>, code: u32, from: int) -> int
    decreases bindings.len() - from,
{
    if 0 <= from < bindings.len() && bindings[from].1 != code {
        first_with_code(bindings, code, from + 1)
    } else {
        from
    }
}

/// The number that a sequence of ASCII digits spells in base ten.
pub open spec fn decimal_value(digits: Seq<u8>) -> int
    decreases digits.len(),
{
    if digits.len() == 0 {
        0
    } else {
        decimal_value(digits.drop_last()) * 10 + (digits.last() - 0x30)
    }
}

pub open spec fn all_digits(s: Seq<u8>) -> bool {
    forall|k: int| 0 <= k < s.len() ==> 0x30 <= #[trigger] s[k] <= 0x39
}

/// The modifiers that a key's command carries. Behind a final byte from `A`
/// to `Z`, or `~`, a second parameter segment of one to three digits that
/// spell `n` stands for the mask `n - 1`, taken as eight bits. Everything
/// else carries no modifiers.
pub open spec fn csi_modifiers(csi: CsiView) -> Modifiers {
    if 0x41 <= csi.final_byte <= 0x5A || csi.final_byte == 0x7E {
        match second_segment(csi.parameter_bytes) {
            Some(digits) => if 1 <= digits.len() <= 3 && all_digits(digits) {
                Modifiers(((decimal_value(digits) - 1) % 256) as u8)
            } else {
                Modifiers(0)
            },
            None => Modifiers(0),
        }
    } else {
        Modifiers(0)
    }
}

impl CSICommand {
    pub fn get_parameter(&self) -> (bytes: &[u8])
        ensures
            bytes@ == self@.parameter_bytes,
    {
        self.parameter_bytes.as_slice()
    }

    pub fn get_intermediate(&self) -> (bytes: &[u8])
        ensures
            bytes@ == self@.intermediate_bytes,
    {
        self.intermediate_bytes.as_slice()
    }

    pub fn get_final(&self) -> (b: u8)
        ensures
            b == self@.final_byte,
    {
        self.final_byte
    }

    /// Reads the command at the head of `bytes`, with or without a leading
    /// `ESC [`, and says how many bytes it takes up.
    pub fn parse(bytes: &[u8]) -> (r: Option<(CSICommand, usize)>)
        ensures
            match r {
                Some((command, consumed)) => parse_csi(bytes@) == Some(
                    (command@, consumed as int),
                ),
                None => parse_csi(bytes@).is_none(),
            },
    {
        let len = bytes.len();
        let start: usize = if len >= 2 && bytes[0] == 0x1B && bytes[1] == 0x5B {
            2
        } else {
            0
        };
        let mut parameter_bytes: Vec<u8> = Vec::new();
        let mut p: usize = start;
        while p < len && 0x30 <= bytes[p] && bytes[p] <= 0x3F
            invariant
                start <= p <= len,
                len == bytes@.len(),
                parameter_bytes@ == bytes@.subrange(start as int, p as int),
                run_end(bytes@, p as int, 0x30, 0x3F) == run_end(bytes@, start as int, 0x30, 0x3F),
            decreases len - p,
        {
            parameter_bytes.push(bytes[p]);
            p += 1;
            assert(parameter_bytes@ =~= bytes@.subrange(start as int, p as int));
        }
        let mut intermediate_bytes: Vec<u8> = Vec::new();
        let mut q: usize = p;
        while q < len && 0x20 <= bytes[q] && bytes[q] <= 0x2F
            invariant
                p <= q <= len,
                len == bytes@.len(),
                intermediate_bytes@ == bytes@.subrange(p as int, q as int),
                run_end(bytes@, q as int, 0x20, 0x2F) == run_end(bytes@, p as int, 0x20, 0x2F),
            decreases len - q,
        {
            intermediate_bytes.push(bytes[q]);
            q += 1;
            assert(intermediate_bytes@ =~= bytes@.subrange(p as int, q as int));
        }
        if q < len && 0x40 <= bytes[q] && bytes[q] <= 0x7E {
            Some((CSICommand { parameter_bytes, intermediate_bytes, final_byte: bytes[q] }, q + 1))
        } else {
            None
        }
    }

    /// Whether this incoming command is the key that `bound` stands for.
    #[verifier::loop_isolation(false)]
    pub fn matches(&self, bound: &CSICommand) -> (b: bool)
        ensures
            b == csi_matches(self@, bound@),
    {
        if 0x41 <= self.final_byte && self.final_byte <= 0x5A {
            self.final_byte == bound.final_byte
        } else if self.final_byte == 0x7E {
            if bound.final_byte != 0x7E {
                return false;
            }
            let end = segment_end_from(&self.parameter_bytes, 0);
            if end != bound.parameter_bytes.len() {
                return false;
            }
            let mut k: usize = 0;
            while k < end
                invariant
                    k <= end,
                    end == bound.parameter_bytes@.len(),
                    end <= self.parameter_bytes@.len(),
                    end == segment_end(self.parameter_bytes@, 0),
                    forall|j: int|
                        0 <= j < k ==> self.parameter_bytes@[j] == bound.parameter_bytes@[j],
                decreases end - k,
            {
                if self.parameter_bytes[k] != bound.parameter_bytes[k] {
                    assert(first_segment(self@.parameter_bytes)[k as int]
                        != bound@.parameter_bytes[k as int]);
                    return false;
                }
                k += 1;
            }
            assert(first_segment(self@.parameter_bytes) =~= bound@.parameter_bytes);
            true
        } else {
            false
        }
    }

    /// The modifiers that the parameters of this command carry.
    #[verifier::loop_isolation(false)]
    pub fn modifiers(&self) -> (m: Modifiers)
        ensures
            m == csi_modifiers(self@),
    {
        if !((0x41 <= self.final_byte && self.final_byte <= 0x5A) || self.final_byte == 0x7E) {
            return Modifiers(0);
        }
        let len = self.parameter_bytes.len();
        let first = segment_end_from(&self.parameter_bytes, 0);
        if first >= len {
            return Modifiers(0);
        }
        let from = first + 1;
        let end = segment_end_from(&self.parameter_bytes, from);
        let ghost digits = self.parameter_bytes@.subrange(from as int, end as int);
        if end - from < 1 || end - from > 3 {
            return Modifiers(0);
        }
        let mut n: u32 = 0;
        let mut k: usize = from;
        while k < end
            invariant
                from <= k <= end <= len,
                len == self.parameter_bytes@.len(),
                end - from <= 3,
                digits == self.parameter_bytes@.subrange(from as int, end as int),
                forall|j: int| 0 <= j < k - from ==> 0x30 <= #[trigger] digits[j] <= 0x39,
                n == decimal_value(digits.subrange(0, k - from)),
                n < pow10(k - from),
            decreases end - k,
        {
            let d = self.parameter_bytes[k];
            assert(digits[k - from] == d);
            if d < 0x30 || d > 0x39 {
                return Modifiers(0);
            }
            proof {
                let next = digits.subrange(0, k - from + 1);
                assert(next.drop_last() =~= digits.subrange(0, k - from));
                assert(next.last() == d);
                assert(decimal_value(next) == decimal_value(next.drop_last()) * 10 + (d - 0x30));
            }
            n = n * 10 + (d - 0x30) as u32;
            k += 1;
        }
        assert(digits.subrange(0, end - from) =~= digits);
        assert(all_digits(digits));
        Modifiers(((n + 255) % 256) as u8)
    }
}

/// Ten to the power of `n`, for the few digits that a modifier takes.
pub open spec fn pow10(n: int) -> int {
    if n <= 0 {
        1
    } else if n == 1 {
        10
    } else if n == 2 {
        100
    } else {
        1000
    }
}

/// Finds the end of the segment of `bytes` that starts at `from`.
fn segment_end_from(bytes: &Vec<u8>, from: usize) -> (end: usize)
    requires
        from <= bytes@.len(),
    ensures
        end == segment_end(bytes@, from as int),
        from <= end <= bytes@.len(),
{
    let mut end: usize = from;
    while end < bytes.len() && bytes[end] != 0x3B
        invariant
            from <= end <= bytes@.len(),
            segment_end(bytes@, end as int) == segment_end(bytes@, from as int),
        decreases bytes@.len() - end,
    {
        end += 1;
    }
    end
}

/// The binding table of the decoder: commands with the key codes they stand
/// for, in the order in which they were added.
#[derive(Debug)]
pub struct CSIList {
    data: Vec<(CSICommand, u32)>,
}

impl View for CSIList {
    type V = Seq<(CsiView, u32)>;

    closed spec fn view(&self) -> Seq<(CsiView, u32)> {
        Seq::new(self.data@.len(), |i: int| (self.data@[i].0@, self.data@[i].1))
    }
}

impl Default for CSIList {
    fn default() -> (list: Self)
        ensures
            list@ == Seq::<(CsiView, u32)>::empty(),
    {
        CSIList::new()
    }
}

impl CSIList {
    /// An empty table.
    pub fn new() -> (list: Self)
        ensures
            list@ == Seq::<(CsiView, u32)>::empty(),
    {
        let list = Self { data: Vec::new() };
        assert(list@ =~= Seq::<(CsiView, u32)>::empty());
        list
    }

    /// Adds a binding behind those that are there.
    pub fn push(&mut self, csi: CSICommand, codepoint: u32)
        ensures
            final(self)@ == old(self)@.push((csi@, codepoint)),
    {
        self.data.push((csi, codepoint));
        assert(self@ =~= old(self)@.push((csi@, codepoint)));
    }

    /// The number of bindings.
    pub fn len(&self) -> (n: usize)
        ensures
            n == self@.len(),
    {
        self.data.len()
    }

    /// The command of the first binding whose key code is `codepoint`.
    pub fn find_by_codepoint(&self, codepoint: u32) -> (r: Option<&CSICommand>)
        ensures
            match r {
                Some(command) => {
                    &&& first_with_code(self@, codepoint, 0) < self@.len()
                    &&& command@ == self@[first_with_code(self@, codepoint, 0)].0
                },
                None => first_with_code(self@, codepoint, 0) >= self@.len(),
            },
    {
        let mut i: usize = 0;
        while i < self.data.len()
            invariant
                i <= self.data@.len(),
                self@.len() == self.data@.len(),
                first_with_code(self@, codepoint, i as int) == first_with_code(self@, codepoint, 0),
            decreases self.data@.len() - i,
        {
            if self.data[i].1 == codepoint {
                return Some(&self.data[i].0);
            }
            i += 1;
        }
        None
    }

    /// The key code of the first binding that `csi` matches.
    pub fn match_csi(&self, csi: &CSICommand) -> (r: Option<u32>)
        ensures
            r == matched_code(self@, csi@),
    {
        let mut i: usize = 0;
        while i < self.data.len()
            invariant
                i <= self.data@.len(),
                self@.len() == self.data@.len(),
                first_hit(self@, csi@, i as int) == first_hit(self@, csi@, 0),
            decreases self.data@.len() - i,
        {
            if csi.matches(&self.data[i].0) {
                return Some(self.data[i].1);
            }
            i += 1;
        }
        None
    }
}

} // verus!
