//! The modifier mask of a key event: eight flags with the algebra of sets.

use vstd::prelude::*;

verus! {

/// The modifier and lock keys held during a key event, one bit each:
/// shift 1, alt 2, ctrl 4, super 8, hyper 16, meta 32, caps lock 64,
/// num lock 128.
#[derive(PartialEq, Eq, Structural, Hash, Clone, Copy, Debug)]
pub struct Modifiers(pub u8);

/// Whether bit `n` of `byte` is set, bit 0 being the lowest.
pub open spec fn bit_is_set(byte: u8, n: u8) -> bool {
    (byte >> n) & 1 == 1
}

/// Whether bit `n` of `byte` is set, bit 0 being the lowest.
pub fn check_bit_at(byte: u8, n: u8) -> (set: bool)
    requires
        n <= 7,
    ensures
        set == bit_is_set(byte, n),
{
    let shift: u8 = 7 - n;
    let high: u8 = byte << shift;
    assert((high >> 7u8 == 1) == ((byte >> n) & 1 == 1)) by (bit_vector)
        requires
            n <= 7,
            shift == 7 - n,
            high == byte << shift,
    ;
    high >> 7u8 == 1
}

/// `name` if `present`, and nothing otherwise.
pub open spec fn named_if(present: bool, name: Seq<char>) -> Seq<Seq<char>> {
    if present {
        seq![name]
    } else {
        Seq::empty()
    }
}

/// The names of the flags of a mask, in the order shift, ctrl, alt, super,
/// hyper, meta, caps lock, num lock.
pub open spec fn flag_names(mask: u8) -> Seq<Seq<char>> {
    named_if(bit_is_set(mask, 0), "Shift"@) + named_if(bit_is_set(mask, 2), "Ctrl"@) + named_if(
        bit_is_set(mask, 1),
        "Alt"@,
    ) + named_if(bit_is_set(mask, 3), "Super"@) + named_if(bit_is_set(mask, 4), "Hyper"@)
        + named_if(bit_is_set(mask, 5), "Meta"@) + named_if(bit_is_set(mask, 6), "CapsLock"@)
        + named_if(bit_is_set(mask, 7), "NumLock"@)
}

/// Adds `name` to `names` where `present` holds.
fn push_if(names: &mut Vec<&'static str>, present: bool, name: &'static str)
    ensures
        final(names)@.map_values(|name: &'static str| name@) == old(names)@.map_values(
            |name: &'static str| name@,
        ) + named_if(present, name@),
{
    if present {
        names.push(name);
    }
    assert(names@.map_values(|name: &'static str| name@) =~= old(names)@.map_values(
        |name: &'static str| name@,
    ) + named_if(present, name@));
}

impl Modifiers {
    /// The masks of the single flags.
    pub const NONE: u8 = 0;

    pub const SHIFT: u8 = 1;

    pub const ALT: u8 = 2;

    pub const CTRL: u8 = 4;

    pub const SUPER: u8 = 8;

    pub const HYPER: u8 = 16;

    pub const META: u8 = 32;

    pub const CAPS_LOCK: u8 = 64;

    pub const NUM_LOCK: u8 = 128;

    /// The modifiers whose bits are set in `mods`.
    pub fn new(mods: u8) -> (m: Self)
        ensures
            m == Modifiers(mods),
    {
        Modifiers(mods)
    }

    /// The mask as a number.
    pub fn bits(&self) -> (b: u8)
        ensures
            b == self.0,
    {
        self.0
    }

    /// Whether shift is held.
    pub fn shift_pressed(&self) -> (b: bool)
        ensures
            b == bit_is_set(self.0, 0),
    {
        check_bit_at(self.0, 0)
    }

    /// Whether alt is held.
    pub fn alt_pressed(&self) -> (b: bool)
        ensures
            b == bit_is_set(self.0, 1),
    {
        check_bit_at(self.0, 1)
    }

    /// Whether ctrl is held.
    pub fn ctrl_pressed(&self) -> (b: bool)
        ensures
            b == bit_is_set(self.0, 2),
    {
        check_bit_at(self.0, 2)
    }

    /// Whether super is held.
    pub fn super_pressed(&self) -> (b: bool)
        ensures
            b == bit_is_set(self.0, 3),
    {
        check_bit_at(self.0, 3)
    }

    /// Whether hyper is held.
    pub fn hyper_pressed(&self) -> (b: bool)
        ensures
            b == bit_is_set(self.0, 4),
    {
        check_bit_at(self.0, 4)
    }

    /// Whether meta is held.
    pub fn meta_pressed(&self) -> (b: bool)
        ensures
            b == bit_is_set(self.0, 5),
    {
        check_bit_at(self.0, 5)
    }

    /// Whether caps lock is on.
    pub fn caps_lock_pressed(&self) -> (b: bool)
        ensures
            b == bit_is_set(self.0, 6),
    {
        check_bit_at(self.0, 6)
    }

    /// Whether num lock is on.
    pub fn num_lock_pressed(&self) -> (b: bool)
        ensures
            b == bit_is_set(self.0, 7),
    {
        check_bit_at(self.0, 7)
    }

    /// The names of the flags in the set, in the order shift, ctrl, alt,
    /// super, hyper, meta, caps lock, num lock.
    pub fn names(&self) -> (names: Vec<&'static str>)
        ensures
            names@.map_values(|name: &'static str| name@) == flag_names(self.0),
    {
        let mut names: Vec<&'static str> = Vec::new();
        assert(names@.map_values(|name: &'static str| name@) =~= Seq::<Seq<char>>::empty());
        push_if(&mut names, self.shift_pressed(), "Shift");
        push_if(&mut names, self.ctrl_pressed(), "Ctrl");
        push_if(&mut names, self.alt_pressed(), "Alt");
        push_if(&mut names, self.super_pressed(), "Super");
        push_if(&mut names, self.hyper_pressed(), "Hyper");
        push_if(&mut names, self.meta_pressed(), "Meta");
        push_if(&mut names, self.caps_lock_pressed(), "CapsLock");
        push_if(&mut names, self.num_lock_pressed(), "NumLock");
        assert(names@.map_values(|name: &'static str| name@) =~= flag_names(self.0));
        names
    }

    /// Whether every flag of `other` is in `self`.
    pub fn superset_of(&self, other: Self) -> (b: bool)
        ensures
            b == (self.0 | other.0 == self.0),
            b == (forall|n: u8| n < 8 && bit_is_set(other.0, n) ==> bit_is_set(self.0, n)),
    {
        proof {
            let (a, b) = (self.0, other.0);
            lemma_subset_by_bits(b, a);
            assert(a | b == b | a) by (bit_vector);
        }
        self.0 | other.0 == self.0
    }

    /// Whether every flag of `self` is in `other`.
    pub fn subset_of(&self, other: Self) -> (b: bool)
        ensures
            b == (self.0 | other.0 == other.0),
            b == (forall|n: u8| n < 8 && bit_is_set(self.0, n) ==> bit_is_set(other.0, n)),
    {
        proof {
            lemma_subset_by_bits(self.0, other.0);
        }
        self.0 | other.0 == other.0
    }
}

impl std::ops::BitAnd for Modifiers {
    type Output = Modifiers;

    /// The flags that are in both sets.
    fn bitand(self, rhs: Modifiers) -> (r: Modifiers)
        ensures
            r == Modifiers(self.0 & rhs.0),
    {
        Modifiers(self.0 & rhs.0)
    }
}

impl vstd::std_specs::ops::BitAndSpecImpl for Modifiers {
    open spec fn obeys_bitand_spec() -> bool {
        true
    }

    open spec fn bitand_req(self, rhs: Modifiers) -> bool {
        true
    }

    open spec fn bitand_spec(self, rhs: Modifiers) -> Modifiers {
        Modifiers(self.0 & rhs.0)
    }
}

impl std::ops::BitOr for Modifiers {
    type Output = Modifiers;

    /// The flags that are in either set.
    fn bitor(self, rhs: Modifiers) -> (r: Modifiers)
        ensures
            r == Modifiers(self.0 | rhs.0),
    {
        Modifiers(self.0 | rhs.0)
    }
}

impl vstd::std_specs::ops::BitOrSpecImpl for Modifiers {
    open spec fn obeys_bitor_spec() -> bool {
        true
    }

    open spec fn bitor_req(self, rhs: Modifiers) -> bool {
        true
    }

    open spec fn bitor_spec(self, rhs: Modifiers) -> Modifiers {
        Modifiers(self.0 | rhs.0)
    }
}

impl std::ops::BitXor for Modifiers {
    type Output = Modifiers;

    /// The flags that are in exactly one of the sets.
    fn bitxor(self, rhs: Modifiers) -> (r: Modifiers)
        ensures
            r == Modifiers(self.0 ^ rhs.0),
    {
        Modifiers(self.0 ^ rhs.0)
    }
}

impl vstd::std_specs::ops::BitXorSpecImpl for Modifiers {
    open spec fn obeys_bitxor_spec() -> bool {
        true
    }

    open spec fn bitxor_req(self, rhs: Modifiers) -> bool {
        true
    }

    open spec fn bitxor_spec(self, rhs: Modifiers) -> Modifiers {
        Modifiers(self.0 ^ rhs.0)
    }
}

impl std::ops::Not for Modifiers {
    type Output = Modifiers;

    /// The flags that are not in the set.
    fn not(self) -> (r: Modifiers)
        ensures
            r == Modifiers(!self.0),
    {
        Modifiers(!self.0)
    }
}

impl vstd::std_specs::ops::NotSpecImpl for Modifiers {
    open spec fn obeys_not_spec() -> bool {
        true
    }

    open spec fn not_req(self) -> bool {
        true
    }

    open spec fn not_spec(self) -> Modifiers {
        Modifiers(!self.0)
    }
}

impl std::ops::BitOrAssign for Modifiers {
    fn bitor_assign(&mut self, rhs: Modifiers)
        ensures
            *final(self) == Modifiers(old(self).0 | rhs.0),
    {
        self.0 = self.0 | rhs.0;
    }
}

impl std::ops::BitAndAssign for Modifiers {
    fn bitand_assign(&mut self, rhs: Modifiers)
        ensures
            *final(self) == Modifiers(old(self).0 & rhs.0),
    {
        self.0 = self.0 & rhs.0;
    }
}

impl std::ops::BitXorAssign for Modifiers {
    fn bitxor_assign(&mut self, rhs: Modifiers)
        ensures
            *final(self) == Modifiers(old(self).0 ^ rhs.0),
    {
        self.0 = self.0 ^ rhs.0;
    }
}

impl Default for Modifiers {
    /// The empty set.
    fn default() -> (m: Self)
        ensures
            m == Modifiers(0),
    {
        Modifiers(0)
    }
}

/// Union, intersection, symmetric difference and complement of two masks
/// act on each flag as `or`, `and`, `xor` and `not` act on booleans.
pub proof fn lemma_set_algebra_by_bits(a: u8, b: u8, n: u8)
    requires
        n < 8,
    ensures
        bit_is_set(a | b, n) == (bit_is_set(a, n) || bit_is_set(b, n)),
        bit_is_set(a & b, n) == (bit_is_set(a, n) && bit_is_set(b, n)),
        bit_is_set(a ^ b, n) == (bit_is_set(a, n) != bit_is_set(b, n)),
        bit_is_set(!a, n) == !bit_is_set(a, n),
{
    assert((((a | b) >> n) & 1 == 1) == ((a >> n) & 1 == 1 || (b >> n) & 1 == 1)) by (bit_vector)
        requires
            n < 8,
    ;
    assert((((a & b) >> n) & 1 == 1) == ((a >> n) & 1 == 1 && (b >> n) & 1 == 1)) by (bit_vector)
        requires
            n < 8,
    ;
    assert((((a ^ b) >> n) & 1 == 1) == (((a >> n) & 1 == 1) != ((b >> n) & 1 == 1)))
        by (bit_vector)
        requires
            n < 8,
    ;
    assert((((!a) >> n) & 1 == 1) == !((a >> n) & 1 == 1)) by (bit_vector)
        requires
            n < 8,
    ;
}

/// Two masks with the same flags are the same mask.
pub proof fn lemma_mask_by_bits(a: u8, b: u8)
    requires
        forall|n: u8| n < 8 ==> bit_is_set(a, n) == bit_is_set(b, n),
    ensures
        a == b,
{
    lemma_subset_by_bits(a, b);
    lemma_subset_by_bits(b, a);
    assert(a == b) by (bit_vector)
        requires
            a | b == b,
            b | a == a,
    ;
}

/// `a | b == b` says that every bit of `a` is a bit of `b`.
pub proof fn lemma_subset_by_bits(a: u8, b: u8)
    ensures
        (a | b == b) == (forall|n: u8| n < 8 && bit_is_set(a, n) ==> bit_is_set(b, n)),
{
    if a | b == b {
        assert forall|n: u8| n < 8 && bit_is_set(a, n) implies bit_is_set(b, n) by {
            assert((a >> n) & 1 == 1 ==> (b >> n) & 1 == 1) by (bit_vector)
                requires
                    a | b == b,
                    n < 8,
            ;
        }
    }
    if forall|n: u8| n < 8 && bit_is_set(a, n) ==> bit_is_set(b, n) {
        assert(bit_is_set(a, 0) ==> bit_is_set(b, 0));
        assert(bit_is_set(a, 1) ==> bit_is_set(b, 1));
        assert(bit_is_set(a, 2) ==> bit_is_set(b, 2));
        assert(bit_is_set(a, 3) ==> bit_is_set(b, 3));
        assert(bit_is_set(a, 4) ==> bit_is_set(b, 4));
        assert(bit_is_set(a, 5) ==> bit_is_set(b, 5));
        assert(bit_is_set(a, 6) ==> bit_is_set(b, 6));
        assert(bit_is_set(a, 7) ==> bit_is_set(b, 7));
        assert(a | b == b) by (bit_vector)
            requires
                (a >> 0u8) & 1 == 1 ==> (b >> 0u8) & 1 == 1,
                (a >> 1u8) & 1 == 1 ==> (b >> 1u8) & 1 == 1,
                (a >> 2u8) & 1 == 1 ==> (b >> 2u8) & 1 == 1,
                (a >> 3u8) & 1 == 1 ==> (b >> 3u8) & 1 == 1,
                (a >> 4u8) & 1 == 1 ==> (b >> 4u8) & 1 == 1,
                (a >> 5u8) & 1 == 1 ==> (b >> 5u8) & 1 == 1,
                (a >> 6u8) & 1 == 1 ==> (b >> 6u8) & 1 == 1,
                (a >> 7u8) & 1 == 1 ==> (b >> 7u8) & 1 == 1,
        ;
    }
}

} // verus!
