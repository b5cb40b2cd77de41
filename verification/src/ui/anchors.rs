//! Anchors and rectangles: positions given relative to the corners of
//! rectangles, which are pairs of anchors, resolved against the viewport.

use crate::arena::{ArenaAlloc, ArenaHandle, ArenaItem};
use crate::tty::Winsize;
use vstd::arithmetic::div_mod::{
    lemma_div_is_ordered, lemma_div_multiples_vanish, lemma_div_pos_is_pos,
};
use vstd::arithmetic::mul::{
    lemma_mul_inequality, lemma_mul_is_commutative, lemma_mul_nonnegative,
};
use vstd::prelude::*;

verus! {

/// A fraction from zero to one.
#[derive(Clone, Copy, Debug)]
pub struct Fraction {
    numer: u32,
    denom: u32,
}

impl Fraction {
    #[verifier::type_invariant]
    spec fn valid(self) -> bool {
        0 < self.denom && self.numer <= self.denom
    }

    pub closed spec fn numerator(self) -> int {
        self.numer as int
    }

    pub closed spec fn denominator(self) -> int {
        self.denom as int
    }

    /// The fraction `numer / denom`, if that is a number from zero to one.
    pub fn new(numer: u32, denom: u32) -> (r: Option<Fraction>)
        ensures
            r is Some <==> 0 < denom && numer <= denom,
            r matches Some(f) ==> f.numerator() == numer && f.denominator() == denom,
    {
        if 0 < denom && numer <= denom {
            Some(Fraction { numer, denom })
        } else {
            None
        }
    }

    /// The numerator and the denominator.
    pub fn parts(self) -> (r: (u32, u32))
        ensures
            r.0 == self.numerator(),
            r.1 == self.denominator(),
            0 < r.1,
            r.0 <= r.1,
    {
        proof {
            use_type_invariant(&self);
        }
        (self.numer, self.denom)
    }
}

/// A distance along one axis: a number of cells, or a share of the extent of
/// the reference rectangle.
#[derive(Clone, Copy, Debug)]
pub enum Offset {
    Absolute(isize),
    Relative(Fraction),
}

/// A position given by one offset for each axis, each measured from the
/// upper-left or from the down-right corner of a reference rectangle.
#[derive(Clone, Copy, Debug)]
pub struct Anchor {
    pub col_offset: Offset,
    pub from_right: bool,
    pub row_offset: Offset,
    pub from_down: bool,
}

impl Anchor {
    pub fn new(col_offset: Offset, from_right: bool, row_offset: Offset, from_down: bool) -> (a:
        Self)
        ensures
            a == (Anchor { col_offset, from_right, row_offset, from_down }),
    {
        Self { col_offset, from_right, row_offset, from_down }
    }

    /// `col` cells right of and `row` cells below the upper-left corner.
    pub fn new_abs_from_upper_left(col: isize, row: isize) -> (a: Self)
        ensures
            a == (Anchor {
                col_offset: Offset::Absolute(col),
                from_right: false,
                row_offset: Offset::Absolute(row),
                from_down: false,
            }),
    {
        Self {
            col_offset: Offset::Absolute(col),
            from_right: false,
            row_offset: Offset::Absolute(row),
            from_down: false,
        }
    }

    /// `col` cells left of and `row` cells above the down-right corner.
    pub fn new_abs_from_down_right(col: isize, row: isize) -> (a: Self)
        ensures
            a == (Anchor {
                col_offset: Offset::Absolute(col),
                from_right: true,
                row_offset: Offset::Absolute(row),
                from_down: true,
            }),
    {
        Self {
            col_offset: Offset::Absolute(col),
            from_right: true,
            row_offset: Offset::Absolute(row),
            from_down: true,
        }
    }

    /// The shares `col` and `row` of the extent away from the down-right
    /// corner.
    pub fn new_rel_from_down_right(col: Fraction, row: Fraction) -> (a: Self)
        ensures
            a == (Anchor {
                col_offset: Offset::Relative(col),
                from_right: true,
                row_offset: Offset::Relative(row),
                from_down: true,
            }),
    {
        Self {
            col_offset: Offset::Relative(col),
            from_right: true,
            row_offset: Offset::Relative(row),
            from_down: true,
        }
    }

    /// The shares `col` and `row` of the extent away from the upper-left
    /// corner.
    pub fn new_rel_from_upper_left(col: Fraction, row: Fraction) -> (a: Self)
        ensures
            a == (Anchor {
                col_offset: Offset::Relative(col),
                from_right: false,
                row_offset: Offset::Relative(row),
                from_down: false,
            }),
    {
        Self {
            col_offset: Offset::Relative(col),
            from_right: false,
            row_offset: Offset::Relative(row),
            from_down: false,
        }
    }
}

/// A cell of the screen.
#[derive(PartialEq, Eq, Structural, Clone, Copy, Debug)]
pub struct Cords {
    pub col: usize,
    pub row: usize,
}

impl Cords {
    pub fn new(col: usize, row: usize) -> (c: Self)
        ensures
            c == (Cords { col, row }),
    {
        Self { col, row }
    }

    /// The upper-left cell of the screen.
    pub fn zero() -> (c: Self)
        ensures
            c == (Cords { col: 0, row: 0 }),
    {
        Self { col: 0, row: 0 }
    }
}

impl From<(usize, usize)> for Cords {
    fn from(value: (usize, usize)) -> (c: Cords) {
        Cords { col: value.0, row: value.1 }
    }
}

impl vstd::std_specs::convert::FromSpecImpl<(usize, usize)> for Cords {
    open spec fn obeys_from_spec() -> bool {
        true
    }

    open spec fn from_spec(value: (usize, usize)) -> Cords {
        Cords { col: value.0, row: value.1 }
    }
}

/// A rectangle of cells, given by two of its corners.
#[derive(PartialEq, Eq, Structural, Clone, Copy, Debug)]
pub struct Rect {
    pub upper_left: Cords,
    pub down_right: Cords,
}

impl Rect {
    pub fn new(upper_left: Cords, down_right: Cords) -> (r: Self)
        ensures
            r == (Rect { upper_left, down_right }),
    {
        Self { upper_left, down_right }
    }

    /// The viewport of a window of the given size: from the origin to the
    /// cell in the last column of the last row.
    pub fn from_winsize(size: Winsize) -> (r: Self)
        requires
            size.col >= 1,
            size.row >= 1,
        ensures
            r == (Rect {
                upper_left: Cords { col: 0, row: 0 },
                down_right: Cords { col: (size.col - 1) as usize, row: (size.row - 1) as usize },
            }),
    {
        Self {
            upper_left: Cords { col: 0, row: 0 },
            down_right: Cords { col: (size.col - 1) as usize, row: (size.row - 1) as usize },
        }
    }
}

/// The handle under which the arena keeps an anchor.
pub type AnchorArenaHandle = ArenaHandle<(Anchor, Option<RectHandle>)>;

/// A rectangle: the handles of the anchors at its upper-left and down-right
/// corners.
#[derive(Clone, Copy, Debug)]
pub struct RectHandle {
    pub upper_left: AnchorArenaHandle,
    pub down_right: AnchorArenaHandle,
}

impl RectHandle {
    pub fn new(upper_left: &AnchorArenaHandle, down_right: &AnchorArenaHandle) -> (r: Self)
        ensures
            r.upper_left == *upper_left,
            r.down_right == *down_right,
    {
        Self { upper_left: *upper_left, down_right: *down_right }
    }
}

/// The handle of an anchor.
#[derive(Clone, Copy, Debug)]
pub struct AnchorHandle(pub AnchorArenaHandle);

impl AnchorHandle {
    pub fn new(handle: AnchorArenaHandle) -> (h: Self)
        ensures
            h.0 == handle,
    {
        Self(handle)
    }
}

impl From<AnchorArenaHandle> for AnchorHandle {
    fn from(val: AnchorArenaHandle) -> (h: AnchorHandle) {
        AnchorHandle(val)
    }
}

impl vstd::std_specs::convert::FromSpecImpl<AnchorArenaHandle> for AnchorHandle {
    open spec fn obeys_from_spec() -> bool {
        true
    }

    open spec fn from_spec(val: AnchorArenaHandle) -> AnchorHandle {
        AnchorHandle(val)
    }
}

/// `x`, or the nearer end of the range from `lo` to `hi` where `x` lies
/// outside.
pub open spec fn clamped(x: int, lo: int, hi: int) -> int {
    if x < lo {
        lo
    } else if x > hi {
        hi
    } else {
        x
    }
}

/// The coordinate that an offset gives along one axis of a reference
/// rectangle from `min` to `max`, on a screen whose last cell along that
/// axis is `limit`.
///
/// An absolute offset `k` lies `k` cells after `min` or, measured from the
/// far side, `k` cells before `max`. A relative offset `f` lies at the share
/// `f` of the way from `min` to `max` or, measured from the far side, at the
/// share `1 - f`, rounded down to a whole cell; a rectangle whose `max` lies
/// before its `min` has no extent. The result is kept within the screen.
pub open spec fn resolve_axis(
    offset: Offset,
    from_far: bool,
    min: int,
    max: int,
    limit: int,
) -> int {
    let raw = match offset {
        Offset::Absolute(k) => if from_far {
            max - k
        } else {
            min + k
        },
        Offset::Relative(f) => {
            let extent = if max >= min {
                max - min
            } else {
                0
            };
            let share = if from_far {
                f.denominator() - f.numerator()
            } else {
                f.numerator()
            };
            min + (share * extent) / f.denominator()
        },
    };
    clamped(raw, 0, limit)
}

/// Whether the anchor stored in slot `i` refers only to anchors stored
/// before it.
pub open spec fn parent_before(
    slots: Seq<ArenaItem<(Anchor, Option<RectHandle>)>>,
    i: int,
) -> bool {
    match slots[i].inner.1 {
        Some(rect) => {
            &&& rect.upper_left.index < i
            &&& rect.upper_left.generation == 0
            &&& rect.down_right.index < i
            &&& rect.down_right.generation == 0
        },
        None => true,
    }
}

/// The cell of the anchor stored in slot `i`: its offsets applied to its
/// reference rectangle, which is the viewport for an anchor without a parent
/// and the rectangle between the cells of the parent's two corner anchors
/// otherwise.
pub open spec fn resolve(
    slots: Seq<ArenaItem<(Anchor, Option<RectHandle>)>>,
    viewport: Rect,
    i: int,
) -> Cords
    decreases i,
{
    let anchor = slots[i].inner.0;
    let reference = match slots[i].inner.1 {
        Some(rect) => if 0 <= rect.upper_left.index < i && 0 <= rect.down_right.index < i {
            Rect {
                upper_left: resolve(slots, viewport, rect.upper_left.index as int),
                down_right: resolve(slots, viewport, rect.down_right.index as int),
            }
        } else {
            viewport
        },
        None => viewport,
    };
    Cords {
        col: resolve_axis(
            anchor.col_offset,
            anchor.from_right,
            reference.upper_left.col as int,
            reference.down_right.col as int,
            viewport.down_right.col as int,
        ) as usize,
        row: resolve_axis(
            anchor.row_offset,
            anchor.from_down,
            reference.upper_left.row as int,
            reference.down_right.row as int,
            viewport.down_right.row as int,
        ) as usize,
    }
}

/// The cell of an anchor depends on nothing but the viewport, the anchor
/// itself and the anchors stored before it: two engines that agree up to
/// slot `i` give the anchor of slot `i` the same cell. So an anchor stays
/// where it is when other anchors are added.
pub proof fn lemma_resolve_depends_on_prefix(
    first: Seq<ArenaItem<(Anchor, Option<RectHandle>)>>,
    second: Seq<ArenaItem<(Anchor, Option<RectHandle>)>>,
    viewport: Rect,
    i: int,
)
    requires
        0 <= i < first.len(),
        i < second.len(),
        forall|j: int| 0 <= j <= i ==> first[j] == second[j],
    ensures
        resolve(first, viewport, i) == resolve(second, viewport, i),
    decreases i,
{
    match first[i].inner.1 {
        Some(rect) => {
            if 0 <= rect.upper_left.index < i && 0 <= rect.down_right.index < i {
                lemma_resolve_depends_on_prefix(
                    first,
                    second,
                    viewport,
                    rect.upper_left.index as int,
                );
                lemma_resolve_depends_on_prefix(
                    first,
                    second,
                    viewport,
                    rect.down_right.index as int,
                );
            }
        },
        None => {},
    }
}

/// Every coordinate that an offset gives lies on the screen.
pub proof fn lemma_resolve_axis_on_screen(
    offset: Offset,
    from_far: bool,
    min: int,
    max: int,
    limit: int,
)
    requires
        0 <= limit,
    ensures
        0 <= resolve_axis(offset, from_far, min, max, limit) <= limit,
{
}

/// Computes [`resolve_axis`].
fn axis(offset: Offset, from_far: bool, min: usize, max: usize, limit: usize) -> (c: usize)
    ensures
        c == resolve_axis(offset, from_far, min as int, max as int, limit as int),
        c <= limit,
{
    match offset {
        Offset::Absolute(k) => {
            let raw: i128 = if from_far {
                max as i128 - k as i128
            } else {
                min as i128 + k as i128
            };
            if raw < 0 {
                0
            } else if raw > limit as i128 {
                limit
            } else {
                raw as usize
            }
        },
        Offset::Relative(f) => {
            let (numer, denom) = f.parts();
            let extent: usize = if max >= min {
                max - min
            } else {
                0
            };
            let share: u32 = if from_far {
                denom - numer
            } else {
                numer
            };
            proof {
                lemma_mul_nonnegative(share as int, extent as int);
                lemma_mul_inequality(share as int, denom as int, extent as int);
                lemma_div_is_ordered(
                    share as int * extent as int,
                    denom as int * extent as int,
                    denom as int,
                );
                lemma_mul_is_commutative(denom as int, extent as int);
                lemma_div_multiples_vanish(extent as int, denom as int);
                lemma_div_pos_is_pos(share as int * extent as int, denom as int);
                assert(share as int * extent as int <= 0xFFFF_FFFF * 0xFFFF_FFFF_FFFF_FFFF)
                    by (nonlinear_arith)
                    requires
                        0 <= share as int <= 0xFFFF_FFFF,
                        0 <= extent as int <= 0xFFFF_FFFF_FFFF_FFFF,
                ;
            }
            let part: u128 = (share as u128 * extent as u128) / denom as u128;
            let raw: u128 = min as u128 + part;
            if raw > limit as u128 {
                limit
            } else {
                raw as usize
            }
        },
    }
}

/// The layout engine: anchors, each with the rectangle it is measured in, and
/// the viewport that anchors without a rectangle are measured in.
pub struct TuiAnchors {
    anchors: ArenaAlloc<(Anchor, Option<RectHandle>)>,
    size: Rect,
}

impl TuiAnchors {
    /// The stored anchors, each with its parent rectangle, in the order in
    /// which they were added.
    pub closed spec fn slots(&self) -> Seq<ArenaItem<(Anchor, Option<RectHandle>)>> {
        self.anchors@
    }

    /// The viewport.
    pub closed spec fn viewport(&self) -> Rect {
        self.size
    }

    /// The engine's invariant: no anchor was ever removed, and every anchor
    /// with a parent rectangle was added after the two anchors at that
    /// rectangle's corners. So the corners of every stored rectangle are
    /// there, and the layout has no cycle.
    pub open spec fn wf(&self) -> bool {
        forall|i: int|
            0 <= i < self.slots().len() ==> {
                &&& (#[trigger] self.slots()[i]).alive
                &&& self.slots()[i].generation == 0
                &&& parent_before(self.slots(), i)
            }
    }

    /// Whether `handle` refers to an anchor of this engine.
    pub open spec fn has(&self, handle: AnchorArenaHandle) -> bool {
        handle.index < self.slots().len() && handle.generation == 0
    }

    /// Whether both corners of `rect` are anchors of this engine.
    pub open spec fn spec_has_rect(&self, rect: &RectHandle) -> bool {
        self.has(rect.upper_left) && self.has(rect.down_right)
    }

    /// Whether `handle` refers to an anchor of this engine.
    pub open spec fn spec_has_anchor(&self, handle: &AnchorHandle) -> bool {
        self.has(handle.0)
    }

    /// The cell of the anchor `handle`.
    pub open spec fn cords_of(&self, handle: AnchorArenaHandle) -> Cords {
        resolve(self.slots(), self.viewport(), handle.index as int)
    }

    /// An engine without anchors on the viewport `size`.
    pub fn new(size: Rect) -> (engine: Self)
        ensures
            engine.wf(),
            engine.slots().len() == 0,
            engine.viewport() == size,
    {
        Self { anchors: ArenaAlloc::new(), size }
    }

    /// The number of anchors.
    pub fn len(&self) -> (n: usize)
        ensures
            n == self.slots().len(),
    {
        self.anchors.len()
    }

    /// Whether `handle` refers to an anchor of this engine.
    #[verifier::when_used_as_spec(spec_has_anchor)]
    pub fn has_anchor(&self, handle: &AnchorHandle) -> (b: bool)
        ensures
            b == self.spec_has_anchor(handle),
    {
        handle.0.index < self.anchors.len() && handle.0.generation == 0
    }

    /// Whether both corners of `rect` are anchors of this engine.
    #[verifier::when_used_as_spec(spec_has_rect)]
    pub fn has_rect(&self, rect: &RectHandle) -> (b: bool)
        ensures
            b == self.spec_has_rect(rect),
    {
        rect.upper_left.index < self.anchors.len() && rect.upper_left.generation == 0
            && rect.down_right.index < self.anchors.len() && rect.down_right.generation == 0
    }

    /// Adds an anchor that is measured in the rectangle `relative_to`.
    pub fn add_anchor_in(&mut self, anchor: Anchor, relative_to: &RectHandle) -> (handle:
        AnchorHandle)
        requires
            old(self).wf(),
            old(self).has_rect(relative_to),
        ensures
            final(self).wf(),
            final(self).viewport() == old(self).viewport(),
            final(self).slots() == old(self).slots().push(
                ArenaItem { inner: (anchor, Some(*relative_to)), alive: true, generation: 0 },
            ),
            handle.0.index == old(self).slots().len(),
            handle.0.generation == 0,
    {
        self.store(anchor, Some(*relative_to))
    }

    /// Adds an anchor that is measured in the viewport.
    pub fn add_anchor(&mut self, anchor: Anchor) -> (handle: AnchorHandle)
        requires
            old(self).wf(),
        ensures
            final(self).wf(),
            final(self).viewport() == old(self).viewport(),
            final(self).slots() == old(self).slots().push(
                ArenaItem { inner: (anchor, None), alive: true, generation: 0 },
            ),
            handle.0.index == old(self).slots().len(),
            handle.0.generation == 0,
    {
        self.store(anchor, None)
    }

    fn store(&mut self, anchor: Anchor, parent: Option<RectHandle>) -> (handle: AnchorHandle)
        requires
            old(self).wf(),
            parent matches Some(rect) ==> old(self).has_rect(&rect),
        ensures
            final(self).wf(),
            final(self).viewport() == old(self).viewport(),
            final(self).slots() == old(self).slots().push(
                ArenaItem { inner: (anchor, parent), alive: true, generation: 0 },
            ),
            handle.0.index == old(self).slots().len(),
            handle.0.generation == 0,
    {
        proof {
            crate::arena::lemma_insert_slot_unique(
                self.anchors@,
                self.anchors@.len() as int,
                self.anchors@.len() as int,
            );
        }
        let handle = self.anchors.insert((anchor, parent));
        assert forall|i: int| 0 <= i < self.slots().len() implies {
            &&& (#[trigger] self.slots()[i]).alive
            &&& self.slots()[i].generation == 0
            &&& parent_before(self.slots(), i)
        } by {
            if i < old(self).slots().len() {
                assert(old(self).slots()[i].alive);
                assert(parent_before(old(self).slots(), i));
            }
        }
        AnchorHandle(handle)
    }

    /// The rectangle between two anchors. Nothing is stored for it: the
    /// handle holds the two corners.
    pub fn add_rect(&mut self, upper_left: &AnchorHandle, down_right: &AnchorHandle) -> (rect:
        RectHandle)
        ensures
            *final(self) == *old(self),
            rect.upper_left == upper_left.0,
            rect.down_right == down_right.0,
    {
        RectHandle::new(&upper_left.0, &down_right.0)
    }

    /// The cell of the anchor `handle` on the viewport as it is now.
    pub fn get_cords_of_anchor(&self, handle: &AnchorHandle) -> (cords: Cords)
        requires
            self.wf(),
            self.has_anchor(handle),
        ensures
            cords == self.cords_of(handle.0),
            cords.col <= self.viewport().down_right.col,
            cords.row <= self.viewport().down_right.row,
    {
        self.raw_get_cords_of_anchor(&handle.0)
    }

    fn raw_get_cords_of_anchor(&self, handle: &AnchorArenaHandle) -> (cords: Cords)
        requires
            self.wf(),
            self.has(*handle),
        ensures
            cords == self.cords_of(*handle),
            cords.col <= self.viewport().down_right.col,
            cords.row <= self.viewport().down_right.row,
        decreases handle.index,
    {
        assert(self.slots()[handle.index as int].alive);
        assert(parent_before(self.slots(), handle.index as int));
        let (anchor, parent) = match self.anchors.get(handle) {
            Some(record) => *record,
            None => {
                assert(false);
                (Anchor::new_abs_from_upper_left(0, 0), None)
            },
        };
        let rect = match parent {
            Some(rh) => {
                let upper_left = self.raw_get_cords_of_anchor(&rh.upper_left);
                let down_right = self.raw_get_cords_of_anchor(&rh.down_right);
                Rect::new(upper_left, down_right)
            },
            None => self.size,
        };
        let col = axis(
            anchor.col_offset,
            anchor.from_right,
            rect.upper_left.col,
            rect.down_right.col,
            self.size.down_right.col,
        );
        let row = axis(
            anchor.row_offset,
            anchor.from_down,
            rect.upper_left.row,
            rect.down_right.row,
            self.size.down_right.row,
        );
        Cords { row, col }
    }

    /// Takes `size` for the viewport. The anchors stay as they are and
    /// resolve against the new viewport from now on.
    pub fn update_size(&mut self, size: Rect)
        ensures
            final(self).viewport() == size,
            final(self).slots() == old(self).slots(),
            old(self).wf() ==> final(self).wf(),
    {
        self.size = size;
    }
}

} // verus!
