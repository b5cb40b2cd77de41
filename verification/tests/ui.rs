use nixtui_core::tty::Winsize;
use nixtui_core::ui::anchors::{Anchor, Cords, Fraction, Offset, Rect, TuiAnchors};
use nixtui_core::ui::pane::{Pane, Pos, Size};

fn viewport(cols: u16, rows: u16) -> Rect {
    Rect::from_winsize(Winsize { col: cols, row: rows })
}

fn half() -> Fraction {
    Fraction::new(1, 2).unwrap()
}

#[test]
fn viewport_ends_at_the_last_cell() {
    assert_eq!(viewport(80, 24), Rect::new(Cords::zero(), Cords::new(79, 23)));
    assert_eq!(viewport(1, 1), Rect::new(Cords::new(0, 0), Cords::from((0, 0))));
}

#[test]
fn absolute_anchor_from_upper_left() {
    let mut ui = TuiAnchors::new(viewport(80, 24));
    let anchor = ui.add_anchor(Anchor::new_abs_from_upper_left(5, 5));
    assert_eq!(ui.get_cords_of_anchor(&anchor), Cords::new(5, 5));
}

#[test]
fn relative_anchor_from_down_right() {
    let mut ui = TuiAnchors::new(viewport(80, 24));
    let anchor = ui.add_anchor(Anchor::new_rel_from_down_right(half(), half()));
    assert_eq!(ui.get_cords_of_anchor(&anchor), Cords::new(39, 11));
}

#[test]
fn anchor_inside_a_rectangle() {
    let mut ui = TuiAnchors::new(viewport(80, 24));
    let upper_left = ui.add_anchor(Anchor::new_abs_from_upper_left(5, 5));
    let down_right = ui.add_anchor(Anchor::new_rel_from_down_right(half(), half()));
    let rect = ui.add_rect(&upper_left, &down_right);
    assert!(ui.has_rect(&rect));
    let inner = ui.add_anchor_in(Anchor::new_rel_from_down_right(half(), half()), &rect);
    assert_eq!(ui.get_cords_of_anchor(&inner), Cords::new(22, 8));
    assert_eq!(ui.get_cords_of_anchor(&upper_left), Cords::new(5, 5));
    assert_eq!(ui.get_cords_of_anchor(&down_right), Cords::new(39, 11));
    assert_eq!(ui.len(), 3);
}

#[test]
fn handles_follow_the_viewport() {
    let mut ui = TuiAnchors::new(viewport(80, 24));
    let upper_left = ui.add_anchor(Anchor::new_abs_from_upper_left(5, 5));
    let down_right = ui.add_anchor(Anchor::new_rel_from_down_right(half(), half()));
    let rect = ui.add_rect(&upper_left, &down_right);
    let inner = ui.add_anchor_in(Anchor::new_rel_from_down_right(half(), half()), &rect);
    let corner = ui.add_anchor(Anchor::new_abs_from_down_right(0, 0));
    ui.update_size(viewport(100, 30));
    assert_eq!(ui.get_cords_of_anchor(&upper_left), Cords::new(5, 5));
    assert_eq!(ui.get_cords_of_anchor(&down_right), Cords::new(49, 14));
    assert_eq!(ui.get_cords_of_anchor(&inner), Cords::new(27, 9));
    assert_eq!(ui.get_cords_of_anchor(&corner), Cords::new(99, 29));
}

#[test]
fn coordinates_stay_on_the_screen() {
    let mut ui = TuiAnchors::new(viewport(80, 24));
    let far = ui.add_anchor(Anchor::new_abs_from_upper_left(500, isize::MAX));
    assert_eq!(ui.get_cords_of_anchor(&far), Cords::new(79, 23));
    let before = ui.add_anchor(Anchor::new_abs_from_upper_left(-3, isize::MIN));
    assert_eq!(ui.get_cords_of_anchor(&before), Cords::new(0, 0));
    let back = ui.add_anchor(Anchor::new_abs_from_down_right(9, 30));
    assert_eq!(ui.get_cords_of_anchor(&back), Cords::new(70, 0));
    let beyond = ui.add_anchor(Anchor::new_abs_from_down_right(-1, isize::MIN));
    assert_eq!(ui.get_cords_of_anchor(&beyond), Cords::new(79, 23));
}

#[test]
fn axes_are_measured_independently() {
    let mut ui = TuiAnchors::new(viewport(80, 24));
    let third = Fraction::new(1, 3).unwrap();
    let mixed = ui.add_anchor(Anchor::new(
        Offset::Relative(third),
        false,
        Offset::Absolute(2),
        true,
    ));
    assert_eq!(ui.get_cords_of_anchor(&mixed), Cords::new(26, 21));
    let other = ui.add_anchor(Anchor::new(
        Offset::Absolute(2),
        true,
        Offset::Relative(third),
        true,
    ));
    assert_eq!(ui.get_cords_of_anchor(&other), Cords::new(77, 15));
    let whole = ui.add_anchor(Anchor::new_rel_from_upper_left(
        Fraction::new(1, 1).unwrap(),
        Fraction::new(0, 7).unwrap(),
    ));
    assert_eq!(ui.get_cords_of_anchor(&whole), Cords::new(79, 0));
}

#[test]
fn rectangle_turned_inside_out_has_no_extent() {
    let mut ui = TuiAnchors::new(viewport(80, 24));
    let upper_left = ui.add_anchor(Anchor::new_abs_from_upper_left(40, 20));
    let down_right = ui.add_anchor(Anchor::new_abs_from_upper_left(10, 5));
    let rect = ui.add_rect(&upper_left, &down_right);
    let inner = ui.add_anchor_in(Anchor::new_rel_from_upper_left(half(), half()), &rect);
    assert_eq!(ui.get_cords_of_anchor(&inner), Cords::new(40, 20));
    let absolute = ui.add_anchor_in(Anchor::new_abs_from_down_right(1, 1), &rect);
    assert_eq!(ui.get_cords_of_anchor(&absolute), Cords::new(9, 4));
}

#[test]
fn fractions_lie_between_zero_and_one() {
    assert!(Fraction::new(0, 1).is_some());
    assert!(Fraction::new(5, 5).is_some());
    assert!(Fraction::new(6, 5).is_none());
    assert!(Fraction::new(0, 0).is_none());
    assert_eq!(Fraction::new(3, 4).unwrap().parts(), (3, 4));
}

#[test]
fn foreign_handles_are_recognised() {
    let mut ui = TuiAnchors::new(viewport(80, 24));
    let mut other = TuiAnchors::new(viewport(80, 24));
    let a = other.add_anchor(Anchor::new_abs_from_upper_left(1, 1));
    let b = other.add_anchor(Anchor::new_abs_from_upper_left(2, 2));
    assert!(!ui.has_anchor(&a));
    let rect = other.add_rect(&a, &b);
    assert!(!ui.has_rect(&rect));
    let own = ui.add_anchor(Anchor::new_abs_from_upper_left(1, 1));
    assert!(ui.has_anchor(&own));
    assert!(ui.has_anchor(&a));
    assert!(!ui.has_anchor(&b));
    assert!(!ui.has_rect(&rect));
}

#[test]
fn pane_starts_with_its_cursor_in_the_corner() {
    let rect = nixtui_core::ui::pane::Rect { pos: Pos::new(2, 3), width: 10, height: 4 };
    let pane = Pane::new(rect);
    assert_eq!(pane.rect, rect);
    assert_eq!(pane.cursor_pos, Pos::zero());
    assert_eq!(pane.size(), Size { width: 10, height: 4 });
    let full = Pane::full_window(Winsize { col: 80, row: 24 });
    assert_eq!(full.rect.pos, Pos { row: 0, col: 0 });
    assert_eq!(full.size(), Size::from(Winsize { col: 80, row: 24 }));
    assert_eq!(full.size(), Size { width: 80, height: 24 });
}
