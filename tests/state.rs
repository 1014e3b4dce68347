use snarl_state::geometry::{Margin, Pos2, Rect, Spacing, Vec2};
use snarl_state::node::{NodeState, OPENNESS_FULL};
use snarl_state::viewport::{SnarlState, ZoomState};

fn v(x: i64, y: i64) -> Vec2 {
    Vec2 { x, y }
}

fn p(x: i64, y: i64) -> Pos2 {
    Pos2 { x, y }
}

fn sample_node() -> NodeState {
    NodeState { title_size: v(100, 20), inputs_size: v(40, 60), outputs_size: v(40, 80) }
}

fn margin(bottom: i64) -> Margin {
    Margin { left: 0, right: 0, top: 0, bottom }
}

fn spacing(gap: i64) -> Spacing {
    Spacing { item_spacing: v(gap, 3), interact_size: v(40, 18) }
}

fn viewport_at(x: i64, y: i64) -> Rect {
    Rect { min: p(x, y), max: p(x + 800, y + 600) }
}

#[test]
fn node_rect_example() {
    let r = sample_node().node_rect(&margin(4), &spacing(8), p(0, 0));
    assert_eq!(r, Rect { min: p(0, 0), max: p(100, 108) });
}

#[test]
fn node_rect_width_from_pins() {
    let node = NodeState { title_size: v(50, 10), inputs_size: v(40, 5), outputs_size: v(40, 7) };
    let r = node.node_rect(&margin(2), &spacing(8), p(3, -4));
    assert_eq!(r, Rect { min: p(3, -4), max: p(91, 17) });
}

#[test]
fn title_rect_example() {
    let r = sample_node().title_rect(&spacing(8), p(5, 6));
    assert_eq!(r, Rect { min: p(5, 6), max: p(105, 26) });
}

#[test]
fn node_and_title_share_width() {
    let node = sample_node();
    let n = node.node_rect(&margin(4), &spacing(30), p(0, 0));
    let t = node.title_rect(&spacing(30), p(0, 0));
    assert_eq!(n.max.x - n.min.x, t.max.x - t.min.x);
    assert_eq!(n.max.x, 110);
    assert!(n.max.y - n.min.y >= t.max.y - t.min.y);
}

#[test]
fn pins_rect_fully_open_sits_below_title() {
    let node = sample_node();
    let t = node.title_rect(&spacing(8), p(0, 0));
    let r = node.pins_rect(&margin(4), &spacing(8), OPENNESS_FULL, p(0, 0));
    assert_eq!(r.min.y, t.max.y + 8);
    assert_eq!(r, Rect { min: p(0, 28), max: p(100, 108) });
}

#[test]
fn pins_rect_fully_closed_is_pulled_up() {
    let r = sample_node().pins_rect(&margin(4), &spacing(8), 0, p(0, 0));
    assert_eq!(r, Rect { min: p(0, -60), max: p(100, 20) });
}

#[test]
fn pins_rect_half_open() {
    let r = sample_node().pins_rect(&margin(4), &spacing(8), OPENNESS_FULL / 2, p(0, 0));
    assert_eq!(r, Rect { min: p(0, -16), max: p(100, 64) });
}

#[test]
fn pins_rect_rounds_collapse_down() {
    let node = NodeState { title_size: v(10, 10), inputs_size: v(1, 1), outputs_size: v(1, 0) };
    let r = node.pins_rect(&margin(0), &spacing(0), 1, p(0, 0));
    assert_eq!(r.min.y, 10);
    let r = node.pins_rect(&margin(0), &spacing(0), 0, p(0, 0));
    assert_eq!(r.min.y, 9);
}

#[test]
fn zero_extents_give_empty_rects() {
    let node = NodeState { title_size: v(0, 0), inputs_size: v(0, 0), outputs_size: v(0, 0) };
    let r = node.node_rect(&margin(0), &spacing(0), p(7, 7));
    assert_eq!(r, Rect { min: p(7, 7), max: p(7, 7) });
    let r = node.pins_rect(&margin(0), &spacing(0), OPENNESS_FULL, p(7, 7));
    assert_eq!(r, Rect { min: p(7, 7), max: p(7, 7) });
}

#[test]
fn initial_uses_interact_size() {
    let s = NodeState::initial(&spacing(8));
    assert_eq!(s.title_size, v(40, 18));
    assert_eq!(s.inputs_size, v(40, 18));
    assert_eq!(s.outputs_size, v(40, 18));
}

#[test]
fn default_viewport() {
    let s = SnarlState::default();
    assert_eq!(s.offset, v(0, 0));
    assert_eq!(s.scale, 1);
    assert_eq!(s.denom, 1);
}

#[test]
fn graph_to_screen_example() {
    let z = ZoomState { offset: v(10, 10), scale: 2, denom: 1 };
    assert_eq!(z.graph_point_to_screen(p(5, 5), viewport_at(0, 0)), Some(p(0, 0)));
}

#[test]
fn graph_to_screen_with_fractions() {
    // Zoom 1.5, pan (0.5, -0.5), viewport corner (10, 20).
    let z = ZoomState { offset: v(1, -1), scale: 3, denom: 2 };
    assert_eq!(z.graph_point_to_screen(p(1, 1), viewport_at(10, 20)), Some(p(11, 22)));
}

#[test]
fn graph_to_screen_rounds_down() {
    let z = ZoomState { offset: v(0, 0), scale: 1, denom: 2 };
    assert_eq!(z.graph_point_to_screen(p(-1, 3), viewport_at(0, 0)), Some(p(-1, 1)));
}

#[test]
fn graph_to_screen_out_of_range() {
    let z = ZoomState { offset: v(0, 0), scale: 2, denom: 1 };
    assert_eq!(z.graph_point_to_screen(p(i64::MAX, 0), viewport_at(0, 0)), None);
}

fn zoom_of(s: &SnarlState) -> ZoomState {
    ZoomState { offset: s.offset, scale: s.scale, denom: s.denom }
}

#[test]
fn zoom_about_pivot() {
    let mut s = SnarlState::default();
    assert!(s.apply_scale_wrt_screen_point(2, 1, p(10, 10), viewport_at(0, 0)));
    assert_eq!(s, SnarlState { offset: v(10, 10), scale: 2, denom: 1 });
}

#[test]
fn zoom_keeps_pivot_fixed() {
    let vp = viewport_at(4, 6);
    let mut s = SnarlState::default();
    let pivot = p(14, 16);
    let g = p(10, 10);
    assert_eq!(zoom_of(&s).graph_point_to_screen(g, vp), Some(pivot));
    assert!(s.apply_scale_wrt_screen_point(2, 1, pivot, vp));
    assert_eq!(zoom_of(&s).graph_point_to_screen(g, vp), Some(pivot));

    // Zoom out by half about another point: the graph point under it stays.
    let pivot = p(34, 36);
    let g = p(20, 20);
    assert_eq!(zoom_of(&s).graph_point_to_screen(g, vp), Some(pivot));
    assert!(s.apply_scale_wrt_screen_point(1, 2, pivot, vp));
    assert_eq!(s, SnarlState { offset: v(-20, -20), scale: 2, denom: 2 });
    assert_eq!(zoom_of(&s).graph_point_to_screen(g, vp), Some(pivot));
}

#[test]
fn unit_zoom_keeps_view() {
    let start = SnarlState { offset: v(7, -3), scale: 5, denom: 2 };
    let mut s = start;
    assert!(s.apply_scale_wrt_screen_point(3, 3, p(100, 40), viewport_at(1, 2)));
    assert!(s.apply_scale_wrt_screen_point(1, 1, p(-5, 9), viewport_at(1, 2)));
    assert_eq!(s.offset.x * start.denom, start.offset.x * s.denom);
    assert_eq!(s.offset.y * start.denom, start.offset.y * s.denom);
    assert_eq!(s.scale * start.denom, start.scale * s.denom);
}

#[test]
fn zoom_that_overflows_changes_nothing() {
    let start = SnarlState { offset: v(0, 0), scale: i64::MAX / 2, denom: 1 };
    let mut s = start;
    assert!(!s.apply_scale_wrt_screen_point(3, 1, p(0, 0), viewport_at(0, 0)));
    assert_eq!(s, start);
}

#[test]
fn rebase_rounds_down() {
    let s = SnarlState { offset: v(-7, 9), scale: 3, denom: 4 };
    assert_eq!(s.rebased(2), Some(SnarlState { offset: v(-4, 4), scale: 1, denom: 2 }));
    assert_eq!(s.rebased(8), Some(SnarlState { offset: v(-14, 18), scale: 6, denom: 8 }));
}

#[test]
fn rebase_keeps_scale_positive() {
    let s = SnarlState { offset: v(0, 0), scale: 1, denom: 1000 };
    assert_eq!(s.rebased(10).map(|r| r.scale), Some(1));
}

#[test]
fn rebase_out_of_range() {
    let s = SnarlState { offset: v(i64::MAX, 0), scale: 1, denom: 1 };
    assert_eq!(s.rebased(2), None);
}
