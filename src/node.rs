use vstd::prelude::*;
use crate::geometry::{is_coord, is_extent, max_int, Margin, Pos2, Rect, Spacing, Vec2};

verus! {

/// Openness of a fully expanded pin section; openness is given in
/// steps of `1 / OPENNESS_FULL`, from 0 (collapsed) to `OPENNESS_FULL`.
pub const OPENNESS_FULL: u32 = 0x1_0000;

/// Measured sizes of the visual parts of one node.
#[derive(Clone, Copy, Debug, PartialEq, Eq, Structural)]
pub struct NodeState {
    /// Size occupied by title.
    pub title_size: Vec2,
    /// Size occupied by inputs.
    pub inputs_size: Vec2,
    /// Size occupied by outputs.
    pub outputs_size: Vec2,
}

/// Distance by which a pin block of height `block` is pulled up at the given openness.
pub open spec fn collapse_of(block: int, openness: int) -> int {
    block * (OPENNESS_FULL - openness) / (OPENNESS_FULL as int)
}

impl NodeState {
    /// All sizes are non-negative and small enough to add up.
    pub open spec fn wf(self) -> bool {
        self.title_size.is_extent() && self.inputs_size.is_extent()
            && self.outputs_size.is_extent()
    }

    /// Width shared by the node, its title and its pins: the title spans it,
    /// the two pin columns sit side by side with a gap between them.
    pub open spec fn body_width(self, gap: int) -> int {
        max_int(self.title_size.x as int, self.inputs_size.x + gap + self.outputs_size.x)
    }

    /// Height of the taller pin column.
    pub open spec fn pins_height(self) -> int {
        max_int(self.inputs_size.y as int, self.outputs_size.y as int)
    }

    pub open spec fn spec_node_rect(self, margin: int, gap: int, pos: Pos2) -> Rect {
        Rect {
            min: pos,
            max: Pos2 {
                x: (pos.x + self.body_width(gap)) as i64,
                y: (pos.y + self.title_size.y + 2 * margin + self.pins_height()) as i64,
            },
        }
    }

    pub open spec fn spec_title_rect(self, gap: int, pos: Pos2) -> Rect {
        Rect {
            min: pos,
            max: Pos2 {
                x: (pos.x + self.body_width(gap)) as i64,
                y: (pos.y + self.title_size.y) as i64,
            },
        }
    }

    /// Top of the pin block: below the title and two margins, minus the collapse.
    pub open spec fn pins_top(self, margin: int, openness: int, pos: Pos2) -> int {
        pos.y + self.title_size.y + 2 * margin - collapse_of(
            self.pins_height() + 2 * margin,
            openness,
        )
    }

    pub open spec fn spec_pins_rect(self, margin: int, gap: int, openness: int, pos: Pos2) -> Rect {
        Rect {
            min: Pos2 { x: pos.x, y: self.pins_top(margin, openness, pos) as i64 },
            max: Pos2 {
                x: (pos.x + self.body_width(gap)) as i64,
                y: (self.pins_top(margin, openness, pos) + self.pins_height()) as i64,
            },
        }
    }

    fn width(&self, gap: i64) -> (r: i64)
        requires
            self.wf(),
            is_extent(gap as int),
        ensures
            r == self.body_width(gap as int),
    {
        let pins = self.inputs_size.x + gap + self.outputs_size.x;
        if self.title_size.x >= pins {
            self.title_size.x
        } else {
            pins
        }
    }

    fn height_of_pins(&self) -> (r: i64)
        requires
            self.wf(),
        ensures
            r == self.pins_height(),
    {
        if self.inputs_size.y >= self.outputs_size.y {
            self.inputs_size.y
        } else {
            self.outputs_size.y
        }
    }

    /// Rectangle of the whole node body at `pos`, not counting the frame's margin.
    pub fn node_rect(&self, frame: &Margin, spacing: &Spacing, pos: Pos2) -> (r: Rect)
        requires
            self.wf(),
            is_extent(frame.bottom as int),
            is_extent(spacing.item_spacing.x as int),
            pos.is_coord(),
        ensures
            r == self.spec_node_rect(frame.bottom as int, spacing.item_spacing.x as int, pos),
    {
        let width = self.width(spacing.item_spacing.x);
        let height = self.title_size.y + frame.bottom + frame.bottom + self.height_of_pins();
        Rect::from_min_size(pos, Vec2 { x: width, y: height })
    }

    /// Rectangle of the title at `pos`, as wide as the node.
    pub fn title_rect(&self, spacing: &Spacing, pos: Pos2) -> (r: Rect)
        requires
            self.wf(),
            is_extent(spacing.item_spacing.x as int),
            pos.is_coord(),
        ensures
            r == self.spec_title_rect(spacing.item_spacing.x as int, pos),
    {
        let width = self.width(spacing.item_spacing.x);
        Rect::from_min_size(pos, Vec2 { x: width, y: self.title_size.y })
    }

    /// Rectangle of the pin columns of a node at `pos` whose pin section is
    /// `openness / OPENNESS_FULL` open. Fully open, the pins sit below the title
    /// and two margins; as openness falls they slide up by the same fraction of
    /// their height plus the two margins (rounded towards zero).
    pub fn pins_rect(&self, frame: &Margin, spacing: &Spacing, openness: u32, pos: Pos2) -> (r: Rect)
        requires
            self.wf(),
            is_extent(frame.bottom as int),
            is_extent(spacing.item_spacing.x as int),
            openness <= OPENNESS_FULL,
            pos.is_coord(),
        ensures
            r == self.spec_pins_rect(
                frame.bottom as int,
                spacing.item_spacing.x as int,
                openness as int,
                pos,
            ),
    {
        let height = self.height_of_pins();
        let width = self.width(spacing.item_spacing.x);
        let block = height + frame.bottom + frame.bottom;
        let closed = (OPENNESS_FULL - openness) as i64;
        proof {
            assert(0 <= block * closed <= 0x400_0000_0000 * 0x1_0000) by (nonlinear_arith)
                requires
                    0 <= block <= 0x400_0000_0000,
                    0 <= closed <= 0x1_0000,
            ;
        }
        let collapse = block * closed / (OPENNESS_FULL as i64);
        proof {
            assert(collapse <= block) by (nonlinear_arith)
                requires
                    0 <= block,
                    0 <= closed <= OPENNESS_FULL,
                    collapse == block * closed / (OPENNESS_FULL as int),
            ;
        }
        let top = pos.y + self.title_size.y + frame.bottom + frame.bottom - collapse;
        Rect::from_min_size(Pos2 { x: pos.x, y: top }, Vec2 { x: width, y: height })
    }

    /// State of a node that has not been measured yet: every part has the
    /// theme's standard interactive size.
    pub fn initial(spacing: &Spacing) -> (r: NodeState)
        ensures
            r.title_size == spacing.interact_size,
            r.inputs_size == spacing.interact_size,
            r.outputs_size == spacing.interact_size,
    {
        NodeState {
            title_size: spacing.interact_size,
            inputs_size: spacing.interact_size,
            outputs_size: spacing.interact_size,
        }
    }
}

/// The node is exactly as wide as its title and at least as tall.
pub proof fn lemma_node_contains_title(s: NodeState, margin: int, gap: int, pos: Pos2)
    requires
        s.wf(),
        is_extent(margin),
        is_extent(gap),
        pos.is_coord(),
    ensures
        s.spec_node_rect(margin, gap, pos).width() == s.spec_title_rect(gap, pos).width(),
        s.spec_node_rect(margin, gap, pos).height() >= s.spec_title_rect(gap, pos).height(),
{
}

/// Fully open, the pins start right where the title ends plus the two margins,
/// with no extra offset; fully closed, they are pulled up by their own height
/// plus the two margins.
pub proof fn lemma_pins_at_ends(s: NodeState, margin: int, gap: int, pos: Pos2)
    requires
        s.wf(),
        is_extent(margin),
        is_extent(gap),
        pos.is_coord(),
    ensures
        s.spec_pins_rect(margin, gap, OPENNESS_FULL as int, pos).min.y
            == s.spec_title_rect(gap, pos).max.y + 2 * margin,
        s.spec_pins_rect(margin, gap, 0, pos).min.y
            == s.spec_title_rect(gap, pos).max.y + 2 * margin - (s.pins_height() + 2 * margin),
        s.spec_pins_rect(margin, gap, OPENNESS_FULL as int, pos).min.x == pos.x,
        s.spec_pins_rect(margin, gap, 0, pos).height() == s.pins_height(),
{
    let block = s.pins_height() + 2 * margin;
    assert(block * 0 / (OPENNESS_FULL as int) == 0);
    assert(block * (OPENNESS_FULL - 0) / (OPENNESS_FULL as int) == block) by (nonlinear_arith)
        requires
            block >= 0,
    ;
}

} // verus!
