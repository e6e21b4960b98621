//! Layout management for TUI components: terminal size validation and the
//! areas of the control box, the warning message and the help overlay.
use ratatui::layout::{Constraint, Direction, Layout};
use vstd::prelude::*;

verus! {

/// Minimum supported terminal width
pub const MIN_WIDTH: u16 = 80;
/// Minimum supported terminal height
pub const MIN_HEIGHT: u16 = 24;

/// A rectangle of terminal cells.
#[derive(Clone, Copy, Debug, PartialEq, Eq, Structural)]
pub struct Rect {
    pub x: u16,
    pub y: u16,
    pub width: u16,
    pub height: u16,
}

/// Size rule of one area of a layout.
#[derive(Clone, Copy, Debug, PartialEq, Eq, Structural)]
pub enum LayoutConstraint {
    /// Exactly this many cells
    Length(u16),
    /// At least this many cells
    Min(u16),
}

/// `area` less `margin` cells on each side, as `ratatui`'s `Rect::inner`
/// computes it: the empty rectangle at the origin when the margins do not fit.
pub open spec fn inner_area(area: Rect, margin: u16) -> Rect {
    let doubled: int = if 2 * margin > u16::MAX { u16::MAX as int } else { 2 * margin };
    if area.width < doubled || area.height < doubled {
        Rect { x: 0, y: 0, width: 0, height: 0 }
    } else {
        Rect {
            x: if area.x + margin > u16::MAX { u16::MAX } else { (area.x + margin) as u16 },
            y: if area.y + margin > u16::MAX { u16::MAX } else { (area.y + margin) as u16 },
            width: (area.width - doubled) as u16,
            height: (area.height - doubled) as u16,
        }
    }
}

/// Each area spans the whole of `inner` across the direction of the split:
/// the same columns for a vertical split, the same rows for a horizontal one.
pub open spec fn spans_across(areas: Seq<Rect>, inner: Rect, vertical: bool) -> bool {
    forall|i: int|
        0 <= i < areas.len() ==> if vertical {
            #[trigger] areas[i].x == inner.x && areas[i].width == inner.width
        } else {
            areas[i].y == inner.y && areas[i].height == inner.height
        }
}

/// Areas that `ratatui`'s `Layout::split` gives for `area`, split vertically
/// or horizontally, with `margin` and `constraints`.
pub uninterp spec fn layout_split(
    area: Rect,
    vertical: bool,
    margin: u16,
    constraints: Seq<LayoutConstraint>,
) -> Seq<Rect>;

/// Builds a `ratatui` `Layout` with `direction`, `margin` and `constraints`
/// and calls `Layout::split` on `area`. The areas are named by
/// `layout_split`. Stated besides is what the source shows of every split:
/// one area per constraint, each spanning `area` less the margin across the
/// direction of the split. Where the areas start and how long they are along
/// that direction is the constraint solver's answer and is not written out.
#[verifier::external_body]
fn split(area: Rect, vertical: bool, margin: u16, constraints: &Vec<LayoutConstraint>) -> (r: Vec<Rect>)
    ensures
        r@ == layout_split(area, vertical, margin, constraints@),
        r.len() == constraints.len(),
        spans_across(r@, inner_area(area, margin), vertical),
{
    let direction = if vertical { Direction::Vertical } else { Direction::Horizontal };
    let constraints = constraints.iter().map(|c| match c {
        LayoutConstraint::Length(n) => Constraint::Length(*n),
        LayoutConstraint::Min(n) => Constraint::Min(*n),
    });
    let area = ratatui::layout::Rect { x: area.x, y: area.y, width: area.width, height: area.height };
    let areas = Layout::default().direction(direction).margin(margin).constraints(constraints).split(area);
    areas.iter().map(|a| Rect { x: a.x, y: a.y, width: a.width, height: a.height }).collect()
}

/// Constraints that center a length between two flexible spaces.
pub open spec fn centering(length: u16) -> Seq<LayoutConstraint> {
    seq![LayoutConstraint::Min(0), LayoutConstraint::Length(length), LayoutConstraint::Min(0)]
}

/// A box of `width` x `height` centered in `area` (after `margin`): the middle
/// of three rows, then the middle of three columns of that row.
pub open spec fn centered_spec(area: Rect, margin: u16, width: u16, height: u16) -> Rect {
    layout_split(layout_split(area, true, margin, centering(height))[1], false, 0, centering(width))[1]
}

/// Constraints of the control box: power, voltage and current rows of three
/// cells, then the remaining space.
pub open spec fn control_box_constraints() -> Seq<LayoutConstraint> {
    seq![
        LayoutConstraint::Length(3),
        LayoutConstraint::Length(3),
        LayoutConstraint::Length(3),
        LayoutConstraint::Min(0),
    ]
}

fn centered(area: Rect, margin: u16, width: u16, height: u16) -> (r: Rect)
    ensures
        r == centered_spec(area, margin, width, height),
{
    let rows = split(
        area,
        true,
        margin,
        &vec![LayoutConstraint::Min(0), LayoutConstraint::Length(height), LayoutConstraint::Min(0)],
    );
    let cols = split(
        rows[1],
        false,
        0,
        &vec![LayoutConstraint::Min(0), LayoutConstraint::Length(width), LayoutConstraint::Min(0)],
    );
    cols[1]
}

/// Layout manager for TUI components
pub struct LayoutManager;

impl LayoutManager {
    /// Check if terminal size meets minimum requirements
    pub fn validate_terminal_size(area: Rect) -> (r: bool)
        ensures
            r == (area.width >= MIN_WIDTH && area.height >= MIN_HEIGHT),
    {
        area.width >= MIN_WIDTH && area.height >= MIN_HEIGHT
    }

    /// Create the main control box layout
    pub fn control_box_layout(area: Rect) -> (r: Vec<Rect>)
        ensures
            r@ == layout_split(area, true, 2, control_box_constraints()),
            r.len() == 4,
            spans_across(r@, inner_area(area, 2), true),
    {
        let constraints = vec![
            LayoutConstraint::Length(3),
            LayoutConstraint::Length(3),
            LayoutConstraint::Length(3),
            LayoutConstraint::Min(0),
        ];
        assert(constraints@ =~= control_box_constraints());
        split(area, true, 2, &constraints)
    }

    /// Create warning message layout for small terminals
    pub fn warning_layout(area: Rect) -> (r: Rect)
        ensures
            r == centered_spec(area, 1, 50, 3),
    {
        centered(area, 1, 50, 3)
    }

    /// Create help overlay layout
    pub fn help_overlay_layout(area: Rect) -> (r: Rect)
        ensures
            r == centered_spec(area, 2, 40, 8),
    {
        centered(area, 2, 40, 8)
    }
}

/// What the frame shows.
#[derive(Clone, Copy, Debug, PartialEq, Eq, Structural)]
pub enum FramePlan {
    /// The terminal is too small: only the warning message
    Warning,
    /// The control box, with the help overlay on top when `help` is set
    ControlBox { help: bool },
}

/// What to draw for a terminal of size `area`
pub fn plan_frame(area: Rect, help_visible: bool) -> (r: FramePlan)
    ensures
        r == if area.width >= MIN_WIDTH && area.height >= MIN_HEIGHT {
            FramePlan::ControlBox { help: help_visible }
        } else {
            FramePlan::Warning
        },
{
    if !LayoutManager::validate_terminal_size(area) {
        FramePlan::Warning
    } else {
        FramePlan::ControlBox { help: help_visible }
    }
}

/// Text of the warning shown on a terminal smaller than the minimum
pub fn warning_text(area: Rect) -> (r: String)
    ensures
        r@ == "Terminal too small! Need "@ + crate::text::decimal(MIN_WIDTH as nat) + "x"@
            + crate::text::decimal(MIN_HEIGHT as nat) + ", got "@ + crate::text::decimal(
            area.width as nat,
        ) + "x"@ + crate::text::decimal(area.height as nat),
{
    let mut s = String::from_str("Terminal too small! Need ");
    crate::text::push_decimal(&mut s, MIN_WIDTH as u64);
    s.append("x");
    crate::text::push_decimal(&mut s, MIN_HEIGHT as u64);
    s.append(", got ");
    crate::text::push_decimal(&mut s, area.width as u64);
    s.append("x");
    crate::text::push_decimal(&mut s, area.height as u64);
    s
}

} // verus!
