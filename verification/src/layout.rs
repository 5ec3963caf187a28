//! Where the timer goes on the screen: the margin rule, and the centered
//! area that the layout solver of `tui` cuts out by it.

use vstd::prelude::*;

verus! {

/// The way in which an area is cut.
#[derive(Clone, Copy, Debug, PartialEq, Eq, Structural)]
pub enum Direction {
    /// Into columns, side by side.
    Horizontal,
    /// Into rows, one above the other.
    Vertical,
}

/// A rectangle of screen cells.
#[derive(Clone, Copy, Debug, PartialEq, Eq, Structural)]
pub struct Area {
    /// The column of the left edge.
    pub x: u16,
    /// The row of the top edge.
    pub y: u16,
    /// The number of columns.
    pub width: u16,
    /// The number of rows.
    pub height: u16,
}

impl Area {
    /// Whether the right and the bottom edge can be written as `u16`
    /// coordinates.
    pub open spec fn on_screen(self) -> bool {
        self.x + self.width <= u16::MAX && self.y + self.height <= u16::MAX
    }

    /// Where the area begins along `direction`: its left edge for
    /// columns, its top edge for rows.
    pub open spec fn start(self, direction: Direction) -> int {
        match direction {
            Direction::Horizontal => self.x as int,
            Direction::Vertical => self.y as int,
        }
    }

    /// How far the area reaches along `direction`: its width for columns,
    /// its height for rows.
    pub open spec fn length(self, direction: Direction) -> int {
        match direction {
            Direction::Horizontal => self.width as int,
            Direction::Vertical => self.height as int,
        }
    }

    /// Whether the area has the position and the size of `other` across
    /// `direction`: columns share top edge and height, rows share left
    /// edge and width.
    pub open spec fn same_across(self, other: Area, direction: Direction) -> bool {
        match direction {
            Direction::Horizontal => self.y == other.y && self.height == other.height,
            Direction::Vertical => self.x == other.x && self.width == other.width,
        }
    }

    /// Whether the area lies within `other`.
    pub open spec fn inside(self, other: Area) -> bool {
        &&& other.x <= self.x
        &&& self.x + self.width <= other.x + other.width
        &&& other.y <= self.y
        &&& self.y + self.height <= other.y + other.height
    }

    /// Whether the right and the bottom edge can be written as `u16`
    /// coordinates.
    pub fn is_on_screen(&self) -> (fits: bool)
        ensures
            fits == self.on_screen(),
    {
        self.width <= u16::MAX - self.x && self.height <= u16::MAX - self.y
    }
}

/// The margin behind a content of `content_length` cells centered in
/// `rect_length` cells: half of what the content leaves free, rounded
/// down, and nothing if the content does not fit.
pub open spec fn margin_of(rect_length: int, content_length: int) -> int {
    if rect_length < content_length {
        0
    } else {
        (rect_length - content_length) / 2
    }
}

/// The cells of the content that are shown: all of them if they fit,
/// else as many as there is room for.
pub open spec fn shown_of(rect_length: int, content_length: int) -> int {
    if rect_length < content_length {
        rect_length
    } else {
        content_length
    }
}

/// The margin before the content: what the content and the margin behind
/// it leave. It is the other half of the free cells, and takes the odd
/// cell if there is one.
pub open spec fn leading_margin_of(rect_length: int, content_length: int) -> int {
    rect_length - shown_of(rect_length, content_length) - margin_of(rect_length, content_length)
}

/// The area of a content of `content_height` rows and `content_width`
/// columns centered in `r`, each axis on its own: the content keeps its
/// size where it fits and is cut to the size of `r` where it does not,
/// and the margins on either side of it are equal but for an odd cell,
/// which goes before it.
pub open spec fn centered_in(r: Area, content_height: int, content_width: int) -> Area {
    Area {
        x: (r.x + leading_margin_of(r.width as int, content_width)) as u16,
        y: (r.y + leading_margin_of(r.height as int, content_height)) as u16,
        width: shown_of(r.width as int, content_width) as u16,
        height: shown_of(r.height as int, content_height) as u16,
    }
}

/// Whether `parts` are `area` cut in three along `direction`: the first
/// part begins where the area begins, each part ends where the next
/// begins, the last ends where the area ends, and across the cut every
/// part is as the area is.
pub open spec fn cut_in_three(area: Area, direction: Direction, parts: Seq<Area>) -> bool {
    &&& parts.len() == 3
    &&& forall|i: int| 0 <= i < 3 ==> (#[trigger] parts[i]).same_across(area, direction)
    &&& parts[0].start(direction) == area.start(direction)
    &&& parts[0].start(direction) + parts[0].length(direction) == parts[1].start(direction)
    &&& parts[1].start(direction) + parts[1].length(direction) == parts[2].start(direction)
    &&& parts[2].start(direction) + parts[2].length(direction) == area.start(direction) + area.length(
        direction,
    )
}

/// The leading margin is the margin behind the content or one cell more,
/// and nothing where the content does not fit; margins and shown content
/// fill the length.
pub proof fn lemma_margins(rect_length: int, content_length: int)
    requires
        0 <= rect_length,
        0 <= content_length,
    ensures
        leading_margin_of(rect_length, content_length) + shown_of(rect_length, content_length) + margin_of(
            rect_length,
            content_length,
        ) == rect_length,
        0 <= margin_of(rect_length, content_length) <= leading_margin_of(rect_length, content_length)
            <= margin_of(rect_length, content_length) + 1,
        content_length <= rect_length ==> leading_margin_of(rect_length, content_length) == (rect_length
            - content_length + 1) / 2,
        content_length <= rect_length && (rect_length - content_length) % 2 == 0 ==> leading_margin_of(
            rect_length,
            content_length,
        ) == margin_of(rect_length, content_length),
        content_length >= rect_length ==> leading_margin_of(rect_length, content_length) == 0,
{
}

/// A centered area lies within the area it is centered in and is no
/// larger than the content.
pub proof fn lemma_centered_inside(r: Area, content_height: u16, content_width: u16)
    requires
        r.on_screen(),
    ensures
        centered_in(r, content_height as int, content_width as int).inside(r),
        centered_in(r, content_height as int, content_width as int).on_screen(),
        centered_in(r, content_height as int, content_width as int).width <= content_width,
        centered_in(r, content_height as int, content_width as int).height <= content_height,
{
    lemma_margins(r.width as int, content_width as int);
    lemma_margins(r.height as int, content_height as int);
}

/// The margin behind a content of `content_length` cells centered in
/// `rect_length` cells.
pub fn margin(rect_length: u16, content_length: u16) -> (m: u16)
    ensures
        m == margin_of(rect_length as int, content_length as int),
{
    if rect_length < content_length {
        0
    } else {
        (rect_length - content_length) / 2
    }
}

/// The three lengths that center a content: the margin before it, what
/// is shown of it, the margin behind it. They add up to `rect_length`.
pub fn centered_lengths(rect_length: u16, content_length: u16) -> (lengths: [u16; 3])
    ensures
        lengths@ == seq![
            leading_margin_of(rect_length as int, content_length as int) as u16,
            shown_of(rect_length as int, content_length as int) as u16,
            margin_of(rect_length as int, content_length as int) as u16,
        ],
        lengths@[0] + lengths@[1] + lengths@[2] == rect_length,
{
    let behind = margin(rect_length, content_length);
    let shown = if rect_length < content_length {
        rect_length
    } else {
        content_length
    };
    let before = rect_length - shown - behind;
    let lengths = [before, shown, behind];
    assert(lengths@ =~= seq![before, shown, behind]);
    lengths
}

/// Calls `tui::layout::Layout::split` on a layout with the given
/// direction, no margin and three `Constraint::Length`s.
///
/// Not proved, but taken from the source of `tui` and of the solver
/// behind it:
/// - the call returns one part for each length;
/// - the parts are a cut of the area. Each clause of [`cut_in_three`] is
///   a constraint that `split` hands to the solver as required, and the
///   solver refuses a set of required constraints that it cannot meet.
///   The constraints have whole constants and coefficients of one, so
///   the solver's values are whole and their conversion to `u16` loses
///   nothing;
/// - lengths that add up to the area's length are all met. They are
///   preferences, and the solver gives one up only where it cannot meet
///   them all. Where they do not add up, which one it gives up is its
///   choice, and nothing is claimed of it.
///
/// Left out by `requires` are the areas whose right or bottom edge does
/// not fit in `u16`: for those the required constraints cannot be met,
/// and the call panics.
#[verifier::external_body]
fn split_lengths(area: Area, direction: Direction, lengths: [u16; 3]) -> (parts: Vec<Area>)
    requires
        area.on_screen(),
    ensures
        cut_in_three(area, direction, parts@),
        lengths@[0] + lengths@[1] + lengths@[2] == area.length(direction) ==> forall|i: int|
            0 <= i < 3 ==> (#[trigger] parts@[i]).length(direction) == lengths@[i],
{
    let direction = match direction {
        Direction::Horizontal => tui::layout::Direction::Horizontal,
        Direction::Vertical => tui::layout::Direction::Vertical,
    };
    tui::layout::Layout::default()
        .direction(direction)
        .constraints(lengths.map(tui::layout::Constraint::Length))
        .split(tui::layout::Rect { x: area.x, y: area.y, width: area.width, height: area.height })
        .into_iter()
        .map(|part| Area { x: part.x, y: part.y, width: part.width, height: part.height })
        .collect()
}

/// The area in the middle of `r` for a content of the given height and
/// width.
///
/// `r` is cut into three rows: a margin, the content's height, a margin.
/// The middle row is cut into three columns in the same way, and the
/// middle column is the area. On each axis the margins are half of what
/// the content leaves free, the one before the content taking the odd
/// cell; a content that does not fit is cut to the size of `r`.
pub fn center_area(r: Area, content_height: u16, content_width: u16) -> (area: Area)
    requires
        r.on_screen(),
    ensures
        area == centered_in(r, content_height as int, content_width as int),
        area.inside(r),
{
    proof {
        lemma_centered_inside(r, content_height, content_width);
    }
    let rows = split_lengths(r, Direction::Vertical, centered_lengths(r.height, content_height));
    let band = rows[1];
    let columns = split_lengths(band, Direction::Horizontal, centered_lengths(r.width, content_width));
    columns[1]
}

} // verus!
