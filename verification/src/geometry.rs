//! Integer geometry of windows and their decorations, in logical pixels.

use vstd::prelude::*;

verus! {

/// Height of the title bar above a decorated window.
pub const BAR: i32 = 32;

/// Height of the strip below a decorated window.
pub const STRIP: i32 = 8;

/// Width of the resize grip at the right end of the strip.
pub const GRIP: i32 = 24;

#[derive(Clone, Copy, Debug, PartialEq, Eq, Structural)]
pub struct Point {
    pub x: i32,
    pub y: i32,
}

#[derive(Clone, Copy, Debug, PartialEq, Eq, Structural)]
pub struct Size {
    pub w: i32,
    pub h: i32,
}

/// A rectangle by its top-left corner and its size.
#[derive(Clone, Copy, Debug, PartialEq, Eq, Structural)]
pub struct Rect {
    pub loc: Point,
    pub size: Size,
}

impl Size {
    /// Whether the size covers no pixel.
    pub fn is_empty(self) -> (r: bool)
        ensures
            r == (self.w <= 0 || self.h <= 0),
    {
        self.w <= 0 || self.h <= 0
    }
}

impl Rect {
    /// Whether the unit square with top-left corner `(x, y)` lies in the rectangle.
    pub open spec fn holds(self, x: int, y: int) -> bool {
        &&& self.loc.x <= x < self.loc.x + self.size.w
        &&& self.loc.y <= y < self.loc.y + self.size.h
    }

    /// Whether the rectangle holds a point whose coordinates were rounded down.
    pub fn contains(self, x: i64, y: i64) -> (r: bool)
        ensures
            r == self.holds(x as int, y as int),
    {
        self.loc.x as i64 <= x && x < self.loc.x as i64 + self.size.w as i64 && self.loc.y as i64
            <= y && y < self.loc.y as i64 + self.size.h as i64
    }
}

pub open spec fn larger(a: int, b: int) -> int {
    if a >= b {
        a
    } else {
        b
    }
}

pub open spec fn smaller(a: int, b: int) -> int {
    if a <= b {
        a
    } else {
        b
    }
}

/// The value of `low..=high` that is nearest to `value`.
pub open spec fn nearest(value: int, low: int, high: int) -> int {
    larger(low, smaller(value, high))
}

pub fn max(a: i32, b: i32) -> (r: i32)
    ensures
        r == larger(a as int, b as int),
{
    if a >= b {
        a
    } else {
        b
    }
}

pub fn min(a: i32, b: i32) -> (r: i32)
    ensures
        r == smaller(a as int, b as int),
{
    if a <= b {
        a
    } else {
        b
    }
}

/// What a press on a decoration does.
#[derive(Clone, Copy, Debug, PartialEq, Eq, Structural)]
pub enum DecorationAction {
    Move,
    Resize,
    Close,
}

/// Where the decorations of a window of the given size lie, relative to the
/// window. Painting and hit testing share it.
#[derive(Clone, Copy, Debug, PartialEq, Eq, Structural)]
pub struct Layout {
    pub size: Size,
}

impl Layout {
    pub open spec fn wf(self) -> bool {
        self.size.w >= i32::MIN + BAR
    }

    pub open spec fn spec_bar(self) -> Rect {
        Rect { loc: Point { x: 0, y: (-BAR) as i32 }, size: Size { w: self.size.w, h: BAR } }
    }

    pub open spec fn spec_close(self) -> Rect {
        Rect {
            loc: Point { x: larger(self.size.w - BAR, 0) as i32, y: (-BAR) as i32 },
            size: Size { w: smaller(self.size.w as int, BAR as int) as i32, h: BAR },
        }
    }

    pub open spec fn spec_resize(self) -> Rect {
        Rect {
            loc: Point { x: larger(self.size.w - GRIP, 0) as i32, y: self.size.h },
            size: Size { w: smaller(self.size.w as int, GRIP as int) as i32, h: STRIP },
        }
    }

    /// The title bar, which lies above the window and is as wide as it.
    pub fn bar(&self) -> (r: Rect)
        ensures
            r == self.spec_bar(),
    {
        Rect { loc: Point { x: 0, y: -BAR }, size: Size { w: self.size.w, h: BAR } }
    }

    /// The close button: the square at the right end of the bar, or the whole bar
    /// of a window that is narrower than that.
    pub fn close(&self) -> (r: Rect)
        requires
            self.wf(),
        ensures
            r == self.spec_close(),
    {
        Rect {
            loc: Point { x: max(self.size.w - BAR, 0), y: -BAR },
            size: Size { w: min(self.size.w, BAR), h: BAR },
        }
    }

    /// The resize grip, below the right end of the window.
    pub fn resize(&self) -> (r: Rect)
        requires
            self.wf(),
        ensures
            r == self.spec_resize(),
    {
        Rect {
            loc: Point { x: max(self.size.w - GRIP, 0), y: self.size.h },
            size: Size { w: min(self.size.w, GRIP), h: STRIP },
        }
    }

    pub open spec fn spec_hit(self, x: int, y: int) -> Option<DecorationAction> {
        if self.spec_close().holds(x, y) {
            Some(DecorationAction::Close)
        } else if self.spec_bar().holds(x, y) {
            Some(DecorationAction::Move)
        } else if self.spec_resize().holds(x, y) {
            Some(DecorationAction::Resize)
        } else {
            None
        }
    }

    /// The decoration under a point, given by its coordinates rounded down.
    pub fn hit(&self, x: i64, y: i64) -> (r: Option<DecorationAction>)
        requires
            self.wf(),
        ensures
            r == self.spec_hit(x as int, y as int),
    {
        if self.close().contains(x, y) {
            Some(DecorationAction::Close)
        } else if self.bar().contains(x, y) {
            Some(DecorationAction::Move)
        } else if self.resize().contains(x, y) {
            Some(DecorationAction::Resize)
        } else {
            None
        }
    }
}

/// The decorations lie outside the window: no point of the window hits one. The
/// close button is part of the bar, and no point hits two decorations.
pub proof fn law_decorations_surround_the_window(layout: Layout, x: int, y: int)
    requires
        layout.wf(),
        layout.size.w >= 0,
        layout.size.h >= 0,
    ensures
        0 <= x < layout.size.w && 0 <= y < layout.size.h ==> layout.spec_hit(x, y) is None,
        layout.spec_close().holds(x, y) ==> layout.spec_bar().holds(x, y),
        !(layout.spec_bar().holds(x, y) && layout.spec_resize().holds(x, y)),
        layout.spec_hit(x, y) is Some ==> 0 <= x < layout.size.w,
{
}

/// The rectangle that a window may fill: the output, less the room of its
/// decorations where it has any.
pub open spec fn usable(output: Rect, decorated: bool) -> Rect {
    if decorated {
        Rect {
            loc: Point { x: output.loc.x, y: (output.loc.y + BAR) as i32 },
            size: Size { w: output.size.w, h: larger(output.size.h - BAR - STRIP, 1) as i32 },
        }
    } else {
        output
    }
}

/// Whether `usable` stays in the range of coordinates.
pub open spec fn room_for_decorations(output: Rect) -> bool {
    &&& output.loc.y + BAR <= i32::MAX
    &&& output.size.h - BAR - STRIP >= i32::MIN
}

pub fn window_output_geometry(output: Rect, decorated: bool) -> (r: Rect)
    requires
        decorated ==> room_for_decorations(output),
    ensures
        r == usable(output, decorated),
{
    if decorated {
        Rect {
            loc: Point { x: output.loc.x, y: output.loc.y + BAR },
            size: Size { w: output.size.w, h: max(output.size.h - BAR - STRIP, 1) },
        }
    } else {
        output
    }
}

/// Whether the far edges of every position of a window in `area` can be computed.
pub open spec fn room_to_constrain(size: Size, area: Rect) -> bool {
    &&& i32::MIN <= area.size.w - size.w <= i32::MAX
    &&& i32::MIN <= area.size.h - size.h <= i32::MAX
    &&& area.loc.x + larger(area.size.w - size.w, 0) <= i32::MAX
    &&& area.loc.y + larger(area.size.h - size.h, 0) <= i32::MAX
}

/// The nearest location at which a window of that size lies in the area; a window
/// that is larger than the area sticks to its top-left corner.
pub open spec fn constrained_location(location: Point, size: Size, area: Rect) -> Point {
    Point {
        x: nearest(
            location.x as int,
            area.loc.x as int,
            area.loc.x + larger(area.size.w - size.w, 0),
        ) as i32,
        y: nearest(
            location.y as int,
            area.loc.y as int,
            area.loc.y + larger(area.size.h - size.h, 0),
        ) as i32,
    }
}

pub fn constrain(location: Point, size: Size, area: Rect) -> (r: Point)
    requires
        room_to_constrain(size, area),
    ensures
        r == constrained_location(location, size, area),
{
    Point {
        x: max(area.loc.x, min(location.x, area.loc.x + max(area.size.w - size.w, 0))),
        y: max(area.loc.y, min(location.y, area.loc.y + max(area.size.h - size.h, 0))),
    }
}

/// A window that fits is put wholly into its area, and one that lies there
/// already stays where it is.
pub proof fn law_constrained_windows_are_visible(location: Point, size: Size, area: Rect)
    requires
        room_to_constrain(size, area),
    ensures
        ({
            let placed = constrained_location(location, size, area);
            &&& area.loc.x <= placed.x && area.loc.y <= placed.y
            &&& size.w <= area.size.w ==> placed.x + size.w <= area.loc.x + area.size.w
            &&& size.h <= area.size.h ==> placed.y + size.h <= area.loc.y + area.size.h
            &&& area.loc.x <= location.x && location.x + size.w <= area.loc.x + area.size.w
                ==> placed.x == location.x
            &&& area.loc.y <= location.y && location.y + size.h <= area.loc.y + area.size.h
                ==> placed.y == location.y
            &&& constrained_location(placed, size, area) == placed
        }),
{
}

/// How far from the output's corner a window starts when `count` windows exist.
pub open spec fn cascade(count: int) -> int {
    32 + 48 * (count % 8)
}

/// Where a new window goes: down a diagonal that starts over after eight windows.
pub fn initial_location(count: usize) -> (r: Point)
    ensures
        r.x == cascade(count as int),
        r.y == cascade(count as int),
{
    let step: i32 = (count % 8) as i32;
    Point { x: 32 + 48 * step, y: 32 + 48 * step }
}

/// The bit of `edges` for each edge of a window that a resize moves.
pub const EDGE_TOP: u32 = 1;

pub const EDGE_BOTTOM: u32 = 2;

pub const EDGE_LEFT: u32 = 4;

pub const EDGE_RIGHT: u32 = 8;

/// The edges of a window that a resize moves.
#[derive(Clone, Copy, Debug, PartialEq, Eq, Structural)]
pub struct Edges {
    pub top: bool,
    pub bottom: bool,
    pub left: bool,
    pub right: bool,
}

pub open spec fn edges_of(bits: u32) -> Edges {
    Edges {
        top: bits & EDGE_TOP != 0,
        bottom: bits & EDGE_BOTTOM != 0,
        left: bits & EDGE_LEFT != 0,
        right: bits & EDGE_RIGHT != 0,
    }
}

impl Edges {
    pub fn from_bits(bits: u32) -> (r: Self)
        ensures
            r == edges_of(bits),
    {
        Edges {
            top: bits & EDGE_TOP != 0,
            bottom: bits & EDGE_BOTTOM != 0,
            left: bits & EDGE_LEFT != 0,
            right: bits & EDGE_RIGHT != 0,
        }
    }
}

/// The sizes that a pointer drag asks for, each rounded to whole pixels: with the
/// drag added to the initial size, and with it taken away.
#[derive(Clone, Copy, Debug, PartialEq, Eq, Structural)]
pub struct Dragged {
    pub grown: Size,
    pub shrunk: Size,
}

/// One extent of a window after a resize: a client that sets no maximum has 0.
pub open spec fn limited(wanted: int, minimum: int, maximum: int) -> int {
    let low = larger(minimum, 1);
    let high = if maximum == 0 {
        i32::MAX as int
    } else {
        larger(maximum, low)
    };
    smaller(larger(wanted, low), high)
}

fn limit(wanted: i32, minimum: i32, maximum: i32) -> (r: i32)
    ensures
        r == limited(wanted as int, minimum as int, maximum as int),
{
    let low: i32 = max(minimum, 1);
    let high: i32 = if maximum == 0 {
        i32::MAX
    } else {
        max(maximum, low)
    };
    min(max(wanted, low), high)
}

pub open spec fn resized(
    initial: Size,
    dragged: Dragged,
    edges: Edges,
    minimum: Size,
    maximum: Size,
) -> Size {
    let width = if edges.left {
        dragged.shrunk.w
    } else if edges.right {
        dragged.grown.w
    } else {
        initial.w
    };
    let height = if edges.top {
        dragged.shrunk.h
    } else if edges.bottom {
        dragged.grown.h
    } else {
        initial.h
    };
    Size {
        w: limited(width as int, minimum.w as int, maximum.w as int) as i32,
        h: limited(height as int, minimum.h as int, maximum.h as int) as i32,
    }
}

/// The size that a drag gives to a window: an axis without a moved edge keeps its
/// initial extent, and both are brought into the client's limits.
pub fn resize_size(
    initial: Size,
    dragged: Dragged,
    edges: Edges,
    minimum: Size,
    maximum: Size,
) -> (r: Size)
    ensures
        r == resized(initial, dragged, edges, minimum, maximum),
{
    let width: i32 = if edges.left {
        dragged.shrunk.w
    } else if edges.right {
        dragged.grown.w
    } else {
        initial.w
    };
    let height: i32 = if edges.top {
        dragged.shrunk.h
    } else if edges.bottom {
        dragged.grown.h
    } else {
        initial.h
    };
    Size { w: limit(width, minimum.w, maximum.w), h: limit(height, minimum.h, maximum.h) }
}

/// A resized window is never empty, never smaller than its client's minimum, and
/// never larger than a maximum that is consistent with the minimum.
pub proof fn law_resize_honours_the_limits(
    initial: Size,
    dragged: Dragged,
    edges: Edges,
    minimum: Size,
    maximum: Size,
)
    ensures
        ({
            let size = resized(initial, dragged, edges, minimum, maximum);
            &&& size.w >= 1 && size.h >= 1
            &&& size.w >= minimum.w && size.h >= minimum.h
            &&& maximum.w >= larger(minimum.w as int, 1) ==> size.w <= maximum.w
            &&& maximum.h >= larger(minimum.h as int, 1) ==> size.h <= maximum.h
        }),
{
}

/// Whether the anchored corner of a resized window can be computed.
pub open spec fn room_to_anchor(initial: Rect, size: Size, edges: Edges) -> bool {
    &&& edges.left ==> i32::MIN <= initial.size.w - size.w <= i32::MAX && i32::MIN <= initial.loc.x
        + (initial.size.w - size.w) <= i32::MAX
    &&& edges.top ==> i32::MIN <= initial.size.h - size.h <= i32::MAX && i32::MIN <= initial.loc.y
        + (initial.size.h - size.h) <= i32::MAX
}

pub open spec fn anchored(initial: Rect, size: Size, edges: Edges) -> Point {
    Point {
        x: if edges.left {
            (initial.loc.x + (initial.size.w - size.w)) as i32
        } else {
            initial.loc.x
        },
        y: if edges.top {
            (initial.loc.y + (initial.size.h - size.h)) as i32
        } else {
            initial.loc.y
        },
    }
}

/// The location that keeps the edges that a resize does not move in place.
pub fn anchor(initial: Rect, size: Size, edges: Edges) -> (r: Point)
    requires
        room_to_anchor(initial, size, edges),
    ensures
        r == anchored(initial, size, edges),
{
    let mut location: Point = initial.loc;
    if edges.left {
        location.x = location.x + (initial.size.w - size.w);
    }
    if edges.top {
        location.y = location.y + (initial.size.h - size.h);
    }
    location
}

/// The edge opposite to the one that is dragged stays where it was.
pub proof fn law_resize_keeps_the_opposite_edge(initial: Rect, size: Size, edges: Edges)
    requires
        room_to_anchor(initial, size, edges),
    ensures
        ({
            let placed = anchored(initial, size, edges);
            &&& edges.left ==> placed.x + size.w == initial.loc.x + initial.size.w
            &&& !edges.left ==> placed.x == initial.loc.x
            &&& edges.top ==> placed.y + size.h == initial.loc.y + initial.size.h
            &&& !edges.top ==> placed.y == initial.loc.y
        }),
{
}

/// The part of the output in which a popup may be placed, relative to the popup's
/// parent: `popup` is where the parent lies in its toplevel, `window` where that
/// toplevel lies on the output.
pub fn popup_target(output: Rect, popup: Point, window: Point) -> (r: Rect)
    requires
        i32::MIN <= output.loc.x - popup.x <= i32::MAX,
        i32::MIN <= output.loc.y - popup.y <= i32::MAX,
        i32::MIN <= output.loc.x - popup.x - window.x <= i32::MAX,
        i32::MIN <= output.loc.y - popup.y - window.y <= i32::MAX,
    ensures
        r.loc.x == output.loc.x - popup.x - window.x,
        r.loc.y == output.loc.y - popup.y - window.y,
        r.size == output.size,
{
    Rect {
        loc: Point {
            x: output.loc.x - popup.x - window.x,
            y: output.loc.y - popup.y - window.y,
        },
        size: output.size,
    }
}

/// A window that fills its area fills the output together with its decorations: a bar
/// of 32 pixels ends at the top of the area and starts at the top of the output, and a
/// strip of 8 pixels starts at the bottom of the area and ends at the bottom of the
/// output, where the output is high enough for a window between them.
pub proof fn law_window_and_decorations_fill_the_output(output: Rect)
    requires
        room_for_decorations(output),
    ensures
        usable(output, false) == output,
        ({
            let area = usable(output, true);
            &&& area.loc.x == output.loc.x
            &&& area.size.w == output.size.w
            &&& area.loc.y - 32 == output.loc.y
            &&& output.size.h >= 41 ==> area.loc.y + area.size.h + 8 == output.loc.y + output.size.h
            &&& output.size.h < 41 ==> area.size.h == 1
        }),
{
}

/// What a press does by where it lands: on the bar, the 32 pixels above the window, it
/// closes the window within 32 pixels of the right end and moves it elsewhere; within
/// 24 pixels of the right end of the 8 pixels below, it resizes the window; anywhere
/// else it hits no decoration.
pub proof fn law_presses_act_by_where_they_land(layout: Layout, x: int, y: int)
    requires
        layout.size.w >= 0,
        layout.size.h >= 0,
    ensures
        ({
            let hit = layout.spec_hit(x, y);
            let w = layout.size.w;
            let h = layout.size.h;
            &&& hit == Some(DecorationAction::Close) <==> -32 <= y < 0 && 0 <= x < w && x + 32 >= w
            &&& hit == Some(DecorationAction::Move) <==> -32 <= y < 0 && 0 <= x && x + 32 < w
            &&& hit == Some(DecorationAction::Resize) <==> h <= y < h + 8 && 0 <= x < w && x + 24
                >= w
        }),
{
}

/// The painted parts lie where presses find them.
pub proof fn law_parts_lie_where_presses_find_them(layout: Layout, x: int, y: int)
    requires
        layout.size.w >= 0,
        layout.size.h >= 0,
    ensures
        layout.spec_close().holds(x, y) <==> layout.spec_hit(x, y) == Some(DecorationAction::Close),
        layout.spec_bar().holds(x, y) <==> layout.spec_hit(x, y) == Some(DecorationAction::Close)
            || layout.spec_hit(x, y) == Some(DecorationAction::Move),
        layout.spec_resize().holds(x, y) <==> layout.spec_hit(x, y) == Some(
            DecorationAction::Resize,
        ),
        layout.spec_bar().holds(x, y) <==> 0 <= x < layout.size.w && -32 <= y < 0,
{
}

pub open spec fn distance(a: int, b: int) -> int {
    if a >= b {
        a - b
    } else {
        b - a
    }
}

/// A window is moved no further than needed: no location at which it lies in its area
/// is nearer on either axis. A window that does not fit starts where its area does.
pub proof fn law_constrained_windows_move_least(
    location: Point,
    size: Size,
    area: Rect,
    other: Point,
)
    requires
        room_to_constrain(size, area),
    ensures
        ({
            let placed = constrained_location(location, size, area);
            &&& area.loc.x <= other.x && other.x + size.w <= area.loc.x + area.size.w ==> distance(
                placed.x as int,
                location.x as int,
            ) <= distance(other.x as int, location.x as int)
            &&& area.loc.y <= other.y && other.y + size.h <= area.loc.y + area.size.h ==> distance(
                placed.y as int,
                location.y as int,
            ) <= distance(other.y as int, location.y as int)
            &&& size.w > area.size.w ==> placed.x == area.loc.x
            &&& size.h > area.size.h ==> placed.y == area.loc.y
        }),
{
}

/// The first window starts 32 pixels from the corner, each further one 48 pixels on,
/// and the ninth where the first did.
pub proof fn law_windows_cascade(count: int)
    requires
        count >= 0,
    ensures
        cascade(0) == 32,
        count < 7 ==> cascade(count + 1) == cascade(count) + 48,
        cascade(count + 8) == cascade(count),
{
    assert((count + 8) % 8 == count % 8);
}

/// The bits of a resize request: 1 for the top edge, 2 for the bottom, 4 for the left
/// and 8 for the right one.
pub proof fn law_edges_are_bits(bits: u32)
    ensures
        edges_of(bits).top <==> bits % 2 == 1,
        edges_of(bits).bottom <==> (bits / 2) % 2 == 1,
        edges_of(bits).left <==> (bits / 4) % 2 == 1,
        edges_of(bits).right <==> (bits / 8) % 2 == 1,
{
    assert((bits & 1 != 0) == (bits % 2 == 1) && (bits & 2 != 0) == ((bits / 2) % 2 == 1) && (bits
        & 4 != 0) == ((bits / 4) % 2 == 1) && (bits & 8 != 0) == ((bits / 8) % 2 == 1))
        by (bit_vector);
}

/// A drag gives each axis the extent that it asks for, unless the client's limits are
/// in the way: the left and the top edge shrink the window as they are dragged on, the
/// right and the bottom one grow it, and an axis of which no edge moves keeps its
/// extent. Out of limits the nearer limit is taken; a maximum of zero is none, and no
/// window is narrower or lower than one pixel.
pub proof fn law_drags_resize_by_the_moved_edge(
    initial: Size,
    dragged: Dragged,
    edges: Edges,
    minimum: Size,
    maximum: Size,
)
    ensures
        ({
            let size = resized(initial, dragged, edges, minimum, maximum);
            &&& edges.left ==> follows(size.w, dragged.shrunk.w, minimum.w, maximum.w)
            &&& !edges.left && edges.right ==> follows(
                size.w,
                dragged.grown.w,
                minimum.w,
                maximum.w,
            )
            &&& !edges.left && !edges.right ==> follows(size.w, initial.w, minimum.w, maximum.w)
            &&& edges.top ==> follows(size.h, dragged.shrunk.h, minimum.h, maximum.h)
            &&& !edges.top && edges.bottom ==> follows(
                size.h,
                dragged.grown.h,
                minimum.h,
                maximum.h,
            )
            &&& !edges.top && !edges.bottom ==> follows(size.h, initial.h, minimum.h, maximum.h)
        }),
{
}

/// Whether an extent is the wanted one or the limit that stands in its way.
pub open spec fn follows(extent: i32, wanted: i32, minimum: i32, maximum: i32) -> bool {
    &&& extent >= 1 && extent >= minimum
    &&& extent > wanted ==> extent == 1 || extent == minimum
    &&& extent < wanted ==> maximum != 0 && (extent == maximum || extent == minimum || extent == 1)
    &&& maximum == 0 && wanted >= 1 && wanted >= minimum ==> extent == wanted
    &&& 1 <= wanted && minimum <= wanted <= maximum ==> extent == wanted
    &&& maximum >= 1 && maximum >= minimum ==> extent <= maximum
}

} // verus!
