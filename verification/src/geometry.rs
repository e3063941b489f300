use vstd::prelude::*;

verus! {

/// A size in physical pixels.
#[derive(Clone, Copy, Debug, PartialEq, Eq, Structural)]
pub struct Size {
    pub width: u32,
    pub height: u32,
}

/// The same size with width and height exchanged.
pub open spec fn spec_swapped(size: Size) -> Size {
    Size { width: size.height, height: size.width }
}

/// The size to request when the window's dimensions are swapped.
pub fn swap_dimensions(size: Size) -> (swapped: Size)
    ensures
        swapped == spec_swapped(size),
{
    let mut width = size.width;
    let mut height = size.height;
    std::mem::swap(&mut width, &mut height);
    Size { width, height }
}

/// Swapping the dimensions twice gives back the original size.
pub proof fn lemma_swap_dimensions_involutive(size: Size)
    ensures
        spec_swapped(spec_swapped(size)) == size,
{
}

/// After asking the windowing system for a new inner size, the size the
/// drawing surface must be resized to: the granted size, when the request was
/// answered at once and actually changed the size.
pub open spec fn spec_resize_after_request(old: Size, granted: Option<Size>) -> Option<Size> {
    match granted {
        Some(new) => if new == old { None } else { Some(new) },
        None => None,
    }
}

/// Decides whether the surface is resized after a size request was answered
/// with `granted` (`None`: the request is handled asynchronously).
pub fn resize_after_request(old: Size, granted: Option<Size>) -> (resize: Option<Size>)
    ensures
        resize == spec_resize_after_request(old, granted),
{
    match granted {
        Some(new) => if new == old {
            None
        } else {
            Some(new)
        },
        None => None,
    }
}

/// A drawing surface can only take a size whose both sides are non-zero.
pub open spec fn spec_surface_extent(size: Size) -> Option<Size> {
    if size.width != 0 && size.height != 0 {
        Some(size)
    } else {
        None
    }
}

/// The extent the drawing surface is resized to after the window took `size`;
/// `None` when a side is zero, in which case nothing is resized or redrawn.
pub fn surface_extent(size: Size) -> (extent: Option<Size>)
    ensures
        extent == spec_surface_extent(size),
        extent matches Some(e) ==> e.width > 0 && e.height > 0,
{
    if size.width == 0 || size.height == 0 {
        None
    } else {
        Some(size)
    }
}

/// Where a coordinate lies relative to the resize border along one axis:
/// inside the border at the low end, in the middle, or inside the border at
/// the high end.
#[derive(Clone, Copy, Debug, PartialEq, Eq, Structural)]
pub enum EdgeZone {
    Start,
    Middle,
    End,
}

/// The edge or corner a drag-resize pulls on.
#[derive(Clone, Copy, Debug, PartialEq, Eq, Structural)]
pub enum ResizeDirection {
    East,
    North,
    NorthEast,
    NorthWest,
    South,
    SouthEast,
    SouthWest,
    West,
}

/// The direction of a drag-resize started with the cursor in zone `x`
/// horizontally (start = west) and `y` vertically (start = north); no
/// direction when the cursor is away from every border.
pub open spec fn spec_resize_direction(x: EdgeZone, y: EdgeZone) -> Option<ResizeDirection> {
    match (x, y) {
        (EdgeZone::Start, EdgeZone::Start) => Some(ResizeDirection::NorthWest),
        (EdgeZone::Start, EdgeZone::Middle) => Some(ResizeDirection::West),
        (EdgeZone::Start, EdgeZone::End) => Some(ResizeDirection::SouthWest),
        (EdgeZone::Middle, EdgeZone::Start) => Some(ResizeDirection::North),
        (EdgeZone::Middle, EdgeZone::Middle) => None,
        (EdgeZone::Middle, EdgeZone::End) => Some(ResizeDirection::South),
        (EdgeZone::End, EdgeZone::Start) => Some(ResizeDirection::NorthEast),
        (EdgeZone::End, EdgeZone::Middle) => Some(ResizeDirection::East),
        (EdgeZone::End, EdgeZone::End) => Some(ResizeDirection::SouthEast),
    }
}

/// Whether a direction pulls on the west edge.
pub open spec fn pulls_west(d: ResizeDirection) -> bool {
    d == ResizeDirection::West || d == ResizeDirection::NorthWest || d == ResizeDirection::SouthWest
}

/// Whether a direction pulls on the east edge.
pub open spec fn pulls_east(d: ResizeDirection) -> bool {
    d == ResizeDirection::East || d == ResizeDirection::NorthEast || d == ResizeDirection::SouthEast
}

/// Whether a direction pulls on the north edge.
pub open spec fn pulls_north(d: ResizeDirection) -> bool {
    d == ResizeDirection::North || d == ResizeDirection::NorthWest || d == ResizeDirection::NorthEast
}

/// Whether a direction pulls on the south edge.
pub open spec fn pulls_south(d: ResizeDirection) -> bool {
    d == ResizeDirection::South || d == ResizeDirection::SouthWest || d == ResizeDirection::SouthEast
}

/// Picks the drag-resize direction from the cursor's zone on each axis.
///
/// Each axis is first turned into a direction of its own, with south-east
/// standing for "no border on this axis", and the pair is then combined.
pub fn resize_direction(x: EdgeZone, y: EdgeZone) -> (direction: Option<ResizeDirection>)
    ensures
        direction == spec_resize_direction(x, y),
{
    let x_direction = match x {
        EdgeZone::Start => ResizeDirection::West,
        EdgeZone::End => ResizeDirection::East,
        EdgeZone::Middle => ResizeDirection::SouthEast,
    };
    let y_direction = match y {
        EdgeZone::Start => ResizeDirection::North,
        EdgeZone::End => ResizeDirection::South,
        EdgeZone::Middle => ResizeDirection::SouthEast,
    };
    match (x_direction, y_direction) {
        (ResizeDirection::West, ResizeDirection::North) => Some(ResizeDirection::NorthWest),
        (ResizeDirection::West, ResizeDirection::South) => Some(ResizeDirection::SouthWest),
        (ResizeDirection::West, _) => Some(ResizeDirection::West),
        (ResizeDirection::East, ResizeDirection::North) => Some(ResizeDirection::NorthEast),
        (ResizeDirection::East, ResizeDirection::South) => Some(ResizeDirection::SouthEast),
        (ResizeDirection::East, _) => Some(ResizeDirection::East),
        (_, ResizeDirection::South) => Some(ResizeDirection::South),
        (_, ResizeDirection::North) => Some(ResizeDirection::North),
        _ => None,
    }
}

/// A drag-resize pulls on the west (east) edge exactly when the cursor is in
/// the west (east) border, on the north (south) edge exactly when it is in the
/// north (south) border, and there is no drag-resize exactly when the cursor
/// is in no border at all.
pub proof fn lemma_resize_direction_follows_zones(x: EdgeZone, y: EdgeZone)
    ensures
        spec_resize_direction(x, y) is None <==> (x == EdgeZone::Middle && y == EdgeZone::Middle),
        spec_resize_direction(x, y) matches Some(d) ==> {
            &&& pulls_west(d) <==> x == EdgeZone::Start
            &&& pulls_east(d) <==> x == EdgeZone::End
            &&& pulls_north(d) <==> y == EdgeZone::Start
            &&& pulls_south(d) <==> y == EdgeZone::End
        },
{
}

/// The swapped size has the old height as its width and the old width as its
/// height.
pub proof fn lemma_swap_exchanges_sides(size: Size)
    ensures
        spec_swapped(size).width == size.height,
        spec_swapped(size).height == size.width,
{
}

/// The surface is resized exactly when the request was answered at once with
/// a size that differs from the old one in at least one side, and then to
/// exactly the granted size.
pub proof fn lemma_resize_after_request_on_change(old: Size, granted: Option<Size>)
    ensures
        granted is None ==> spec_resize_after_request(old, granted) is None,
        granted matches Some(n) ==> {
            &&& (spec_resize_after_request(old, granted) is Some) <==> (n.width != old.width
                || n.height != old.height)
            &&& spec_resize_after_request(old, granted) matches Some(r) ==> r == n
        },
{
}

/// The surface takes the window's size exactly when both sides are non-zero.
pub proof fn lemma_surface_extent_nonzero(size: Size)
    ensures
        (spec_surface_extent(size) is Some) <==> (size.width > 0 && size.height > 0),
        spec_surface_extent(size) matches Some(e) ==> e.width == size.width && e.height == size.height,
{
}

} // verus!
