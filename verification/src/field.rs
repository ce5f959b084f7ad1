//! The play area, supplied once when a game is set up.

use vstd::prelude::*;

verus! {

/// Largest width or height of a field, in sub-units. It keeps every coordinate of
/// the game well inside the range of `i32`.
pub const MAX_FIELD_SIZE: i32 = 1_000_000_000;

/// Width and height of the play area in sub-units. The field is centred on the
/// origin: it spans `-width / 2 ..= width / 2` horizontally and likewise vertically,
/// with `y` growing upwards.
#[derive(Clone, Copy, Debug, PartialEq, Eq)]
pub struct Field {
    pub width: i32,
    pub height: i32,
}

/// The mathematical value of a [`Field`].
pub struct FieldView {
    pub width: int,
    pub height: int,
}

impl View for Field {
    type V = FieldView;

    open spec fn view(&self) -> FieldView {
        FieldView { width: self.width as int, height: self.height as int }
    }
}

impl FieldView {
    /// Both dimensions are positive and no larger than [`MAX_FIELD_SIZE`].
    pub open spec fn wf(self) -> bool {
        &&& 0 < self.width <= MAX_FIELD_SIZE
        &&& 0 < self.height <= MAX_FIELD_SIZE
    }

    /// Distance from the centre to the left or right edge.
    pub open spec fn half_width(self) -> int {
        self.width / 2
    }

    /// Distance from the centre to the top or bottom edge.
    pub open spec fn half_height(self) -> int {
        self.height / 2
    }
}

impl Field {
    /// A field of the given size.
    pub fn new(width: i32, height: i32) -> (field: Field)
        requires
            0 < width <= MAX_FIELD_SIZE,
            0 < height <= MAX_FIELD_SIZE,
        ensures
            field@.wf(),
            field@.width == width,
            field@.height == height,
    {
        Field { width, height }
    }

    /// Whether the dimensions are those of a valid field.
    pub fn is_valid(&self) -> (ok: bool)
        ensures
            ok == self@.wf(),
    {
        0 < self.width && self.width <= MAX_FIELD_SIZE && 0 < self.height && self.height
            <= MAX_FIELD_SIZE
    }

    /// Distance from the centre to the left or right edge.
    pub fn half_width(&self) -> (half: i32)
        requires
            self@.wf(),
        ensures
            half == self@.half_width(),
            0 <= half <= MAX_FIELD_SIZE / 2,
    {
        self.width / 2
    }

    /// Distance from the centre to the top or bottom edge.
    pub fn half_height(&self) -> (half: i32)
        requires
            self@.wf(),
        ensures
            half == self@.half_height(),
            0 <= half <= MAX_FIELD_SIZE / 2,
    {
        self.height / 2
    }
}

} // verus!
