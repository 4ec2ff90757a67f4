use vstd::prelude::*;

verus! {

/// Smallest brush width a user can select.
pub const MIN_WIDTH: u32 = 1;

/// Largest brush width a user can select.
pub const MAX_WIDTH: u32 = 99;

/// Colour that strokes are filled with.
#[derive(Clone, Copy, Debug, PartialEq, Eq, Structural)]
pub enum InkColor {
    Black,
    White,
}

impl InkColor {
    /// The other one of the two colours.
    pub open spec fn spec_inverted(self) -> InkColor {
        match self {
            InkColor::Black => InkColor::White,
            InkColor::White => InkColor::Black,
        }
    }

    pub fn inverted(self) -> (r: InkColor)
        ensures
            r == self.spec_inverted(),
    {
        match self {
            InkColor::Black => InkColor::White,
            InkColor::White => InkColor::Black,
        }
    }
}

/// The brush the user has selected: drawing in black or erasing in white,
/// each with a width.
#[derive(Clone, Copy, Debug, PartialEq, Eq, Structural)]
pub enum DrawMode {
    Draw(u32),
    Erase(u32),
}

/// `value` clamped into `[MIN_WIDTH, MAX_WIDTH]`.
pub open spec fn clamp_width(value: int) -> int {
    if value < MIN_WIDTH as int {
        MIN_WIDTH as int
    } else if value > MAX_WIDTH as int {
        MAX_WIDTH as int
    } else {
        value
    }
}

impl DrawMode {
    pub open spec fn width(self) -> u32 {
        match self {
            DrawMode::Draw(s) => s,
            DrawMode::Erase(s) => s,
        }
    }

    pub open spec fn is_erase(self) -> bool {
        self is Erase
    }

    /// A width the user can select.
    pub open spec fn wf(self) -> bool {
        MIN_WIDTH <= self.width() <= MAX_WIDTH
    }

    /// The same kind of brush with another width.
    pub open spec fn with_width(self, new_size: u32) -> DrawMode {
        match self {
            DrawMode::Draw(_) => DrawMode::Draw(new_size),
            DrawMode::Erase(_) => DrawMode::Erase(new_size),
        }
    }

    /// The fill colour of the brush, before any tool override.
    pub open spec fn base_color(self) -> InkColor {
        match self {
            DrawMode::Draw(_) => InkColor::Black,
            DrawMode::Erase(_) => InkColor::White,
        }
    }

    /// The brush after the eraser toggle: kind swapped, width kept.
    pub open spec fn spec_toggled(self) -> DrawMode {
        match self {
            DrawMode::Draw(s) => DrawMode::Erase(s),
            DrawMode::Erase(s) => DrawMode::Draw(s),
        }
    }

    /// The brush after a width change by `delta`, clamped to the legal range.
    pub open spec fn spec_resized(self, delta: int) -> DrawMode {
        self.with_width(clamp_width(self.width() + delta) as u32)
    }

    pub fn set_size(self, new_size: u32) -> (r: DrawMode)
        ensures
            r == self.with_width(new_size),
    {
        match self {
            DrawMode::Draw(_) => DrawMode::Draw(new_size),
            DrawMode::Erase(_) => DrawMode::Erase(new_size),
        }
    }

    pub fn get_size(self) -> (r: u32)
        ensures
            r == self.width(),
    {
        match self {
            DrawMode::Draw(s) => s,
            DrawMode::Erase(s) => s,
        }
    }

    pub fn color(self) -> (r: InkColor)
        ensures
            r == self.base_color(),
    {
        match self {
            DrawMode::Draw(_) => InkColor::Black,
            DrawMode::Erase(_) => InkColor::White,
        }
    }

    /// Name of the fill colour: "Black" when drawing, "White" when erasing.
    pub fn color_as_string(self) -> (r: String)
        ensures
            self is Draw ==> r@ == "Black"@,
            self is Erase ==> r@ == "White"@,
    {
        match self {
            DrawMode::Draw(_) => String::from_str("Black"),
            DrawMode::Erase(_) => String::from_str("White"),
        }
    }

    /// Swaps drawing and erasing, keeping the width.
    pub fn toggled(self) -> (r: DrawMode)
        ensures
            r == self.spec_toggled(),
            r.width() == self.width(),
            r.is_erase() != self.is_erase(),
    {
        match self {
            DrawMode::Draw(s) => DrawMode::Erase(s),
            DrawMode::Erase(s) => DrawMode::Draw(s),
        }
    }

    /// Changes the width by `delta`, clamped into `[MIN_WIDTH, MAX_WIDTH]`;
    /// the kind of brush is kept.
    pub fn resized(self, delta: i32) -> (r: DrawMode)
        ensures
            r == self.spec_resized(delta as int),
            r.wf(),
            r.is_erase() == self.is_erase(),
            self.wf() && r.width() == self.width() ==> r == self,
    {
        let current: i64 = self.get_size() as i64;
        let proposed: i64 = current + delta as i64;
        let new_size: i64 = if proposed < MIN_WIDTH as i64 {
            MIN_WIDTH as i64
        } else if proposed > MAX_WIDTH as i64 {
            MAX_WIDTH as i64
        } else {
            proposed
        };
        if new_size == current {
            return self;
        }
        self.set_size(new_size as u32)
    }
}

/// Toggling the eraser twice gives back the same brush, kind and width.
pub proof fn lemma_toggle_twice(m: DrawMode)
    ensures
        m.spec_toggled().spec_toggled() == m,
{
}

/// At the ends of the range a width change past the end leaves the width
/// where it is: shrinking from the smallest width, or growing from the
/// largest, gives back the same brush.
pub proof fn lemma_resize_saturates(m: DrawMode, delta: int)
    ensures
        m.width() == MIN_WIDTH && delta <= 0 ==> m.spec_resized(delta) == m,
        m.width() == MAX_WIDTH && delta >= 0 ==> m.spec_resized(delta) == m,
{
}

} // verus!
