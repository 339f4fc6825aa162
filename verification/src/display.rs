//! The display surface: a monochrome pixel grid that the interpreter draws on
//! and its driver owns and shows.

use vstd::prelude::*;

verus! {

/// Number of pixels in a row.
pub const DISPLAY_WIDTH: usize = 64;

/// Number of rows.
pub const DISPLAY_HEIGHT: usize = 32;

/// Number of pixels on the surface.
pub const DISPLAY_PIXELS: usize = 2048;

/// The surface with every pixel off.
pub open spec fn spec_blank() -> Seq<bool> {
    Seq::new(DISPLAY_PIXELS as nat, |i: int| false)
}

/// Whether column `x` of row `y` is a pixel of the surface.
pub open spec fn spec_on_grid(x: int, y: int) -> bool {
    0 <= x < DISPLAY_WIDTH && 0 <= y < DISPLAY_HEIGHT
}

/// Where the pixel at column `x` of row `y` stands in the row-major sequence.
pub open spec fn spec_offset(x: int, y: int) -> int {
    y * DISPLAY_WIDTH + x
}

/// A 64×32 grid of pixels, each on or off. Its view holds the rows one after
/// another, the top row first.
pub struct Display {
    pixels: Vec<bool>,
}

impl View for Display {
    type V = Seq<bool>;

    closed spec fn view(&self) -> Seq<bool> {
        self.pixels@
    }
}

impl Display {
    /// Every surface holds exactly `DISPLAY_PIXELS` pixels.
    #[verifier::type_invariant]
    pub open spec fn sized(&self) -> bool {
        self@.len() == DISPLAY_PIXELS
    }

    /// A blank surface.
    pub fn new() -> (display: Display)
        ensures
            display@ == spec_blank(),
    {
        let mut pixels: Vec<bool> = Vec::with_capacity(DISPLAY_PIXELS);
        let mut i: usize = 0;
        while i < DISPLAY_PIXELS
            invariant
                i <= DISPLAY_PIXELS,
                pixels@ == Seq::new(i as nat, |k: int| false),
            decreases DISPLAY_PIXELS - i,
        {
            pixels.push(false);
            i += 1;
        }
        Display { pixels }
    }

    /// Turns every pixel off.
    pub fn clear(&mut self)
        ensures
            final(self)@ == spec_blank(),
    {
        proof {
            use_type_invariant(&*self);
        }
        let mut i: usize = 0;
        while i < DISPLAY_PIXELS
            invariant
                i <= DISPLAY_PIXELS,
                self.pixels@.len() == DISPLAY_PIXELS,
                forall|k: int| 0 <= k < i ==> !self.pixels@[k],
            decreases DISPLAY_PIXELS - i,
        {
            self.pixels[i] = false;
            i += 1;
        }
    }

    /// Turns the pixel at column `x` of row `y` on or off. Coordinates off the
    /// grid name no pixel: the surface stays as it was and `false` is returned.
    pub fn set_pixel(&mut self, x: usize, y: usize, on: bool) -> (drawn: bool)
        ensures
            drawn == spec_on_grid(x as int, y as int),
            drawn ==> final(self)@ == old(self)@.update(spec_offset(x as int, y as int), on),
            !drawn ==> final(self)@ == old(self)@,
    {
        proof {
            use_type_invariant(&*self);
        }
        if x < DISPLAY_WIDTH && y < DISPLAY_HEIGHT {
            self.pixels[y * DISPLAY_WIDTH + x] = on;
            true
        } else {
            false
        }
    }

    /// Whether the pixel at column `x` of row `y` is on; `None` off the grid.
    pub fn pixel(&self, x: usize, y: usize) -> (pixel: Option<bool>)
        ensures
            spec_on_grid(x as int, y as int) ==> pixel == Some(
                self@[spec_offset(x as int, y as int)],
            ),
            !spec_on_grid(x as int, y as int) ==> pixel == None::<bool>,
    {
        proof {
            use_type_invariant(self);
        }
        if x < DISPLAY_WIDTH && y < DISPLAY_HEIGHT {
            Some(self.pixels[y * DISPLAY_WIDTH + x])
        } else {
            None
        }
    }
}

} // verus!
