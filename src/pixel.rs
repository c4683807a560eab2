use crate::error::Error;
use vstd::prelude::*;

verus! {

/// A cell of a photograph's raster: column and row, counted from the top left corner.
#[derive(Clone, Copy, Debug, PartialEq, Eq, Structural)]
pub struct Pixel {
    pub col: u32,
    pub row: u32,
}

/// Whether the cell at `col`, `row` lies on a raster of `width` by `height` cells.
pub open spec fn in_raster(col: int, row: int, width: int, height: int) -> bool {
    0 <= col < width && 0 <= row < height
}

/// The dimensions of a photograph's raster, in pixels; both are positive.
#[derive(Clone, Copy, Debug, PartialEq, Eq, Structural)]
pub struct ImageSize {
    width: u32,
    height: u32,
}

impl ImageSize {
    pub closed spec fn spec_width(&self) -> int {
        self.width as int
    }

    pub closed spec fn spec_height(&self) -> int {
        self.height as int
    }

    /// Both dimensions are positive.
    pub closed spec fn wf(&self) -> bool {
        self.width > 0 && self.height > 0
    }

    /// A raster of `width` by `height` pixels; one without pixels is refused.
    pub fn new(width: u32, height: u32) -> (r: Result<ImageSize, Error>)
        ensures
            (width == 0 || height == 0) <==> r == Err::<ImageSize, Error>(
                Error::ConfigurationInvalid,
            ),
            r matches Ok(s) ==> s.wf() && s.spec_width() == width && s.spec_height() == height,
    {
        if width == 0 || height == 0 {
            Err(Error::ConfigurationInvalid)
        } else {
            Ok(ImageSize { width, height })
        }
    }

    pub fn width(&self) -> (r: u32)
        ensures
            r == self.spec_width(),
    {
        self.width
    }

    pub fn height(&self) -> (r: u32)
        ensures
            r == self.spec_height(),
    {
        self.height
    }

    /// The cell that holds the pixel coordinate whose floor is (`col`, `row`), if it lies on the
    /// raster. A coordinate `u` lies in `[0, width)` exactly when its floor does, so the bounds
    /// of a projected pixel are decided on these integers.
    pub fn cell(&self, col: i64, row: i64) -> (r: Option<Pixel>)
        ensures
            r is Some <==> in_raster(col as int, row as int, self.spec_width(), self.spec_height()),
            r matches Some(p) ==> p.col == col && p.row == row,
    {
        if 0 <= col && col < self.width as i64 && 0 <= row && row < self.height as i64 {
            Some(Pixel { col: col as u32, row: row as u32 })
        } else {
            None
        }
    }
}

} // verus!
