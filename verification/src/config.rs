//! The terminal size a session is spawned with.
//!
//! The size is the one spawn parameter the provider needs besides the
//! command itself: visible rows and columns, and the optional pixel
//! dimensions some terminals report. A terminal with no rows or no
//! columns is meaningless, so such a size is refused before anything is
//! spawned.

use vstd::prelude::*;

use crate::errors::SessionError;

verus! {

/// The requested size of the pseudo-terminal.
#[derive(Clone, Copy, Debug, PartialEq, Eq, Structural)]
pub struct PtyDimensions {
    rows: u16,
    cols: u16,
    pixel_width: u16,
    pixel_height: u16,
}

impl PtyDimensions {
    /// Visible rows.
    pub closed spec fn rows_spec(&self) -> u16 {
        self.rows
    }

    /// Visible columns.
    pub closed spec fn cols_spec(&self) -> u16 {
        self.cols
    }

    /// Reported width in pixels; zero when unreported.
    pub closed spec fn pixel_width_spec(&self) -> u16 {
        self.pixel_width
    }

    /// Reported height in pixels; zero when unreported.
    pub closed spec fn pixel_height_spec(&self) -> u16 {
        self.pixel_height
    }

    /// A usable size shows at least one row and one column.
    pub open spec fn is_valid(&self) -> bool {
        self.rows_spec() > 0 && self.cols_spec() > 0
    }

    /// The customary default: 24 rows by 80 columns, pixels unreported.
    pub fn standard() -> (r: PtyDimensions)
        ensures
            r.rows_spec() == 24,
            r.cols_spec() == 80,
            r.pixel_width_spec() == 0,
            r.pixel_height_spec() == 0,
            r.is_valid(),
    {
        PtyDimensions { rows: 24, cols: 80, pixel_width: 0, pixel_height: 0 }
    }

    /// A size from explicit values; a degenerate one is a spawn failure
    /// before any process is created.
    pub fn new(rows: u16, cols: u16, pixel_width: u16, pixel_height: u16) -> (r: Result<
        PtyDimensions,
        SessionError,
    >)
        ensures
            (r is Ok) == (rows > 0 && cols > 0),
            r matches Ok(d) ==> {
                &&& d.rows_spec() == rows
                &&& d.cols_spec() == cols
                &&& d.pixel_width_spec() == pixel_width
                &&& d.pixel_height_spec() == pixel_height
                &&& d.is_valid()
            },
            r matches Err(e) ==> e is Spawn,
    {
        if rows == 0 || cols == 0 {
            return Err(SessionError::Spawn);
        }
        Ok(PtyDimensions { rows, cols, pixel_width, pixel_height })
    }

    /// Visible rows.
    pub fn rows(&self) -> (r: u16)
        ensures
            r == self.rows_spec(),
    {
        self.rows
    }

    /// Visible columns.
    pub fn cols(&self) -> (r: u16)
        ensures
            r == self.cols_spec(),
    {
        self.cols
    }

    /// Reported width in pixels; zero when unreported.
    pub fn pixel_width(&self) -> (r: u16)
        ensures
            r == self.pixel_width_spec(),
    {
        self.pixel_width
    }

    /// Reported height in pixels; zero when unreported.
    pub fn pixel_height(&self) -> (r: u16)
        ensures
            r == self.pixel_height_spec(),
    {
        self.pixel_height
    }
}

} // verus!
