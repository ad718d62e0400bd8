use vstd::prelude::*;

verus! {

/// The terminal size associated with a pty: character rows and columns, plus
/// optional pixel dimensions relayed verbatim to the kernel.
#[derive(Debug, Clone, Copy, PartialEq, Eq, Structural)]
pub struct Size {
    pub row: u16,
    pub col: u16,
    pub xpixel: u16,
    pub ypixel: u16,
}

impl Size {
    /// A size with the given number of rows and columns and zero pixel
    /// dimensions.
    pub fn new(row: u16, col: u16) -> (s: Size)
        ensures
            s.row == row,
            s.col == col,
            s.xpixel == 0,
            s.ypixel == 0,
    {
        Size { row, col, xpixel: 0, ypixel: 0 }
    }

    /// A size with the given number of rows and columns, as well as the given
    /// pixel dimensions.
    pub fn new_with_pixel(row: u16, col: u16, xpixel: u16, ypixel: u16) -> (s: Size)
        ensures
            s.row == row,
            s.col == col,
            s.xpixel == xpixel,
            s.ypixel == ypixel,
    {
        Size { row, col, xpixel, ypixel }
    }
}

} // verus!
