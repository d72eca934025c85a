use vstd::prelude::*;

verus! {

/// A square of pixels, row by row; a pixel is alpha, red, green and blue,
/// or nothing where the tile is empty.
pub struct Tile {
    pub data: Vec<Option<[u8; 4]>>,
    pub width: u16,
    pub height: u16,
}

/// Where pixel (x, y) sits in `data`: rows of `len / width` pixels.
pub open spec fn pixel_index(len: int, width: int, x: int, y: int) -> int {
    (len / width) * y + x
}

impl Tile {
    /// The pixel at column `x` and row `y`: `None` when `x` is past the
    /// width or `y` past the height, else the entry at `pixel_index`.
    pub fn get_pixel(&self, x: u16, y: u16) -> (r: Option<[u8; 4]>)
        requires
            x <= self.width && y <= self.height ==> self.width > 0 && pixel_index(
                self.data@.len() as int,
                self.width as int,
                x as int,
                y as int,
            ) < self.data@.len(),
        ensures
            r == (if x > self.width || y > self.height {
                None
            } else {
                self.data@[pixel_index(
                    self.data@.len() as int,
                    self.width as int,
                    x as int,
                    y as int,
                )]
            }),
    {
        if x > self.width || y > self.height {
            return None;
        }
        let row = self.data.len() / (self.width as usize);
        assert(row * (y as int) <= pixel_index(self.data@.len() as int, self.width as int, x as int, y as int));
        let idx = row * (y as usize) + (x as usize);
        self.data[idx]
    }
}

/// A character cell: its colour (red, green, blue, alpha) and character.
pub struct CharTile {
    pub color: [u8; 4],
    pub char: char,
}

/// Drawing something as one character cell.
pub trait TileToChar {
    /// A white dot.
    fn to_char(&self) -> (c: CharTile)
        default_ensures
            c.color@ == seq![255u8, 255, 255, 255],
            c.char == '.',
    {
        let color = [255u8, 255, 255, 255];
        assert(color@ =~= seq![255u8, 255, 255, 255]);
        CharTile { color, char: '.' }
    }
}

/// The character a whole tile is drawn as: a blank.
pub fn to_char(tile: Tile) -> (c: char)
    ensures
        c == ' ',
{
    ' '
}

} // verus!
