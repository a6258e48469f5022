//! Pixel art: a picture, reduced to a few coloured blocks.

use crate::config::{PixelArtConfig, Position};
use crate::text::{chars_of, push_all, string_of};
use crate::ui::widgets::{make_widget_id, widget_id};
use std::path::PathBuf;
use vstd::prelude::*;

verus! {

/// The colour of one pixel.
#[derive(Debug, Clone, Copy, PartialEq, Eq, Structural)]
pub struct PixelColor {
    pub r: u8,
    pub g: u8,
    pub b: u8,
}

/// The block that stands for a shade of grey, from black (0) to white
/// (255): the darker the shade, the thinner the block.
pub open spec fn block_for(gray: u8) -> Seq<char> {
    if gray <= 31 {
        " "@
    } else if gray <= 63 {
        "░"@
    } else if gray <= 95 {
        "▒"@
    } else if gray <= 127 {
        "▓"@
    } else {
        "█"@
    }
}

impl PixelColor {
    /// The block that stands for a shade of grey.
    pub fn to_block_char(gray: u8) -> (r: &'static str)
        ensures
            r@ == block_for(gray),
    {
        if gray <= 31 {
            " "
        } else if gray <= 63 {
            "░"
        } else if gray <= 95 {
            "▒"
        } else if gray <= 127 {
            "▓"
        } else {
            "█"
        }
    }
}

/// A picture as rows of pixels, with the size it has and the size it had
/// before it was reduced.
#[derive(Debug, Clone)]
pub struct PixelData {
    pub pixels: Vec<Vec<PixelColor>>,
    pub width: u32,
    pub height: u32,
    pub original_width: u32,
    pub original_height: u32,
}

/// The pixel at column `x` of row `y` in a picture of the given width that
/// is stored row by row, three bytes for each pixel: red, green, blue.
pub open spec fn pixel_at(raw: Seq<u8>, width: int, x: int, y: int) -> PixelColor {
    PixelColor {
        r: raw[3 * (y * width + x)],
        g: raw[3 * (y * width + x) + 1],
        b: raw[3 * (y * width + x) + 2],
    }
}

impl PixelData {
    /// There are `height` rows of `width` pixels each.
    pub open spec fn well_formed(&self) -> bool {
        &&& self.pixels.len() == self.height
        &&& forall|y: int| 0 <= y < self.height ==> (#[trigger] self.pixels[y]).len() == self.width
    }

    /// The picture that the bytes `raw` hold row by row, three for each
    /// pixel. There is none where the number of bytes does not fit the
    /// size.
    pub fn from_rgb(
        raw: &Vec<u8>,
        width: u32,
        height: u32,
        original_width: u32,
        original_height: u32,
    ) -> (r: Option<PixelData>)
        ensures
            r is Some <==> raw.len() == 3 * width * height,
            match r {
                Some(data) => {
                    &&& data.well_formed()
                    &&& data.width == width
                    &&& data.height == height
                    &&& data.original_width == original_width
                    &&& data.original_height == original_height
                    &&& forall|y: int, x: int|
                        0 <= y < height && 0 <= x < width ==> #[trigger] data.pixels[y][x]
                            == pixel_at(raw@, width as int, x, y)
                },
                None => true,
            },
    {
        assert(width * height <= 0xFFFF_FFFF * 0xFFFF_FFFF) by (nonlinear_arith)
            requires
                width <= 0xFFFF_FFFF,
                height <= 0xFFFF_FFFF,
        ;
        let area: u128 = (width as u128) * (height as u128);
        let wanted: u128 = 3 * area;
        assert(wanted == 3 * width * height) by (nonlinear_arith)
            requires
                wanted == 3 * (width * height),
        ;
        if raw.len() as u128 != wanted {
            return None;
        }
        let mut pixels: Vec<Vec<PixelColor>> = Vec::new();
        let mut k: usize = 0;
        let mut y: u32 = 0;
        while y < height
            invariant
                y <= height,
                raw.len() == 3 * width * height,
                k == 3 * (y * width),
                pixels.len() == y,
                forall|j: int| 0 <= j < y ==> (#[trigger] pixels[j]).len() == width,
                forall|j: int, x: int|
                    0 <= j < y && 0 <= x < width ==> #[trigger] pixels[j][x] == pixel_at(
                        raw@,
                        width as int,
                        x,
                        j,
                    ),
            decreases height - y,
        {
            let mut row: Vec<PixelColor> = Vec::new();
            let mut x: u32 = 0;
            while x < width
                invariant
                    x <= width,
                    y < height,
                    raw.len() == 3 * width * height,
                    k == 3 * (y * width + x),
                    row.len() == x,
                    forall|i: int|
                        0 <= i < x ==> #[trigger] row[i] == pixel_at(raw@, width as int, i, y as int),
                decreases width - x,
            {
                assert(3 * (y * width + x) + 3 <= 3 * width * height) by (nonlinear_arith)
                    requires
                        x < width,
                        y < height,
                ;
                row.push(PixelColor { r: raw[k], g: raw[k + 1], b: raw[k + 2] });
                k += 3;
                x += 1;
            }
            assert(3 * (y * width + width) == 3 * ((y + 1) * width)) by (nonlinear_arith);
            pixels.push(row);
            y += 1;
        }
        Some(PixelData { pixels, width, height, original_width, original_height })
    }

    /// The rows that are shown, first and one past the last, where the
    /// picture is scrolled down by `scroll_offset` rows in an area of
    /// `area_height` lines, two of which the heading takes.
    pub fn visible_rows(&self, scroll_offset: usize, area_height: u16) -> (r: (usize, usize))
        ensures
            r.0 <= r.1 <= self.height,
            r.1 - r.0 == visible_count(self.height, area_height),
            r.0 == if scroll_offset < self.height - visible_count(self.height, area_height) {
                scroll_offset as int
            } else {
                self.height - visible_count(self.height, area_height)
            },
    {
        let room: u16 = if area_height >= 2 {
            area_height - 2
        } else {
            0
        };
        let height: usize = self.height as usize;
        let count: usize = if (room as usize) < height {
            room as usize
        } else {
            height
        };
        let last_start: usize = height - count;
        let start: usize = if scroll_offset < last_start {
            scroll_offset
        } else {
            last_start
        };
        (start, start + count)
    }
}

/// How many rows of a picture of `height` rows an area of `area_height`
/// lines shows: what is left of the area after the two lines of the
/// heading, and no more than there are.
pub open spec fn visible_count(height: u32, area_height: u16) -> int {
    let room = if area_height >= 2 {
        area_height - 2
    } else {
        0
    };
    if room < height {
        room
    } else {
        height as int
    }
}

/// The pixel art widget.
#[derive(Debug, Clone)]
pub struct PixelArtWidget {
    pub id: String,
    pub title: String,
    pub position: Position,
    pub selected: bool,
    pub image_path: Option<PathBuf>,
    pub pixel_data: Option<PixelData>,
    pub pixel_size: u32,
    pub error_message: Option<String>,
    pub scroll_offset: usize,
}

/// The size that a picture is reduced to where the setup names none.
pub const DEFAULT_PIXEL_SIZE: u32 = 32;

impl PixelArtWidget {
    /// The size that `config` asks the picture to be reduced to.
    pub fn target_size(config: &PixelArtConfig) -> (r: u32)
        ensures
            r == match config.pixel_size {
                Some(size) => size,
                None => DEFAULT_PIXEL_SIZE,
            },
    {
        match config.pixel_size {
            Some(size) => size,
            None => DEFAULT_PIXEL_SIZE,
        }
    }

    /// A widget as `config` sets it up. `loaded` is the picture of the
    /// file that `config` names, where it could be read; it is shown only
    /// where `config` names a file.
    pub fn new(config: PixelArtConfig, loaded: Option<PixelData>) -> (r: Self)
        ensures
            r.id@ == widget_id("pixelart"@, config.position.row, config.position.col),
            r.title == config.title,
            r.position == config.position,
            !r.selected,
            r.image_path == config.image_path,
            r.pixel_data == if config.image_path is Some {
                loaded
            } else {
                None
            },
            r.pixel_size == match config.pixel_size {
                Some(size) => size,
                None => DEFAULT_PIXEL_SIZE,
            },
            r.error_message is None,
            r.scroll_offset == 0,
    {
        let pixel_size = Self::target_size(&config);
        let pixel_data = if config.image_path.is_some() {
            loaded
        } else {
            None
        };
        PixelArtWidget {
            id: make_widget_id("pixelart", config.position.row, config.position.col),
            title: config.title,
            position: config.position,
            selected: false,
            image_path: config.image_path,
            pixel_data,
            pixel_size,
            error_message: None,
            scroll_offset: 0,
        }
    }

    /// Shows the picture of another file. `loaded` is what reading the
    /// file at the present size gave: the picture, or why there is none.
    pub fn set_image_path(&mut self, path: PathBuf, loaded: Result<PixelData, String>)
        ensures
            final(self).image_path == Some(path),
            match loaded {
                Ok(data) => {
                    &&& final(self).pixel_data == Some(data)
                    &&& final(self).scroll_offset == 0
                    &&& final(self).error_message is None
                },
                Err(e) => {
                    &&& final(self).pixel_data is None
                    &&& final(self).scroll_offset == old(self).scroll_offset
                    &&& final(self).error_message is Some
                    &&& final(self).error_message->0@ == "Error loading image: "@ + e@
                },
            },
            final(self).id == old(self).id,
            final(self).title == old(self).title,
            final(self).position == old(self).position,
            final(self).selected == old(self).selected,
            final(self).pixel_size == old(self).pixel_size,
    {
        self.image_path = Some(path);
        self.error_message = None;
        match loaded {
            Ok(data) => {
                self.pixel_data = Some(data);
                self.scroll_offset = 0;
            },
            Err(e) => {
                let mut message = chars_of("Error loading image: ");
                push_all(&mut message, &chars_of(e.as_str()));
                self.error_message = Some(string_of(&message));
                self.pixel_data = None;
            },
        }
    }

    /// Doubles the size that the picture is reduced to, as long as it is
    /// below 128. Says whether the size changed, so that the picture has to
    /// be read again.
    pub fn increase_pixel_size(&mut self) -> (changed: bool)
        ensures
            changed == (old(self).pixel_size < 128),
            final(self).pixel_size == if changed {
                2 * old(self).pixel_size
            } else {
                old(self).pixel_size as int
            },
            final(self).id == old(self).id,
            final(self).title == old(self).title,
            final(self).position == old(self).position,
            final(self).selected == old(self).selected,
            final(self).image_path == old(self).image_path,
            final(self).pixel_data == old(self).pixel_data,
            final(self).error_message == old(self).error_message,
            final(self).scroll_offset == old(self).scroll_offset,
    {
        if self.pixel_size < 128 {
            self.pixel_size = self.pixel_size * 2;
            true
        } else {
            false
        }
    }

    /// Halves the size that the picture is reduced to, as long as it is
    /// above 8. Says whether the size changed, so that the picture has to
    /// be read again.
    pub fn decrease_pixel_size(&mut self) -> (changed: bool)
        ensures
            changed == (old(self).pixel_size > 8),
            final(self).pixel_size == if changed {
                old(self).pixel_size / 2
            } else {
                old(self).pixel_size
            },
            final(self).id == old(self).id,
            final(self).title == old(self).title,
            final(self).position == old(self).position,
            final(self).selected == old(self).selected,
            final(self).image_path == old(self).image_path,
            final(self).pixel_data == old(self).pixel_data,
            final(self).error_message == old(self).error_message,
            final(self).scroll_offset == old(self).scroll_offset,
    {
        if self.pixel_size > 8 {
            self.pixel_size = self.pixel_size / 2;
            true
        } else {
            false
        }
    }

    /// Takes in what reading the file again gave: the picture, which
    /// replaces the one shown, or why there is none, which leaves the one
    /// shown in place. A widget without a file stays as it is.
    pub fn reload_image(&mut self, loaded: Result<PixelData, String>)
        ensures
            old(self).image_path is None ==> *final(self) == *old(self),
            old(self).image_path is Some ==> match loaded {
                Ok(data) => {
                    &&& final(self).pixel_data == Some(data)
                    &&& final(self).error_message is None
                },
                Err(e) => {
                    &&& final(self).pixel_data == old(self).pixel_data
                    &&& final(self).error_message is Some
                    &&& final(self).error_message->0@ == "Error reloading image: "@ + e@
                },
            },
            final(self).id == old(self).id,
            final(self).title == old(self).title,
            final(self).position == old(self).position,
            final(self).selected == old(self).selected,
            final(self).image_path == old(self).image_path,
            final(self).pixel_size == old(self).pixel_size,
            final(self).scroll_offset == old(self).scroll_offset,
    {
        if self.image_path.is_some() {
            match loaded {
                Ok(data) => {
                    self.pixel_data = Some(data);
                    self.error_message = None;
                },
                Err(e) => {
                    let mut message = chars_of("Error reloading image: ");
                    push_all(&mut message, &chars_of(e.as_str()));
                    self.error_message = Some(string_of(&message));
                },
            }
        }
    }

    /// Scrolls the picture up by one row, unless it is at its top.
    pub fn scroll_up(&mut self)
        ensures
            final(self).scroll_offset == if old(self).scroll_offset > 0 {
                old(self).scroll_offset - 1
            } else {
                0
            },
            final(self).id == old(self).id,
            final(self).title == old(self).title,
            final(self).position == old(self).position,
            final(self).selected == old(self).selected,
            final(self).image_path == old(self).image_path,
            final(self).pixel_data == old(self).pixel_data,
            final(self).pixel_size == old(self).pixel_size,
            final(self).error_message == old(self).error_message,
    {
        if self.scroll_offset > 0 {
            self.scroll_offset -= 1;
        }
    }

    /// Scrolls the picture down by one row, as long as a picture is shown
    /// and the offset is below its height.
    pub fn scroll_down(&mut self)
        ensures
            final(self).scroll_offset == if old(self).pixel_data is Some && old(self).scroll_offset
                < old(self).pixel_data->0.height {
                old(self).scroll_offset + 1
            } else {
                old(self).scroll_offset as int
            },
            final(self).id == old(self).id,
            final(self).title == old(self).title,
            final(self).position == old(self).position,
            final(self).selected == old(self).selected,
            final(self).image_path == old(self).image_path,
            final(self).pixel_data == old(self).pixel_data,
            final(self).pixel_size == old(self).pixel_size,
            final(self).error_message == old(self).error_message,
    {
        let below = match &self.pixel_data {
            Some(data) => self.scroll_offset < data.height as usize,
            None => false,
        };
        if below {
            self.scroll_offset += 1;
        }
    }

    /// Marks the widget as the one that keys go to, or not.
    pub fn set_selected(&mut self, selected: bool)
        ensures
            final(self).selected == selected,
            final(self).id == old(self).id,
            final(self).title == old(self).title,
            final(self).position == old(self).position,
            final(self).image_path == old(self).image_path,
            final(self).pixel_data == old(self).pixel_data,
            final(self).pixel_size == old(self).pixel_size,
            final(self).error_message == old(self).error_message,
            final(self).scroll_offset == old(self).scroll_offset,
    {
        self.selected = selected;
    }
}

} // verus!
