//! The colours of the screen, as plain red, green and blue values.

use vstd::prelude::*;

verus! {

/// A colour: its red, green and blue parts.
#[derive(Clone, Copy, Debug, PartialEq, Eq, Structural)]
pub struct Rgb {
    pub r: u8,
    pub g: u8,
    pub b: u8,
}

/// The colour of each part of the screen.
#[derive(Clone, Copy, Debug, PartialEq, Eq, Structural)]
pub struct Colors {
    pub buffer_bg: Rgb,
    pub header_bg: Rgb,
    pub header_fg: Rgb,
    pub row_fg: Rgb,
    pub selected_column_style_fg: Rgb,
    pub selected_cell_style_fg: Rgb,
    pub normal_row_color: Rgb,
    pub alt_row_color: Rgb,
    pub footer_border_color: Rgb,
}

/// The palette of the editor.
pub open spec fn palette() -> Colors {
    Colors {
        buffer_bg: Rgb { r: 35, g: 33, b: 54 },
        header_bg: Rgb { r: 35, g: 33, b: 54 },
        header_fg: Rgb { r: 224, g: 222, b: 244 },
        row_fg: Rgb { r: 224, g: 222, b: 244 },
        selected_column_style_fg: Rgb { r: 68, g: 65, b: 90 },
        selected_cell_style_fg: Rgb { r: 68, g: 65, b: 90 },
        normal_row_color: Rgb { r: 35, g: 33, b: 54 },
        alt_row_color: Rgb { r: 57, g: 53, b: 82 },
        footer_border_color: Rgb { r: 62, g: 143, b: 176 },
    }
}

impl Colors {
    /// The palette of the editor.
    pub fn new() -> (colors: Colors)
        ensures
            colors == palette(),
    {
        Colors {
            buffer_bg: Rgb { r: 35, g: 33, b: 54 },
            header_bg: Rgb { r: 35, g: 33, b: 54 },
            header_fg: Rgb { r: 224, g: 222, b: 244 },
            row_fg: Rgb { r: 224, g: 222, b: 244 },
            selected_column_style_fg: Rgb { r: 68, g: 65, b: 90 },
            selected_cell_style_fg: Rgb { r: 68, g: 65, b: 90 },
            normal_row_color: Rgb { r: 35, g: 33, b: 54 },
            alt_row_color: Rgb { r: 57, g: 53, b: 82 },
            footer_border_color: Rgb { r: 62, g: 143, b: 176 },
        }
    }

    /// The background of row `i`: rows take the two row colours in turn,
    /// the first row the normal one.
    pub fn row_color(&self, i: usize) -> (color: Rgb)
        ensures
            color == (if i % 2 == 0 {
                self.normal_row_color
            } else {
                self.alt_row_color
            }),
    {
        if i % 2 == 0 {
            self.normal_row_color
        } else {
            self.alt_row_color
        }
    }
}

} // verus!
