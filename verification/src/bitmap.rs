//! Decoded colour pictures: width, height and 8-bit red, green and blue
//! samples.

use vstd::prelude::*;

verus! {

/// Whether `pixels` holds exactly three samples for each pixel of a picture
/// that has at least one pixel.
pub open spec fn valid_bitmap(width: u32, height: u32, pixels: Seq<u8>) -> bool {
    width > 0 && height > 0 && pixels.len() == 3 * pixel_count(width, height)
}

/// The number of pixels of a picture.
pub open spec fn pixel_count(width: u32, height: u32) -> int {
    (width as int) * (height as int)
}

/// A decoded picture with 8-bit red, green and blue samples: the pixels row
/// after row, the three samples of a pixel next to each other. A picture
/// always has at least one pixel.
#[derive(Debug)]
pub struct Image {
    width: u32,
    height: u32,
    pixels: Vec<u8>,
}

impl Image {
    #[verifier::type_invariant]
    spec fn well_formed(self) -> bool {
        valid_bitmap(self.width, self.height, self.pixels@)
    }

    /// The number of columns.
    pub closed spec fn spec_width(&self) -> u32 {
        self.width
    }

    /// The number of rows.
    pub closed spec fn spec_height(&self) -> u32 {
        self.height
    }

    /// The samples.
    pub closed spec fn spec_pixels(&self) -> Seq<u8> {
        self.pixels@
    }

    /// Makes a picture of the given size from its samples; a picture without
    /// pixels, or with another number of samples than three per pixel, is
    /// not made.
    pub fn new(width: u32, height: u32, pixels: Vec<u8>) -> (r: Option<Image>)
        ensures
            r is Some <==> valid_bitmap(width, height, pixels@),
            r matches Some(image) ==> image.spec_width() == width && image.spec_height() == height
                && image.spec_pixels() == pixels@,
    {
        if width == 0 || height == 0 {
            return None;
        }
        assert((width as int) * (height as int) <= 0xffff_fffe_0000_0001) by (nonlinear_arith)
            requires
                0 <= width <= 0xffff_ffff,
                0 <= height <= 0xffff_ffff,
        ;
        let area: u64 = (width as u64) * (height as u64);
        let count: u64 = pixels.len() as u64;
        if area > count / 3 || count != 3 * area {
            return None;
        }
        Some(Image { width, height, pixels })
    }

    #[verifier::when_used_as_spec(spec_width)]
    pub fn width(&self) -> (r: u32)
        ensures
            r == self.spec_width(),
            r > 0,
    {
        proof {
            use_type_invariant(self);
        }
        self.width
    }

    #[verifier::when_used_as_spec(spec_height)]
    pub fn height(&self) -> (r: u32)
        ensures
            r == self.spec_height(),
            r > 0,
    {
        proof {
            use_type_invariant(self);
        }
        self.height
    }

    /// The samples, three per pixel, row after row.
    pub fn pixels(&self) -> (r: &Vec<u8>)
        ensures
            r@ == self.spec_pixels(),
            valid_bitmap(self.spec_width(), self.spec_height(), r@),
    {
        proof {
            use_type_invariant(self);
        }
        &self.pixels
    }
}

} // verus!
