//! The immutable RGB sample grid that a successful image fetch produces, and
//! the trusted boundary to the decoder that turns raw bytes into such a grid.

use image::GenericImageView;
use vstd::prelude::*;

verus! {

/// Mathematical model of an [`Image`]: a row-major grid of RGB samples.
pub ghost struct ImageModel {
    pub width: int,
    pub height: int,
    pub pixels: Seq<(u8, u8, u8)>,
}

impl ImageModel {
    /// A well-formed grid has one sample per cell and at least one cell.
    pub open spec fn wf(self) -> bool {
        &&& self.pixels.len() == self.width * self.height
        &&& self.width >= 1
        &&& self.height >= 1
    }
}

/// An immutable RGB sample grid with explicit dimensions; `pixels` is in
/// row-major order, top row first.
pub struct Image {
    pub width: u32,
    pub height: u32,
    pub pixels: Vec<(u8, u8, u8)>,
}

impl View for Image {
    type V = ImageModel;

    open spec fn view(&self) -> ImageModel {
        ImageModel {
            width: self.width as int,
            height: self.height as int,
            pixels: self.pixels@,
        }
    }
}

impl Image {
    pub open spec fn wf(&self) -> bool {
        self@.wf()
    }

    /// Relies on `image::GenericImageView::{dimensions, pixels}`: `pixels`
    /// yields exactly `width * height` samples, in row-major order starting
    /// from the top-left corner. A degenerate source (either dimension zero)
    /// is not iterated — its pixel iterator misbehaves on a zero width with
    /// rows remaining — and yields the zero samples its dimensions call for.
    #[verifier::external_body]
    pub fn from_dynamic_image(img: &image::DynamicImage) -> (r: Image)
        ensures
            r.pixels@.len() == r.width as int * r.height as int,
    {
        let (width, height) = img.dimensions();
        if width == 0 || height == 0 {
            return Image { width, height, pixels: Vec::new() };
        }
        let pixels = img.pixels().map(|(_, _, p)| (p[0], p[1], p[2])).collect();
        Image { width, height, pixels }
    }

    /// A fresh copy of the grid, equal under the model.
    pub fn duplicate(&self) -> (r: Image)
        ensures
            r@ == self@,
    {
        let mut pixels: Vec<(u8, u8, u8)> = Vec::new();
        let mut i: usize = 0;
        while i < self.pixels.len()
            invariant
                0 <= i <= self.pixels.len(),
                pixels@ == self.pixels@.take(i as int),
            decreases self.pixels.len() - i,
        {
            pixels.push(self.pixels[i]);
            proof {
                assert(pixels@ =~= self.pixels@.take(i as int + 1));
            }
            i = i + 1;
        }
        proof {
            assert(self.pixels@.take(self.pixels@.len() as int) =~= self.pixels@);
        }
        Image { width: self.width, height: self.height, pixels }
    }

    /// Admits a converted grid only when it is well formed: one sample per
    /// cell and at least one cell in each direction. The grid itself passes
    /// through unchanged.
    pub fn accept_grid(grid: Image) -> (r: Option<Image>)
        ensures
            r is Some <==> grid.wf(),
            r matches Some(i) ==> i == grid,
    {
        proof {
            vstd::arithmetic::mul::lemma_mul_upper_bound(
                grid.width as int,
                u32::MAX as int,
                grid.height as int,
                u32::MAX as int,
            );
        }
        let complete = (grid.width as u64) * (grid.height as u64) == grid.pixels.len() as u64;
        if grid.width >= 1 && grid.height >= 1 && complete {
            Some(grid)
        } else {
            None
        }
    }

    /// Decodes raw bytes into a sample grid, best-effort: `None` when the
    /// decoder rejects the bytes or the decoded grid is empty. Which byte
    /// sequences decode is the decoder's affair (it consults a process-wide
    /// registry of format hooks), so nothing is promised of that; what is
    /// admitted afterwards is fixed by [`Image::accept_grid`].
    pub fn decode(bytes: &Vec<u8>) -> (r: Option<Image>)
        ensures
            r matches Some(i) ==> i.wf(),
    {
        match decode_image_bytes(bytes) {
            Some(dynamic) => Image::accept_grid(Image::from_dynamic_image(&dynamic)),
            None => None,
        }
    }
}

/// Declares the decoder's pixel-grid type, `image::DynamicImage`, so that
/// values of it can pass through signatures; they stay opaque here.
#[verifier::external_type_specification]
#[verifier::external_body]
pub struct ExDynamicImage(image::DynamicImage);

/// Relies on `image::load_from_memory`: decodes bytes in any supported image
/// format into a pixel grid, `Err` when the bytes are not such a format.
#[verifier::external_body]
fn decode_image_bytes(bytes: &Vec<u8>) -> (r: Option<image::DynamicImage>) {
    image::load_from_memory(bytes.as_slice()).ok()
}

} // verus!
