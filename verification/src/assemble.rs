use vstd::pervasive::unreached;
use vstd::prelude::*;

use crate::error::PeekError;
use image::ImageBuffer;
use image::Luma;

verus! {

/// A finished single-channel image, ready for a renderer. It wraps the
/// renderer's buffer type, which Verus cannot declare directly because of the
/// trait bound on its pixel parameter; the wrapped value is reached through
/// the `image` field by unverified display code.
#[verifier::external_body]
pub struct GrayFrame {
    pub image: ImageBuffer<Luma<u8>, Vec<u8>>,
}

/// The width a single-channel image was built with.
pub uninterp spec fn gray_width(g: GrayFrame) -> u32;

/// The height a single-channel image was built with.
pub uninterp spec fn gray_height(g: GrayFrame) -> u32;

/// The row-major byte buffer a single-channel image was built from.
pub uninterp spec fn gray_data(g: GrayFrame) -> Seq<u8>;

/// Relies on ImageBuffer::from_raw: for a one-channel pixel it returns Some
/// exactly when the buffer holds at least width times height elements, and
/// then keeps the buffer and the dimensions unchanged.
#[verifier::external_body]
fn gray_from_raw(width: u32, height: u32, data: Vec<u8>) -> (r: Option<GrayFrame>)
    ensures
        r is Some <==> width * height <= data@.len(),
        r matches Some(g) ==> gray_width(g) == width && gray_height(g) == height && gray_data(g)
            == data@,
{
    ImageBuffer::from_raw(width, height, data).map(|image| GrayFrame { image })
}

/// A normalized two-dimensional image: one byte per element, rows stored
/// row-major in a flat buffer.
#[derive(Debug, PartialEq, Eq)]
pub struct NormalizedImage {
    pub rows: u32,
    pub cols: u32,
    pub data: Vec<u8>,
}

impl NormalizedImage {
    /// The buffer holds exactly rows times columns bytes.
    pub open spec fn wf(self) -> bool {
        self.data@.len() == self.rows * self.cols
    }

    /// Build a normalized image from its dimensions and flat row-major
    /// buffer; a buffer whose length is not exactly rows times columns is
    /// refused.
    pub fn new(rows: u32, cols: u32, data: Vec<u8>) -> (r: Result<NormalizedImage, PeekError>)
        ensures
            r is Ok <==> data@.len() == rows * cols,
            r matches Ok(img) ==> img.rows == rows && img.cols == cols && img.data@ == data@
                && img.wf(),
            r is Err ==> r == (Err::<NormalizedImage, PeekError>(PeekError::BufferSize {
                needed: ((rows as int) * (cols as int)) as u64,
                actual: data@.len() as u64,
            })),
    {
        proof {
            assert((rows as int) * (cols as int) <= 0xffff_ffff * 0xffff_ffff)
                by (nonlinear_arith)
                requires
                    rows <= 0xffff_ffffu32,
                    cols <= 0xffff_ffffu32,
            ;
        }
        let needed: u64 = (rows as u64) * (cols as u64);
        if data.len() as u64 == needed {
            Ok(NormalizedImage { rows, cols, data })
        } else {
            Err(PeekError::BufferSize { needed, actual: data.len() as u64 })
        }
    }

    /// Pack the image into the renderer's single-channel buffer type, width
    /// first: the buffer and the dimensions are handed over unchanged.
    pub fn assemble(self) -> (r: Result<GrayFrame, PeekError>)
        ensures
            r is Ok <==> self.wf(),
            r matches Ok(g) ==> gray_width(g) == self.cols && gray_height(g) == self.rows
                && gray_data(g) == self.data@,
            r is Err ==> r == (Err::<GrayFrame, PeekError>(
                PeekError::BufferSize {
                    needed: ((self.rows as int) * (self.cols as int)) as u64,
                    actual: self.data@.len() as u64,
                },
            )),
    {
        proof {
            assert((self.rows as int) * (self.cols as int) <= 0xffff_ffff * 0xffff_ffff)
                by (nonlinear_arith)
                requires
                    self.rows <= 0xffff_ffffu32,
                    self.cols <= 0xffff_ffffu32,
            ;
            assert((self.cols as int) * (self.rows as int) == (self.rows as int) * (
            self.cols as int)) by (nonlinear_arith);
        }
        let NormalizedImage { rows, cols, data } = self;
        let needed: u64 = (rows as u64) * (cols as u64);
        if data.len() as u64 == needed {
            match gray_from_raw(cols, rows, data) {
                Some(g) => Ok(g),
                None => unreached(),
            }
        } else {
            let actual: u64 = data.len() as u64;
            Err(PeekError::BufferSize { needed, actual })
        }
    }
}

} // verus!
