//! Decoding of PNG images, by the `png` crate.
//!
//! What the decoder makes of a file is not stated here, only named: the two
//! functions below are trusted to return what the names stand for.

use vstd::prelude::*;

verus! {

/// Width and height that the header of a PNG file gives, or `None` where
/// the decoder refuses the file before it reaches the image data.
pub uninterp spec fn png_dimensions(bytes: Seq<u8>) -> Option<(u32, u32)>;

/// The buffer of `len` zero bytes after the decoder has written the first
/// frame of a PNG file into it, or `None` where the decoder refuses the file
/// or the buffer.
pub uninterp spec fn png_frame(bytes: Seq<u8>, len: nat) -> Option<Seq<u8>>;

/// `png::Decoder::read_info`, then `Reader::info`: the image's width and
/// height.
#[verifier::external_body]
pub(crate) fn read_dimensions(bytes: &Vec<u8>) -> (r: Option<(u32, u32)>)
    ensures
        r == png_dimensions(bytes@),
{
    let reader = png::Decoder::new(bytes.as_slice()).read_info().ok()?;
    let info = reader.info();
    Some((info.width, info.height))
}

/// `png::Reader::next_frame` on a buffer of `len` zero bytes: the buffer as
/// the decoder leaves it, still `len` bytes long.
#[verifier::external_body]
pub(crate) fn decode_frame(bytes: &Vec<u8>, len: usize) -> (r: Option<Vec<u8>>)
    ensures
        match r {
            Some(data) => png_frame(bytes@, len as nat) == Some(data@) && data@.len() == len,
            None => png_frame(bytes@, len as nat) is None,
        },
{
    let mut reader = png::Decoder::new(bytes.as_slice()).read_info().ok()?;
    let mut data = vec![0u8; len];
    reader.next_frame(&mut data).ok()?;
    Some(data)
}

} // verus!
