//! Excess-green threshold mask.

use vstd::prelude::*;
use crate::error::InvalidInput;

verus! {

/// Excess green of one pixel, `2g - r - b`, in the range -510..=510.
pub open spec fn exg_score(r: u8, g: u8, b: u8) -> int {
    2 * (g as int) - (r as int) - (b as int)
}

/// Whether the pixel stored at position `i` of an interleaved RGB buffer is
/// vegetation under the threshold rule: its excess green reaches `threshold`.
pub open spec fn exg_pixel(rgb: Seq<u8>, i: int, threshold: i16) -> bool {
    exg_score(rgb[3 * i], rgb[3 * i + 1], rgb[3 * i + 2]) >= threshold
}

/// The threshold mask of a whole buffer: one entry per pixel, each decided
/// by that pixel's own three bytes.
pub open spec fn exg_mask_spec(rgb: Seq<u8>, threshold: i16) -> Seq<bool> {
    Seq::new((rgb.len() / 3) as nat, |i: int| exg_pixel(rgb, i, threshold))
}

/// Each entry of the threshold mask depends on its own pixel only: two
/// pixels with the same three bytes get the same entry, wherever they
/// stand and whatever surrounds them.
pub proof fn law_mask_entry_is_local(a: Seq<u8>, i: int, b: Seq<u8>, j: int, threshold: i16)
    requires
        0 <= i < a.len() / 3,
        0 <= j < b.len() / 3,
        a[3 * i] == b[3 * j],
        a[3 * i + 1] == b[3 * j + 1],
        a[3 * i + 2] == b[3 * j + 2],
    ensures
        exg_mask_spec(a, threshold)[i] == exg_mask_spec(b, threshold)[j],
        exg_mask_spec(a, threshold).len() == a.len() / 3,
{
}

/// Classifies one pixel by excess green.
pub fn exg_is_vegetation(r: u8, g: u8, b: u8, threshold: i16) -> (veg: bool)
    ensures
        veg == (exg_score(r, g, b) >= threshold),
{
    let score: i16 = 2 * (g as i16) - (r as i16) - (b as i16);
    score >= threshold
}

/// Computes the excess-green mask of an interleaved RGB image.
///
/// Fails with `RgbLength` exactly when the buffer does not hold whole
/// pixels.
pub fn exg_mask(rgb: &[u8], threshold: i16) -> (res: Result<Vec<bool>, InvalidInput>)
    ensures
        res is Ok <==> rgb@.len() % 3 == 0,
        res matches Ok(mask) ==> mask@ == exg_mask_spec(rgb@, threshold),
        res matches Err(e) ==> e == InvalidInput::RgbLength,
{
    let len: usize = rgb.len();
    if len % 3 != 0 {
        return Err(InvalidInput::RgbLength);
    }
    let pixels: usize = len / 3;
    let mut out: Vec<bool> = Vec::with_capacity(pixels);
    let mut i: usize = 0;
    while i < pixels
        invariant
            rgb@.len() == len,
            len == 3 * pixels,
            i <= pixels,
            out@.len() == i,
            forall|k: int| 0 <= k < i ==> out@[k] == exg_pixel(rgb@, k, threshold),
        decreases pixels - i,
    {
        let veg = exg_is_vegetation(rgb[3 * i], rgb[3 * i + 1], rgb[3 * i + 2], threshold);
        out.push(veg);
        i += 1;
    }
    assert(out@ =~= exg_mask_spec(rgb@, threshold));
    Ok(out)
}

/// The byte that stands for a mask entry: 1 for vegetation, 0 for none.
pub open spec fn mask_byte(veg: bool) -> u8 {
    if veg {
        1
    } else {
        0
    }
}

/// The reason for which a buffer and a supplied mask are turned down, if
/// any. The buffer is looked at first.
pub open spec fn mask_into_error(rgb_len: int, mask_len: int) -> Option<InvalidInput> {
    if rgb_len % 3 != 0 {
        Some(InvalidInput::RgbLength)
    } else if mask_len != rgb_len / 3 {
        Some(InvalidInput::MaskLength)
    } else {
        None
    }
}

/// Writes the excess-green mask of an interleaved RGB image into a byte
/// mask supplied by the caller, one byte per pixel: 1 for vegetation, 0
/// for none.
///
/// Fails exactly on the inputs that `mask_into_error` names, and then
/// leaves the mask as it was.
pub fn exg_mask_into(rgb: &[u8], mask: &mut [u8], threshold: i16) -> (res: Result<(), InvalidInput>)
    ensures
        final(mask)@.len() == old(mask)@.len(),
        match res {
            Ok(_) => {
                &&& mask_into_error(rgb@.len() as int, old(mask)@.len() as int) is None
                &&& forall|i: int|
                    0 <= i < final(mask)@.len() ==> final(mask)@[i] == mask_byte(
                        exg_pixel(rgb@, i, threshold),
                    )
            },
            Err(e) => {
                &&& mask_into_error(rgb@.len() as int, old(mask)@.len() as int) == Some(e)
                &&& final(mask)@ == old(mask)@
            },
        },
{
    let len: usize = rgb.len();
    if len % 3 != 0 {
        return Err(InvalidInput::RgbLength);
    }
    let pixels: usize = len / 3;
    if mask.len() != pixels {
        return Err(InvalidInput::MaskLength);
    }
    let mut i: usize = 0;
    while i < pixels
        invariant
            rgb@.len() == len,
            len == 3 * pixels,
            i <= pixels,
            mask@.len() == pixels,
            forall|k: int| 0 <= k < i ==> mask@[k] == mask_byte(exg_pixel(rgb@, k, threshold)),
        decreases pixels - i,
    {
        let veg = exg_is_vegetation(rgb[3 * i], rgb[3 * i + 1], rgb[3 * i + 2], threshold);
        mask[i] = if veg {
            1
        } else {
            0
        };
        i += 1;
    }
    Ok(())
}

/// Reads a byte mask as a mask of booleans: a pixel is set where its byte
/// is not zero.
pub fn mask_from_bytes(bytes: &[u8]) -> (mask: Vec<bool>)
    ensures
        mask@.len() == bytes@.len(),
        forall|i: int| 0 <= i < bytes@.len() ==> mask@[i] == (bytes@[i] != 0),
{
    let len: usize = bytes.len();
    let mut mask: Vec<bool> = Vec::with_capacity(len);
    let mut i: usize = 0;
    while i < len
        invariant
            len == bytes@.len(),
            i <= len,
            mask@.len() == i,
            forall|k: int| 0 <= k < i ==> mask@[k] == (bytes@[k] != 0),
        decreases len - i,
    {
        mask.push(bytes[i] != 0);
        i += 1;
    }
    mask
}

} // verus!
