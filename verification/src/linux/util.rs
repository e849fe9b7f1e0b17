//! Icons as the StatusNotifierItem protocol carries them.

use crate::icon::Icon;
use crate::input::{wrap_to_i32, wrapping_i32};
use vstd::prelude::*;

verus! {

/// One pixmap of an icon: its dimensions and its pixels as ARGB, four bytes
/// each in network byte order, which is alpha, red, green, blue.
#[derive(Debug, Clone, PartialEq, Eq)]
pub struct SniIcon {
    pub width: i32,
    pub height: i32,
    pub data: Vec<u8>,
}

/// The ARGB bytes of RGBA pixels: every whole pixel with its alpha moved from
/// the last place to the first.
pub open spec fn argb_of(rgba: Seq<u8>) -> Seq<u8> {
    Seq::new(4 * (rgba.len() / 4), |i: int| rgba[4 * (i / 4) + (i % 4 + 3) % 4])
}

/// Converts an icon to the pixmap that the protocol carries. The dimensions
/// are handed on as signed integers, bit for bit.
pub fn icon_to_sni_icon(icon: &Icon) -> (sni: SniIcon)
    ensures
        sni.width == wrap_to_i32(icon@.width),
        sni.height == wrap_to_i32(icon@.height),
        sni.data@ == argb_of(icon@.rgba),
        sni.data@.len() == icon@.rgba.len(),
{
    let buffer = icon.buffer();
    let pixels: usize = buffer.len() / 4;
    let mut data: Vec<u8> = Vec::new();
    let mut p: usize = 0;
    while p < pixels
        invariant
            p <= pixels,
            pixels == buffer@.len() / 4,
            4 * pixels <= buffer@.len() <= usize::MAX,
            data@.len() == 4 * p,
            forall|i: int|
                0 <= i < 4 * p ==> #[trigger] data@[i] == buffer@[4 * (i / 4) + (i % 4 + 3) % 4],
        decreases pixels - p,
    {
        let r: u8 = buffer[4 * p];
        let g: u8 = buffer[4 * p + 1];
        let b: u8 = buffer[4 * p + 2];
        let a: u8 = buffer[4 * p + 3];
        data.push(a);
        data.push(r);
        data.push(g);
        data.push(b);
        p += 1;
    }
    SniIcon { width: wrapping_i32(icon.width()), height: wrapping_i32(icon.height()), data }
}

} // verus!
