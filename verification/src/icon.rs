//! Icons as plain RGBA bitmaps.

use vstd::prelude::*;

verus! {

/// Why a byte buffer does not make an icon.
#[derive(Copy, Clone, Debug, PartialEq, Eq, Hash, Structural)]
pub enum BadIcon {
    /// The number of bytes is not a multiple of four, so the buffer cannot be
    /// read as 32-bit RGBA pixels.
    ByteCountNotDivisibleBy4 { byte_count: usize },
    /// The number of pixels in the buffer is not `width * height`.
    DimensionsVsPixelCount { width: u32, height: u32, width_x_height: u64, pixel_count: usize },
}

/// What an [`Icon`] holds.
pub struct IconView {
    /// The pixels, row by row, four bytes each: red, green, blue, alpha.
    pub rgba: Seq<u8>,
    pub width: u32,
    pub height: u32,
}

impl IconView {
    /// The buffer holds exactly `width * height` pixels.
    pub open spec fn wf(self) -> bool {
        self.rgba.len() == 4 * (self.width * self.height)
    }
}

/// An icon for a tray, a menu item or a window: an RGBA bitmap whose buffer
/// matches its dimensions.
#[derive(Debug, PartialEq, Eq, Hash)]
pub struct Icon {
    rgba: Vec<u8>,
    width: u32,
    height: u32,
}

impl View for Icon {
    type V = IconView;

    closed spec fn view(&self) -> IconView {
        IconView { rgba: self.rgba@, width: self.width, height: self.height }
    }
}

/// What [`Icon::from_rgba`] answers for a buffer of `rgba` and the given
/// dimensions.
pub open spec fn icon_from_rgba(rgba: Seq<u8>, width: u32, height: u32) -> Result<IconView, BadIcon> {
    if rgba.len() % 4 != 0 {
        Err(BadIcon::ByteCountNotDivisibleBy4 { byte_count: rgba.len() as usize })
    } else if rgba.len() / 4 != width * height {
        Err(
            BadIcon::DimensionsVsPixelCount {
                width,
                height,
                width_x_height: (width * height) as u64,
                pixel_count: (rgba.len() / 4) as usize,
            },
        )
    } else {
        Ok(IconView { rgba, width, height })
    }
}

impl Icon {
    #[verifier::type_invariant]
    spec fn inv(&self) -> bool {
        self@.wf()
    }

    /// Makes an icon of `width * height` pixels from their RGBA bytes. A
    /// buffer whose length is no multiple of four is refused first, then one
    /// whose pixel count differs from `width * height`.
    pub fn from_rgba(rgba: Vec<u8>, width: u32, height: u32) -> (r: Result<Icon, BadIcon>)
        ensures
            icon_from_rgba(rgba@, width, height) is Ok <==> r is Ok,
            r matches Ok(icon) ==> Ok::<IconView, BadIcon>(icon@) == icon_from_rgba(
                rgba@,
                width,
                height,
            ),
            r matches Err(e) ==> Err::<IconView, BadIcon>(e) == icon_from_rgba(rgba@, width, height),
    {
        let byte_count: usize = rgba.len();
        if byte_count % 4 != 0 {
            return Err(BadIcon::ByteCountNotDivisibleBy4 { byte_count });
        }
        let pixel_count: usize = byte_count / 4;
        assert(width * height <= u64::MAX) by (nonlinear_arith)
            requires
                width <= u32::MAX,
                height <= u32::MAX,
        ;
        let width_x_height: u64 = (width as u64) * (height as u64);
        if pixel_count as u64 != width_x_height {
            Err(BadIcon::DimensionsVsPixelCount { width, height, width_x_height, pixel_count })
        } else {
            Ok(Icon { rgba, width, height })
        }
    }

    /// The width in pixels.
    pub fn width(&self) -> (w: u32)
        ensures
            w == self@.width,
    {
        self.width
    }

    /// The height in pixels.
    pub fn height(&self) -> (h: u32)
        ensures
            h == self@.height,
    {
        self.height
    }

    /// The RGBA bytes. Their number is four times `width * height`.
    pub fn buffer(&self) -> (b: &Vec<u8>)
        ensures
            b@ == self@.rgba,
            self@.wf(),
    {
        proof {
            use_type_invariant(self);
        }
        &self.rgba
    }
}

impl Clone for Icon {
    fn clone(&self) -> (r: Self)
        ensures
            r@ == self@,
    {
        proof {
            use_type_invariant(self);
        }
        let rgba = self.rgba.clone();
        Icon { rgba, width: self.width, height: self.height }
    }
}

} // verus!
