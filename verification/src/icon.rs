//! Window icons: RGBA bitmaps that the windowing library has accepted.

use vstd::prelude::*;
use vstd::slice::slice_to_vec;
use winit::window::BadIcon;
use winit::window::Icon;

verus! {

/// `winit::window::Icon`, carried as an opaque value.
#[verifier::external_type_specification]
#[verifier::external_body]
pub struct ExIcon(winit::window::Icon);

/// `winit::window::BadIcon`, carried as an opaque value.
#[verifier::external_type_specification]
#[verifier::external_body]
pub struct ExBadIcon(winit::window::BadIcon);

/// Bytes per RGBA pixel.
pub const BYTES_PER_PIXEL: usize = 4;

/// Whether `len` bytes are exactly the pixels of a `width` by `height` RGBA
/// bitmap whose pixel count still fits in 32 bits.
pub open spec fn rgba_fits(len: nat, width: u32, height: u32) -> bool {
    &&& width * height <= u32::MAX
    &&& len % (BYTES_PER_PIXEL as nat) == 0
    &&& len / (BYTES_PER_PIXEL as nat) == width * height
}

/// Calls `winit::window::Icon::from_rgba`.
///
/// Trusted: an icon is made only of a bitmap that fits, which is to say of a
/// byte count that is a multiple of four and of which a quarter equals
/// `width * height`. Whether a fitting bitmap becomes an icon is left open:
/// some platforms have to ask the operating system for a handle, and it may
/// give none. The callee forms the product in 32 bits, so inputs on which it
/// would overflow are left out.
#[verifier::external_body]
fn icon_from_rgba(rgba: Vec<u8>, width: u32, height: u32) -> (made: Result<Icon, BadIcon>)
    requires
        width * height <= u32::MAX,
    ensures
        made.is_ok() ==> rgba_fits(rgba@.len(), width, height),
{
    Icon::from_rgba(rgba, width, height)
}

/// The contents of a [`WindowIcon`].
pub struct IconView {
    pub rgba: Seq<u8>,
    pub width: u32,
    pub height: u32,
}

/// A bitmap together with the icon that the windowing library made of it.
pub struct WindowIcon {
    rgba: Vec<u8>,
    width: u32,
    height: u32,
    handle: Icon,
}

impl View for WindowIcon {
    type V = IconView;

    closed spec fn view(&self) -> IconView {
        IconView { rgba: self.rgba@, width: self.width, height: self.height }
    }
}

impl WindowIcon {
    /// Every icon holds as many pixels as its dimensions say.
    pub closed spec fn wf(&self) -> bool {
        rgba_fits(self.rgba@.len(), self.width, self.height)
    }

    /// What [`WindowIcon::wf`] says of the view.
    pub proof fn lemma_wf_fits(&self)
        requires
            self.wf(),
        ensures
            rgba_fits(self@.rgba.len(), self@.width, self@.height),
    {
    }

    /// Asks the windowing library for an icon of `data`, read as rows of RGBA
    /// pixels.
    ///
    /// There is no icon when `data` is not a `width` by `height` bitmap. Of a
    /// bitmap that fits the platform decides; the icon that it makes is kept
    /// as [`WindowIcon::keep`] says.
    pub fn from_rgba(data: &[u8], width: u32, height: u32) -> (made: Option<WindowIcon>)
        ensures
            !rgba_fits(data@.len(), width, height) ==> made.is_none(),
            made matches Some(icon) ==> icon.wf() && icon@ == (IconView {
                rgba: data@,
                width,
                height,
            }),
    {
        let wide_width: u64 = width as u64;
        let wide_height: u64 = height as u64;
        assert(wide_width * wide_height <= 0xFFFF_FFFE_0000_0001) by (nonlinear_arith)
            requires
                wide_width <= 0xFFFF_FFFF,
                wide_height <= 0xFFFF_FFFF,
        ;
        if wide_width * wide_height > 0xFFFF_FFFF {
            return None;
        }
        let made = icon_from_rgba(slice_to_vec(data), width, height);
        WindowIcon::keep(data, width, height, made)
    }

    /// Keeps the bitmap beside what the windowing library answered when it
    /// was asked for an icon of it: an icon that was made is kept together
    /// with the pixels and the dimensions, provided that they fit; a refusal
    /// leaves nothing.
    pub fn keep(data: &[u8], width: u32, height: u32, made: Result<Icon, BadIcon>) -> (kept: Option<
        WindowIcon,
    >)
        ensures
            kept.is_some() <==> made.is_ok() && rgba_fits(data@.len(), width, height),
            kept matches Some(icon) ==> icon.wf() && icon@ == (IconView {
                rgba: data@,
                width,
                height,
            }) && made == Ok::<Icon, BadIcon>(icon.platform_icon()),
    {
        match made {
            Ok(handle) => {
                if pixels_fit(data.len(), width, height) {
                    Some(WindowIcon { rgba: slice_to_vec(data), width, height, handle })
                } else {
                    None
                }
            },
            Err(_) => None,
        }
    }

    /// The pixel data, row by row.
    pub fn rgba(&self) -> (rgba: &[u8])
        ensures
            rgba@ == self@.rgba,
    {
        self.rgba.as_slice()
    }

    /// Width in pixels.
    pub fn width(&self) -> (width: u32)
        ensures
            width == self@.width,
    {
        self.width
    }

    /// Height in pixels.
    pub fn height(&self) -> (height: u32)
        ensures
            height == self@.height,
    {
        self.height
    }

    /// The value that the windowing library made of the bitmap.
    pub closed spec fn platform_icon(&self) -> Icon {
        self.handle
    }

    /// The icon as the windowing library holds it.
    pub fn handle(&self) -> (handle: &Icon)
        ensures
            *handle == self.platform_icon(),
    {
        &self.handle
    }
}

/// Decides [`rgba_fits`] for a buffer of `len` bytes.
pub fn pixels_fit(len: usize, width: u32, height: u32) -> (fits: bool)
    ensures
        fits == rgba_fits(len as nat, width, height),
{
    let wide_width: u64 = width as u64;
    let wide_height: u64 = height as u64;
    assert(wide_width * wide_height <= 0xFFFF_FFFE_0000_0001) by (nonlinear_arith)
        requires
            wide_width <= 0xFFFF_FFFF,
            wide_height <= 0xFFFF_FFFF,
    ;
    let pixels: u64 = wide_width * wide_height;
    if pixels > 0xFFFF_FFFF {
        return false;
    }
    len % BYTES_PER_PIXEL == 0 && (len / BYTES_PER_PIXEL) as u64 == pixels
}

} // verus!
