//! Texture wrappers.
//!
//! A [`Texture`] owns one native image object bound to a fixed target. The
//! pixel bytes themselves stay with the embedder; this module computes the
//! exact upload parameters — internal format, dimensions, and the transfer
//! format derived from the image's channel layout — and the call sequences
//! that upload an image, build a cubemap from exactly six faces, and apply
//! a batch of sampler parameters in one bind/set/unbind cycle.

use vstd::prelude::*;

use crate::buffer::GlOp;
use crate::types::{TextureParam, TextureTarget};

verus! {

/// Native enumerant of the stored (internal) pixel format, eight bits per
/// channel of red, green, blue and alpha.
pub const INTERNAL_FORMAT_RGBA8: u32 = 0x8058;

/// Native enumerant of the transfer pixel type: one unsigned byte per
/// channel.
pub const PIXEL_TYPE_UBYTE: u32 = 0x1401;

/// Native enumerant of the first (positive X) cubemap face target; the
/// remaining five faces follow consecutively.
pub const CUBE_MAP_POSITIVE_X: u32 = 0x8515;

/// An image with a channel layout the native API cannot take directly.
#[derive(Copy, Clone, PartialEq, Eq, Structural, Debug)]
pub enum TextureError {
    /// No transfer format matches this channel count and order.
    UnsupportedImageFormat { channels: u8, swapped: bool },
}

/// Channel layouts of the images the upload path accepts, each mapped to
/// the matching native transfer format.
#[derive(Copy, Clone, PartialEq, Eq, Structural, Debug)]
pub enum PixelLayout {
    /// One luminance channel.
    Luma8,
    /// Luminance and alpha.
    LumaA8,
    /// Red, green, blue.
    Rgb8,
    /// Red, green, blue, alpha.
    Rgba8,
    /// Blue, green, red.
    Bgr8,
    /// Blue, green, red, alpha.
    Bgra8,
}

impl PixelLayout {
    /// Native transfer-format enumerant for this layout.
    pub open spec fn spec_gl_format(self) -> u32 {
        match self {
            PixelLayout::Luma8 => 0x1903,
            PixelLayout::LumaA8 => 0x8227,
            PixelLayout::Rgb8 => 0x1907,
            PixelLayout::Rgba8 => 0x1908,
            PixelLayout::Bgr8 => 0x80E0,
            PixelLayout::Bgra8 => 0x80E1,
        }
    }

    pub fn gl_format(self) -> (r: u32)
        ensures
            r == self.spec_gl_format(),
    {
        match self {
            PixelLayout::Luma8 => 0x1903,
            PixelLayout::LumaA8 => 0x8227,
            PixelLayout::Rgb8 => 0x1907,
            PixelLayout::Rgba8 => 0x1908,
            PixelLayout::Bgr8 => 0x80E0,
            PixelLayout::Bgra8 => 0x80E1,
        }
    }

    /// The layout of an image with this many eight-bit channels, in
    /// straight or blue-first (`swapped`) channel order. Exactly the six
    /// layouts the upload path supports are accepted: one or two channels
    /// in straight order, or three or four channels in either order.
    pub fn from_channels(channels: u8, swapped: bool) -> (r: Result<PixelLayout, TextureError>)
        ensures
            r matches Ok(l) ==> match l {
                PixelLayout::Luma8 => channels == 1 && !swapped,
                PixelLayout::LumaA8 => channels == 2 && !swapped,
                PixelLayout::Rgb8 => channels == 3 && !swapped,
                PixelLayout::Rgba8 => channels == 4 && !swapped,
                PixelLayout::Bgr8 => channels == 3 && swapped,
                PixelLayout::Bgra8 => channels == 4 && swapped,
            },
            r is Ok <==> (1 <= channels <= 4 && (channels >= 3 || !swapped)),
            r matches Err(e) ==> e == (TextureError::UnsupportedImageFormat { channels, swapped }),
    {
        match (channels, swapped) {
            (1, false) => Ok(PixelLayout::Luma8),
            (2, false) => Ok(PixelLayout::LumaA8),
            (3, false) => Ok(PixelLayout::Rgb8),
            (4, false) => Ok(PixelLayout::Rgba8),
            (3, true) => Ok(PixelLayout::Bgr8),
            (4, true) => Ok(PixelLayout::Bgra8),
            _ => Err(TextureError::UnsupportedImageFormat { channels, swapped }),
        }
    }
}

/// What the upload path reads of an image: its dimensions and channel
/// layout. The pixel bytes stay with the embedder, which passes them to the
/// native call the computed parameters describe.
#[derive(Copy, Clone, PartialEq, Eq, Structural, Debug)]
pub struct ImageDesc {
    pub width: u32,
    pub height: u32,
    pub layout: PixelLayout,
}

/// The upload call for one 2D image at mipmap level zero: stored as
/// RGBA8, transferred in the image's own channel order, one byte per
/// channel.
pub open spec fn tex_image_2d_spec(target_code: u32, img: ImageDesc) -> GlOp {
    GlOp::TexImage2D {
        target_code,
        level: 0,
        internal_format: INTERNAL_FORMAT_RGBA8,
        width: img.width,
        height: img.height,
        format: img.layout.spec_gl_format(),
        pixel_type: PIXEL_TYPE_UBYTE,
    }
}

/// Wraps one native texture object bound to a fixed target.
pub struct Texture {
    pub id: u32,
    pub target: TextureTarget,
}

impl Texture {
    /// Wrap native texture `id` as a 2D texture.
    pub fn texture_2d(id: u32) -> (r: Texture)
        ensures
            r.id == id,
            r.target == TextureTarget::Tex2D,
    {
        Texture { id, target: TextureTarget::Tex2D }
    }

    /// Wrap native texture `id` as a cubemap texture.
    pub fn texture_cubemap(id: u32) -> (r: Texture)
        ensures
            r.id == id,
            r.target == TextureTarget::TexCubeMap,
    {
        Texture { id, target: TextureTarget::TexCubeMap }
    }

    /// The native call that selects texture unit `unit`.
    pub fn active_texture(unit: u32) -> (r: GlOp)
        requires
            unit <= u32::MAX - 0x84C0,
        ensures
            r == GlOp::ActiveTexture((0x84C0 + unit) as u32),
    {
        GlOp::ActiveTexture(0x84C0 + unit)
    }

    /// Wrap native texture `id` as a 2D texture holding `img`: binds the
    /// texture, uploads the image, unbinds.
    pub fn from_image(id: u32, img: &ImageDesc) -> (r: (Texture, Vec<GlOp>))
        ensures
            r.0.id == id,
            r.0.target == TextureTarget::Tex2D,
            r.1@.len() == 3,
            r.1@[0] == (GlOp::BindTexture { target: TextureTarget::Tex2D, id }),
            r.1@[1] == tex_image_2d_spec(TextureTarget::Tex2D.spec_code(), *img),
            r.1@[2] == (GlOp::BindTexture { target: TextureTarget::Tex2D, id: 0 }),
    {
        let tex = Texture::texture_2d(id);
        let mut ops: Vec<GlOp> = Vec::new();
        ops.push(tex.bind());
        ops.push(
            GlOp::TexImage2D {
                target_code: tex.target.code(),
                level: 0,
                internal_format: INTERNAL_FORMAT_RGBA8,
                width: img.width,
                height: img.height,
                format: img.layout.gl_format(),
                pixel_type: PIXEL_TYPE_UBYTE,
            },
        );
        ops.push(tex.unbind());
        (tex, ops)
    }

    /// Wrap native texture `id` as a cubemap over exactly six face images,
    /// supplied in the fixed order +X, -X, +Y, -Y, +Z, -Z.
    ///
    /// Returns no texture when the face count differs from six; otherwise
    /// the texture and the calls that bind it, upload each face to its
    /// consecutive face target, and unbind.
    pub fn cubemap(id: u32, faces: &Vec<ImageDesc>) -> (r: Option<(Texture, Vec<GlOp>)>)
        ensures
            r is Some <==> faces@.len() == 6,
            r matches Some(p) ==> {
                &&& p.0.id == id
                &&& p.0.target == TextureTarget::TexCubeMap
                &&& p.1@.len() == 8
                &&& p.1@[0] == (GlOp::BindTexture { target: TextureTarget::TexCubeMap, id })
                &&& forall|i: int|
                    0 <= i < 6 ==> p.1@[1 + i] == tex_image_2d_spec(
                        (CUBE_MAP_POSITIVE_X + i) as u32,
                        faces@[i],
                    )
                &&& p.1@[7] == (GlOp::BindTexture { target: TextureTarget::TexCubeMap, id: 0 })
            },
    {
        if faces.len() != 6 {
            return None;
        }
        let tex = Texture::texture_cubemap(id);
        let mut ops: Vec<GlOp> = Vec::new();
        ops.push(tex.bind());
        let mut i: usize = 0;
        while i < 6
            invariant
                faces@.len() == 6,
                i <= 6,
                ops@.len() == 1 + i,
                ops@[0] == (GlOp::BindTexture { target: TextureTarget::TexCubeMap, id }),
                forall|k: int|
                    0 <= k < i ==> ops@[1 + k] == tex_image_2d_spec(
                        (CUBE_MAP_POSITIVE_X + k) as u32,
                        faces@[k],
                    ),
            decreases 6 - i,
        {
            let img = faces[i];
            ops.push(
                GlOp::TexImage2D {
                    target_code: CUBE_MAP_POSITIVE_X + (i as u32),
                    level: 0,
                    internal_format: INTERNAL_FORMAT_RGBA8,
                    width: img.width,
                    height: img.height,
                    format: img.layout.gl_format(),
                    pixel_type: PIXEL_TYPE_UBYTE,
                },
            );
            i = i + 1;
        }
        ops.push(tex.unbind());
        Some((tex, ops))
    }

    /// The native call that generates mipmaps for this texture's target.
    /// The texture must be bound.
    pub fn generate_mipmap(&self) -> (r: GlOp)
        ensures
            r == (GlOp::GenerateMipmap { target: self.target }),
    {
        GlOp::GenerateMipmap { target: self.target }
    }

    /// The native call that binds this texture to its target.
    pub fn bind(&self) -> (r: GlOp)
        ensures
            r == (GlOp::BindTexture { target: self.target, id: self.id }),
    {
        GlOp::BindTexture { target: self.target, id: self.id }
    }

    /// The native call that unbinds this texture's target.
    pub fn unbind(&self) -> (r: GlOp)
        ensures
            r == (GlOp::BindTexture { target: self.target, id: 0 }),
    {
        GlOp::BindTexture { target: self.target, id: 0 }
    }
}

/// Native enumerant of the nearest-sample texture filter.
#[derive(Copy, Clone, PartialEq, Eq, Structural, Debug)]
pub enum FilterMethod {
    Nearest,
    Linear,
}

impl FilterMethod {
    /// Native enumerant of this filter.
    pub open spec fn spec_code(self) -> u32 {
        match self {
            FilterMethod::Nearest => 0x2600,
            FilterMethod::Linear => 0x2601,
        }
    }

    pub fn code(self) -> (r: u32)
        ensures
            r == self.spec_code(),
    {
        match self {
            FilterMethod::Nearest => 0x2600,
            FilterMethod::Linear => 0x2601,
        }
    }
}

/// Texture coordinate wrapping behaviours.
#[derive(Copy, Clone, PartialEq, Eq, Structural, Debug)]
pub enum WrapMethod {
    ClampToEdge,
    ClampToBorder,
    Repeat,
    MirroredRepeat,
    MirrorClampToEdge,
}

impl WrapMethod {
    /// Native enumerant of this wrap behaviour.
    pub open spec fn spec_code(self) -> u32 {
        match self {
            WrapMethod::ClampToEdge => 0x812F,
            WrapMethod::ClampToBorder => 0x812D,
            WrapMethod::Repeat => 0x2901,
            WrapMethod::MirroredRepeat => 0x8370,
            WrapMethod::MirrorClampToEdge => 0x8743,
        }
    }

    pub fn code(self) -> (r: u32)
        ensures
            r == self.spec_code(),
    {
        match self {
            WrapMethod::ClampToEdge => 0x812F,
            WrapMethod::ClampToBorder => 0x812D,
            WrapMethod::Repeat => 0x2901,
            WrapMethod::MirroredRepeat => 0x8370,
            WrapMethod::MirrorClampToEdge => 0x8743,
        }
    }
}

/// A batch of texture parameter assignments, applied in one
/// bind/set/unbind cycle.
pub struct TextureParameters {
    pub params: Vec<(TextureParam, u32)>,
}

impl TextureParameters {
    /// An empty batch.
    pub fn new() -> (r: TextureParameters)
        ensures
            r.params@.len() == 0,
    {
        TextureParameters { params: Vec::new() }
    }

    /// Queue one parameter assignment.
    pub fn set_param(&mut self, param: TextureParam, value: u32)
        ensures
            final(self).params@ == old(self).params@.push((param, value)),
    {
        self.params.push((param, value));
    }

    /// Queue `method` as both the minification and the magnification
    /// filter.
    pub fn filter_method(&mut self, method: FilterMethod)
        ensures
            final(self).params@ == old(self).params@.push(
                (TextureParam::MinFilter, method.spec_code()),
            ).push((TextureParam::MagFilter, method.spec_code())),
    {
        self.params.push((TextureParam::MinFilter, method.code()));
        self.params.push((TextureParam::MagFilter, method.code()));
    }

    /// Queue `method` as the wrap behaviour of both 2D coordinate axes.
    pub fn wrap_method2d(&mut self, method: WrapMethod)
        ensures
            final(self).params@ == old(self).params@.push(
                (TextureParam::WrapS, method.spec_code()),
            ).push((TextureParam::WrapT, method.spec_code())),
    {
        self.params.push((TextureParam::WrapS, method.code()));
        self.params.push((TextureParam::WrapT, method.code()));
    }

    /// Queue `method` as the wrap behaviour of all three coordinate axes.
    pub fn wrap_method3d(&mut self, method: WrapMethod)
        ensures
            final(self).params@ == old(self).params@.push(
                (TextureParam::WrapS, method.spec_code()),
            ).push((TextureParam::WrapT, method.spec_code())).push(
                (TextureParam::WrapR, method.spec_code()),
            ),
    {
        self.wrap_method2d(method);
        self.set_param(TextureParam::WrapR, method.code());
    }

    /// The native calls that apply this batch onto `tex`: bind, one
    /// parameter call per queued assignment in order, unbind.
    pub fn apply_to(&self, tex: &Texture) -> (r: Vec<GlOp>)
        ensures
            r@.len() == self.params@.len() + 2,
            r@[0] == (GlOp::BindTexture { target: tex.target, id: tex.id }),
            forall|i: int|
                0 <= i < self.params@.len() ==> r@[1 + i] == (GlOp::TexParameter {
                    target: tex.target,
                    param: (#[trigger] self.params@[i]).0,
                    value: self.params@[i].1,
                }),
            r@[r@.len() - 1] == (GlOp::BindTexture { target: tex.target, id: 0 }),
    {
        let mut r: Vec<GlOp> = Vec::new();
        r.push(tex.bind());
        let mut i: usize = 0;
        while i < self.params.len()
            invariant
                i <= self.params@.len(),
                r@.len() == 1 + i,
                r@[0] == (GlOp::BindTexture { target: tex.target, id: tex.id }),
                forall|k: int|
                    0 <= k < i ==> r@[1 + k] == (GlOp::TexParameter {
                        target: tex.target,
                        param: (#[trigger] self.params@[k]).0,
                        value: self.params@[k].1,
                    }),
            decreases self.params@.len() - i,
        {
            let p = self.params[i];
            r.push(GlOp::TexParameter { target: tex.target, param: p.0, value: p.1 });
            i = i + 1;
        }
        r.push(tex.unbind());
        r
    }
}

} // verus!
