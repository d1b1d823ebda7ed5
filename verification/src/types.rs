//! Enumerations mirroring the native API's enumerant groups.
//!
//! Each enum exposes `code`, the numeric value the native API expects, so the
//! embedder can translate a verified command description into a native call.

use vstd::prelude::*;

verus! {

/// Primitive topologies accepted by draw commands.
#[derive(Copy, Clone, PartialEq, Eq, Structural, Debug)]
pub enum GlLayout {
    Triangles,
    TriangleStrip,
    TriangleFan,
    LineStrip,
}

impl GlLayout {
    /// Native enumerant for this topology.
    pub open spec fn spec_code(self) -> u32 {
        match self {
            GlLayout::Triangles => 0x0004,
            GlLayout::TriangleStrip => 0x0005,
            GlLayout::TriangleFan => 0x0006,
            GlLayout::LineStrip => 0x0003,
        }
    }

    pub fn code(self) -> (r: u32)
        ensures
            r == self.spec_code(),
    {
        match self {
            GlLayout::Triangles => 0x0004,
            GlLayout::TriangleStrip => 0x0005,
            GlLayout::TriangleFan => 0x0006,
            GlLayout::LineStrip => 0x0003,
        }
    }
}

/// Vertex shader input slots, numbered as the shader sources declare them.
#[derive(Copy, Clone, PartialEq, Eq, Structural, Debug)]
pub enum ShaderAttrib {
    POSITION,
    NORMAL,
    COLOR,
    TANGENT,
    BINORMAL,
    TEXCOORD0,
    TEXCOORD1,
    TEXCOORD2,
    TEXCOORD3,
    SPECIAL0,
}

impl ShaderAttrib {
    /// Attribute location in the shader interface.
    pub open spec fn spec_location(self) -> u32 {
        match self {
            ShaderAttrib::POSITION => 0,
            ShaderAttrib::NORMAL => 1,
            ShaderAttrib::COLOR => 2,
            ShaderAttrib::TANGENT => 3,
            ShaderAttrib::BINORMAL => 4,
            ShaderAttrib::TEXCOORD0 => 5,
            ShaderAttrib::TEXCOORD1 => 6,
            ShaderAttrib::TEXCOORD2 => 7,
            ShaderAttrib::TEXCOORD3 => 8,
            ShaderAttrib::SPECIAL0 => 9,
        }
    }

    pub fn location(self) -> (r: u32)
        ensures
            r == self.spec_location(),
    {
        match self {
            ShaderAttrib::POSITION => 0,
            ShaderAttrib::NORMAL => 1,
            ShaderAttrib::COLOR => 2,
            ShaderAttrib::TANGENT => 3,
            ShaderAttrib::BINORMAL => 4,
            ShaderAttrib::TEXCOORD0 => 5,
            ShaderAttrib::TEXCOORD1 => 6,
            ShaderAttrib::TEXCOORD2 => 7,
            ShaderAttrib::TEXCOORD3 => 8,
            ShaderAttrib::SPECIAL0 => 9,
        }
    }
}

/// Primitive component types accepted by attribute pointers.
#[derive(Copy, Clone, PartialEq, Eq, Structural, Debug)]
pub enum VertexAttrib {
    BYTE,
    UBYTE,
    SHORT,
    USHORT,
    INT,
    UINT,
    FLOAT,
}

impl VertexAttrib {
    /// Native enumerant (GL_BYTE and friends).
    pub open spec fn spec_code(self) -> u32 {
        match self {
            VertexAttrib::BYTE => 0x1400,
            VertexAttrib::UBYTE => 0x1401,
            VertexAttrib::SHORT => 0x1402,
            VertexAttrib::USHORT => 0x1403,
            VertexAttrib::INT => 0x1404,
            VertexAttrib::UINT => 0x1405,
            VertexAttrib::FLOAT => 0x1406,
        }
    }

    pub fn code(self) -> (r: u32)
        ensures
            r == self.spec_code(),
    {
        match self {
            VertexAttrib::BYTE => 0x1400,
            VertexAttrib::UBYTE => 0x1401,
            VertexAttrib::SHORT => 0x1402,
            VertexAttrib::USHORT => 0x1403,
            VertexAttrib::INT => 0x1404,
            VertexAttrib::UINT => 0x1405,
            VertexAttrib::FLOAT => 0x1406,
        }
    }

    /// Width in bytes of one component of this type.
    pub open spec fn spec_byte_size(self) -> usize {
        match self {
            VertexAttrib::BYTE => 1,
            VertexAttrib::UBYTE => 1,
            VertexAttrib::SHORT => 2,
            VertexAttrib::USHORT => 2,
            VertexAttrib::INT => 4,
            VertexAttrib::UINT => 4,
            VertexAttrib::FLOAT => 4,
        }
    }

    pub fn byte_size(self) -> (r: usize)
        ensures
            r == self.spec_byte_size(),
    {
        match self {
            VertexAttrib::BYTE => 1,
            VertexAttrib::UBYTE => 1,
            VertexAttrib::SHORT => 2,
            VertexAttrib::USHORT => 2,
            VertexAttrib::INT => 4,
            VertexAttrib::UINT => 4,
            VertexAttrib::FLOAT => 4,
        }
    }
}

/// Texture binding targets.
#[derive(Copy, Clone, PartialEq, Eq, Structural, Debug)]
pub enum TextureTarget {
    Tex1D,
    Tex1DArray,
    Tex2D,
    Tex2DArray,
    Tex2DMultisample,
    Tex2DMultisampleArray,
    Tex3D,
    TexCubeMap,
    TexCubeMapArray,
    TexRectangle,
}

impl TextureTarget {
    /// Native enumerant (GL_TEXTURE_2D and friends).
    pub open spec fn spec_code(self) -> u32 {
        match self {
            TextureTarget::Tex1D => 0x0DE0,
            TextureTarget::Tex1DArray => 0x8C18,
            TextureTarget::Tex2D => 0x0DE1,
            TextureTarget::Tex2DArray => 0x8C1A,
            TextureTarget::Tex2DMultisample => 0x9100,
            TextureTarget::Tex2DMultisampleArray => 0x9102,
            TextureTarget::Tex3D => 0x806F,
            TextureTarget::TexCubeMap => 0x8513,
            TextureTarget::TexCubeMapArray => 0x9009,
            TextureTarget::TexRectangle => 0x84F5,
        }
    }

    pub fn code(self) -> (r: u32)
        ensures
            r == self.spec_code(),
    {
        match self {
            TextureTarget::Tex1D => 0x0DE0,
            TextureTarget::Tex1DArray => 0x8C18,
            TextureTarget::Tex2D => 0x0DE1,
            TextureTarget::Tex2DArray => 0x8C1A,
            TextureTarget::Tex2DMultisample => 0x9100,
            TextureTarget::Tex2DMultisampleArray => 0x9102,
            TextureTarget::Tex3D => 0x806F,
            TextureTarget::TexCubeMap => 0x8513,
            TextureTarget::TexCubeMapArray => 0x9009,
            TextureTarget::TexRectangle => 0x84F5,
        }
    }
}

/// Parameter names accepted by texture parameter calls.
#[derive(Copy, Clone, PartialEq, Eq, Structural, Debug)]
pub enum TextureParam {
    DepthStencilMode,
    BaseLevel,
    CompareFunction,
    CompareMode,
    LodBias,
    MinFilter,
    MagFilter,
    MinLod,
    MaxLod,
    MaxLevel,
    SwizzleR,
    SwizzleG,
    SwizzleB,
    SwizzleA,
    WrapS,
    WrapT,
    WrapR,
    BorderColor,
    SwizzleRGBA,
}

impl TextureParam {
    /// Native enumerant (GL_TEXTURE_MIN_FILTER and friends).
    pub open spec fn spec_code(self) -> u32 {
        match self {
            TextureParam::DepthStencilMode => 0x90EA,
            TextureParam::BaseLevel => 0x813C,
            TextureParam::CompareFunction => 0x884D,
            TextureParam::CompareMode => 0x884C,
            TextureParam::LodBias => 0x8501,
            TextureParam::MinFilter => 0x2801,
            TextureParam::MagFilter => 0x2800,
            TextureParam::MinLod => 0x813A,
            TextureParam::MaxLod => 0x813B,
            TextureParam::MaxLevel => 0x813D,
            TextureParam::SwizzleR => 0x8E42,
            TextureParam::SwizzleG => 0x8E43,
            TextureParam::SwizzleB => 0x8E44,
            TextureParam::SwizzleA => 0x8E45,
            TextureParam::WrapS => 0x2802,
            TextureParam::WrapT => 0x2803,
            TextureParam::WrapR => 0x8072,
            TextureParam::BorderColor => 0x1004,
            TextureParam::SwizzleRGBA => 0x8E46,
        }
    }

    pub fn code(self) -> (r: u32)
        ensures
            r == self.spec_code(),
    {
        match self {
            TextureParam::DepthStencilMode => 0x90EA,
            TextureParam::BaseLevel => 0x813C,
            TextureParam::CompareFunction => 0x884D,
            TextureParam::CompareMode => 0x884C,
            TextureParam::LodBias => 0x8501,
            TextureParam::MinFilter => 0x2801,
            TextureParam::MagFilter => 0x2800,
            TextureParam::MinLod => 0x813A,
            TextureParam::MaxLod => 0x813B,
            TextureParam::MaxLevel => 0x813D,
            TextureParam::SwizzleR => 0x8E42,
            TextureParam::SwizzleG => 0x8E43,
            TextureParam::SwizzleB => 0x8E44,
            TextureParam::SwizzleA => 0x8E45,
            TextureParam::WrapS => 0x2802,
            TextureParam::WrapT => 0x2803,
            TextureParam::WrapR => 0x8072,
            TextureParam::BorderColor => 0x1004,
            TextureParam::SwizzleRGBA => 0x8E46,
        }
    }
}

} // verus!
