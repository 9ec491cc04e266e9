//! The type system: the closed set of primitive types, the array wrapper
//! around them, and precision qualifiers.

use vstd::prelude::*;

use crate::builder::CodeBuilder;
use crate::expr::Identifier;
use crate::numeral::dec_digits;
use crate::numeral::dec_usize;

verus! {

// ================
// === PrimType ===
// ================

/// Any non-array type. Each variant except `Struct` maps to exactly one
/// reserved keyword token.
#[derive(Clone, Debug, PartialEq, Eq, Hash)]
pub enum PrimType {
    Float,
    Int,
    Void,
    Bool,
    Mat2,
    Mat3,
    Mat4,
    Mat2x2,
    Mat2x3,
    Mat2x4,
    Mat3x2,
    Mat3x3,
    Mat3x4,
    Mat4x2,
    Mat4x3,
    Mat4x4,
    Vec2,
    Vec3,
    Vec4,
    IVec2,
    IVec3,
    IVec4,
    BVec2,
    BVec3,
    BVec4,
    UInt,
    UVec2,
    UVec3,
    UVec4,
    Sampler2d,
    Sampler3d,
    SamplerCube,
    Sampler2dShadow,
    SamplerCubeShadow,
    Sampler2dArray,
    Sampler2dArrayShadow,
    ISampler2d,
    ISampler3d,
    ISamplerCube,
    ISampler2dArray,
    USampler2d,
    USampler3d,
    USamplerCube,
    USampler2dArray,
    Struct(Identifier),
}

/// The keyword token of a primitive type; a named struct renders its own
/// identifier. The unsigned scalar deliberately renders the token `int`,
/// the form downstream consumers of this dialect already accept.
pub open spec fn prim_code(t: PrimType) -> Seq<char> {
    match t {
        PrimType::Float => "float"@,
        PrimType::Int => "int"@,
        PrimType::Void => "void"@,
        PrimType::Bool => "bool"@,
        PrimType::Mat2 => "mat2"@,
        PrimType::Mat3 => "mat3"@,
        PrimType::Mat4 => "mat4"@,
        PrimType::Mat2x2 => "mat2x2"@,
        PrimType::Mat2x3 => "mat2x3"@,
        PrimType::Mat2x4 => "mat2x4"@,
        PrimType::Mat3x2 => "mat3x2"@,
        PrimType::Mat3x3 => "mat3x3"@,
        PrimType::Mat3x4 => "mat3x4"@,
        PrimType::Mat4x2 => "mat4x2"@,
        PrimType::Mat4x3 => "mat4x3"@,
        PrimType::Mat4x4 => "mat4x4"@,
        PrimType::Vec2 => "vec2"@,
        PrimType::Vec3 => "vec3"@,
        PrimType::Vec4 => "vec4"@,
        PrimType::IVec2 => "ivec2"@,
        PrimType::IVec3 => "ivec3"@,
        PrimType::IVec4 => "ivec4"@,
        PrimType::BVec2 => "bvec2"@,
        PrimType::BVec3 => "bvec3"@,
        PrimType::BVec4 => "bvec4"@,
        PrimType::UInt => "int"@,
        PrimType::UVec2 => "uvec2"@,
        PrimType::UVec3 => "uvec3"@,
        PrimType::UVec4 => "uvec4"@,
        PrimType::Sampler2d => "sampler2d"@,
        PrimType::Sampler3d => "sampler3d"@,
        PrimType::SamplerCube => "samplerCube"@,
        PrimType::Sampler2dShadow => "sampler2DShadow"@,
        PrimType::SamplerCubeShadow => "samplerCubeShadow"@,
        PrimType::Sampler2dArray => "sampler2DArray"@,
        PrimType::Sampler2dArrayShadow => "sampler2DArrayShadow"@,
        PrimType::ISampler2d => "isampler2D"@,
        PrimType::ISampler3d => "isampler3D"@,
        PrimType::ISamplerCube => "isamplerCube"@,
        PrimType::ISampler2dArray => "isampler2DArray"@,
        PrimType::USampler2d => "usampler2D"@,
        PrimType::USampler3d => "usampler3D"@,
        PrimType::USamplerCube => "usamplerCube"@,
        PrimType::USampler2dArray => "usampler2DArray"@,
        PrimType::Struct(ident) => ident@,
    }
}

impl PrimType {
    /// Appends the type's token to the buffer.
    pub fn build(&self, builder: &mut CodeBuilder)
        ensures
            final(builder).code@ == old(builder).code@ + prim_code(*self),
            final(builder).indent == old(builder).indent,
    {
        match self {
            PrimType::Float => builder.write("float"),
            PrimType::Int => builder.write("int"),
            PrimType::Void => builder.write("void"),
            PrimType::Bool => builder.write("bool"),
            PrimType::Mat2 => builder.write("mat2"),
            PrimType::Mat3 => builder.write("mat3"),
            PrimType::Mat4 => builder.write("mat4"),
            PrimType::Mat2x2 => builder.write("mat2x2"),
            PrimType::Mat2x3 => builder.write("mat2x3"),
            PrimType::Mat2x4 => builder.write("mat2x4"),
            PrimType::Mat3x2 => builder.write("mat3x2"),
            PrimType::Mat3x3 => builder.write("mat3x3"),
            PrimType::Mat3x4 => builder.write("mat3x4"),
            PrimType::Mat4x2 => builder.write("mat4x2"),
            PrimType::Mat4x3 => builder.write("mat4x3"),
            PrimType::Mat4x4 => builder.write("mat4x4"),
            PrimType::Vec2 => builder.write("vec2"),
            PrimType::Vec3 => builder.write("vec3"),
            PrimType::Vec4 => builder.write("vec4"),
            PrimType::IVec2 => builder.write("ivec2"),
            PrimType::IVec3 => builder.write("ivec3"),
            PrimType::IVec4 => builder.write("ivec4"),
            PrimType::BVec2 => builder.write("bvec2"),
            PrimType::BVec3 => builder.write("bvec3"),
            PrimType::BVec4 => builder.write("bvec4"),
            PrimType::UInt => builder.write("int"),
            PrimType::UVec2 => builder.write("uvec2"),
            PrimType::UVec3 => builder.write("uvec3"),
            PrimType::UVec4 => builder.write("uvec4"),
            PrimType::Sampler2d => builder.write("sampler2d"),
            PrimType::Sampler3d => builder.write("sampler3d"),
            PrimType::SamplerCube => builder.write("samplerCube"),
            PrimType::Sampler2dShadow => builder.write("sampler2DShadow"),
            PrimType::SamplerCubeShadow => builder.write("samplerCubeShadow"),
            PrimType::Sampler2dArray => builder.write("sampler2DArray"),
            PrimType::Sampler2dArrayShadow => builder.write("sampler2DArrayShadow"),
            PrimType::ISampler2d => builder.write("isampler2D"),
            PrimType::ISampler3d => builder.write("isampler3D"),
            PrimType::ISamplerCube => builder.write("isamplerCube"),
            PrimType::ISampler2dArray => builder.write("isampler2DArray"),
            PrimType::USampler2d => builder.write("usampler2D"),
            PrimType::USampler3d => builder.write("usampler3D"),
            PrimType::USamplerCube => builder.write("usamplerCube"),
            PrimType::USampler2dArray => builder.write("usampler2DArray"),
            PrimType::Struct(ident) => ident.build(builder),
        }
    }

    /// Renders the type's token alone.
    pub fn to_code(&self) -> (r: String)
        ensures
            r@ == prim_code(*self),
    {
        let mut builder = CodeBuilder::new();
        self.build(&mut builder);
        proof {
            assert(builder.code@ =~= prim_code(*self));
        }
        builder.into_code()
    }
}

// ============
// === Type ===
// ============

/// A usage of a primitive type, optionally as a fixed-size array.
#[derive(Clone, Debug, PartialEq, Eq, Hash)]
pub struct Type {
    pub prim: PrimType,
    /// Array dimension; a well-formed type keeps it positive.
    pub array: Option<usize>,
}

/// The trailing array dimension, `[N]`, when there is one.
pub open spec fn array_text(array: Option<usize>) -> Seq<char> {
    match array {
        Option::None => Seq::empty(),
        Option::Some(n) => "["@ + dec_digits(n as nat) + "]"@,
    }
}

/// The text of a full type: its primitive token, then its array dimension.
pub open spec fn type_code(t: Type) -> Seq<char> {
    prim_code(t.prim) + array_text(t.array)
}

/// A type is well formed when its array dimension, if present, is positive.
pub open spec fn type_well_formed(t: Type) -> bool {
    match t.array {
        Option::None => true,
        Option::Some(n) => n > 0,
    }
}

impl Type {
    /// A fixed-size array of a primitive type.
    pub fn new_array(prim: PrimType, size: usize) -> (r: Self)
        requires
            size > 0,
        ensures
            r.prim == prim,
            r.array == Some(size),
            type_well_formed(r),
    {
        Type { prim, array: Some(size) }
    }

    /// Appends the type to the buffer.
    pub fn build(&self, builder: &mut CodeBuilder)
        ensures
            final(builder).code@ == old(builder).code@ + type_code(*self),
            final(builder).indent == old(builder).indent,
    {
        self.prim.build(builder);
        match self.array {
            Option::None => {},
            Option::Some(n) => {
                builder.write("[");
                builder.write(dec_usize(n).as_str());
                builder.write("]");
            },
        }
        proof {
            assert(builder.code@ =~= old(builder).code@ + type_code(*self));
        }
    }

    /// Renders the type alone.
    pub fn to_code(&self) -> (r: String)
        ensures
            r@ == type_code(*self),
    {
        let mut builder = CodeBuilder::new();
        self.build(&mut builder);
        proof {
            assert(builder.code@ =~= type_code(*self));
        }
        builder.into_code()
    }
}

impl From<PrimType> for Type {
    fn from(prim: PrimType) -> (r: Self) {
        Type { prim, array: None }
    }
}

impl vstd::std_specs::convert::FromSpecImpl<PrimType> for Type {
    open spec fn obeys_from_spec() -> bool {
        true
    }

    open spec fn from_spec(prim: PrimType) -> Self {
        Type { prim, array: None }
    }
}

// =================
// === Precision ===
// =================

/// Precision qualifier of a type.
#[derive(Clone, Copy, Debug, PartialEq, Eq, Hash)]
pub enum Precision {
    Low,
    Medium,
    High,
}

/// The keyword of a precision qualifier.
pub open spec fn precision_code(p: Precision) -> Seq<char> {
    match p {
        Precision::Low => "lowp"@,
        Precision::Medium => "mediump"@,
        Precision::High => "highp"@,
    }
}

impl Precision {
    /// Appends the qualifier's keyword to the buffer.
    pub fn build(&self, builder: &mut CodeBuilder)
        ensures
            final(builder).code@ == old(builder).code@ + precision_code(*self),
            final(builder).indent == old(builder).indent,
    {
        match self {
            Precision::Low => builder.write("lowp"),
            Precision::Medium => builder.write("mediump"),
            Precision::High => builder.write("highp"),
        }
    }

    /// Renders the qualifier's keyword alone.
    pub fn to_code(&self) -> (r: String)
        ensures
            r@ == precision_code(*self),
    {
        let mut builder = CodeBuilder::new();
        self.build(&mut builder);
        proof {
            assert(builder.code@ =~= precision_code(*self));
        }
        builder.into_code()
    }
}

} // verus!
