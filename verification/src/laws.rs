//! Crate-level properties of the rendered text, stated and proved over
//! the same spec functions that the rendering contracts use.

use vstd::prelude::*;

use crate::module::Module;
use crate::module::module_code;
use crate::types::PrimType;
use crate::types::Type;
use crate::types::prim_code;

verus! {

/// Every keyword variant renders a non-empty token.
pub proof fn lemma_prim_code_nonempty(p: PrimType)
    requires
        !(p is Struct),
    ensures
        prim_code(p).len() > 0,
{
    reveal_strlit("float");
    reveal_strlit("int");
    reveal_strlit("void");
    reveal_strlit("bool");
    reveal_strlit("mat2");
    reveal_strlit("mat3");
    reveal_strlit("mat4");
    reveal_strlit("mat2x2");
    reveal_strlit("mat2x3");
    reveal_strlit("mat2x4");
    reveal_strlit("mat3x2");
    reveal_strlit("mat3x3");
    reveal_strlit("mat3x4");
    reveal_strlit("mat4x2");
    reveal_strlit("mat4x3");
    reveal_strlit("mat4x4");
    reveal_strlit("vec2");
    reveal_strlit("vec3");
    reveal_strlit("vec4");
    reveal_strlit("ivec2");
    reveal_strlit("ivec3");
    reveal_strlit("ivec4");
    reveal_strlit("bvec2");
    reveal_strlit("bvec3");
    reveal_strlit("bvec4");
    reveal_strlit("uvec2");
    reveal_strlit("uvec3");
    reveal_strlit("uvec4");
    reveal_strlit("sampler2d");
    reveal_strlit("sampler3d");
    reveal_strlit("samplerCube");
    reveal_strlit("sampler2DShadow");
    reveal_strlit("samplerCubeShadow");
    reveal_strlit("sampler2DArray");
    reveal_strlit("sampler2DArrayShadow");
    reveal_strlit("isampler2D");
    reveal_strlit("isampler3D");
    reveal_strlit("isamplerCube");
    reveal_strlit("isampler2DArray");
    reveal_strlit("usampler2D");
    reveal_strlit("usampler3D");
    reveal_strlit("usamplerCube");
    reveal_strlit("usampler2DArray");
}

/// No two distinct keyword variants share a token. The unsigned scalar is
/// left out: it deliberately renders the same token as the signed one.
#[verifier::rlimit(60)]
pub proof fn lemma_prim_code_unique(a: PrimType, b: PrimType)
    requires
        !(a is Struct),
        !(b is Struct),
        !(a is UInt),
        !(b is UInt),
        a != b,
    ensures
        prim_code(a) != prim_code(b),
{
    reveal_strlit("float");
    reveal_strlit("int");
    reveal_strlit("void");
    reveal_strlit("bool");
    reveal_strlit("mat2");
    reveal_strlit("mat3");
    reveal_strlit("mat4");
    reveal_strlit("mat2x2");
    reveal_strlit("mat2x3");
    reveal_strlit("mat2x4");
    reveal_strlit("mat3x2");
    reveal_strlit("mat3x3");
    reveal_strlit("mat3x4");
    reveal_strlit("mat4x2");
    reveal_strlit("mat4x3");
    reveal_strlit("mat4x4");
    reveal_strlit("vec2");
    reveal_strlit("vec3");
    reveal_strlit("vec4");
    reveal_strlit("ivec2");
    reveal_strlit("ivec3");
    reveal_strlit("ivec4");
    reveal_strlit("bvec2");
    reveal_strlit("bvec3");
    reveal_strlit("bvec4");
    reveal_strlit("uvec2");
    reveal_strlit("uvec3");
    reveal_strlit("uvec4");
    reveal_strlit("sampler2d");
    reveal_strlit("sampler3d");
    reveal_strlit("samplerCube");
    reveal_strlit("sampler2DShadow");
    reveal_strlit("samplerCubeShadow");
    reveal_strlit("sampler2DArray");
    reveal_strlit("sampler2DArrayShadow");
    reveal_strlit("isampler2D");
    reveal_strlit("isampler3D");
    reveal_strlit("isamplerCube");
    reveal_strlit("isampler2DArray");
    reveal_strlit("usampler2D");
    reveal_strlit("usampler3D");
    reveal_strlit("usamplerCube");
    reveal_strlit("usampler2DArray");
    let sa = prim_code(a);
    let sb = prim_code(b);
    if sa == sb {
        assert(sa.len() == sb.len());
        assert(sa[0] == sb[0]);
        assert(sa[3] == sb[3]);
        assert(sa[7] == sb[7]);
        assert(sa[8] == sb[8]);
        assert(sa[sa.len() - 1] == sb[sb.len() - 1]);
        assert(false);
    }
}

/// The empty translation unit renders the version pragma, the two blank
/// lines of the empty groups, and exactly one function block: `main`,
/// returning `void`, with an empty body and matching braces.
pub proof fn lemma_default_module_text(m: Module)
    requires
        m.prec_decls@.len() == 0,
        m.global_vars@.len() == 0,
        m.statements@.len() == 0,
        m.main.typ == (Type { prim: PrimType::Void, array: None }),
        m.main.ident@ == "main"@,
        m.main.body.exprs@.len() == 0,
    ensures
        module_code(m) == "#version 300 es\n\n\n\nvoid main() {\n}"@,
{
    reveal_strlit("#version 300 es\n\n");
    reveal_strlit("\n");
    reveal_strlit("void");
    reveal_strlit("main");
    reveal_strlit(" ");
    reveal_strlit("() {");
    reveal_strlit("}");
    reveal_strlit("#version 300 es\n\n\n\nvoid main() {\n}");
    assert(module_code(m) =~= "#version 300 es\n\n\n\nvoid main() {\n}"@);
}

/// Rendering is deterministic: two renders of one module value yield the
/// same text, so the text can serve as a cache key for compiled programs.
pub proof fn lemma_rendering_deterministic(m: Module, first: Seq<char>, second: Seq<char>)
    requires
        first == module_code(m),
        second == module_code(m),
    ensures
        first == second,
{
}

} // verus!
