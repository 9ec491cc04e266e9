//! Rendering tests for the shader source representation.

use glsl_gen::expr::{Assignment, Block, Expr, ExprUnboxed, Identifier, RawCode};
use glsl_gen::module::Module;
use glsl_gen::stmt::{Function, PrecisionDecl, Statement};
use glsl_gen::types::{Precision, PrimType, Type};
use glsl_gen::vars::{
    GlobalVar, GlobalVarStorage, InterpolationStorage, Layout, LinkageStorage, LocalVar,
};

fn ident(name: &str) -> Identifier {
    Identifier::from_ref(name)
}

fn ident_expr(name: &str) -> Expr {
    Expr::new(ExprUnboxed::Identifier(ident(name)))
}

#[test]
fn prim_type_keywords() {
    assert_eq!(PrimType::Float.to_code(), "float");
    assert_eq!(PrimType::Int.to_code(), "int");
    assert_eq!(PrimType::Void.to_code(), "void");
    assert_eq!(PrimType::Bool.to_code(), "bool");
    assert_eq!(PrimType::Mat2x3.to_code(), "mat2x3");
    assert_eq!(PrimType::Vec4.to_code(), "vec4");
    assert_eq!(PrimType::IVec2.to_code(), "ivec2");
    assert_eq!(PrimType::SamplerCube.to_code(), "samplerCube");
    assert_eq!(PrimType::Sampler2dArrayShadow.to_code(), "sampler2DArrayShadow");
    assert_eq!(PrimType::USampler3d.to_code(), "usampler3D");
}

#[test]
fn unsigned_scalar_renders_int() {
    assert_eq!(PrimType::UInt.to_code(), "int");
}

#[test]
fn struct_type_renders_its_identifier() {
    assert_eq!(PrimType::Struct(ident("Light")).to_code(), "Light");
}

#[test]
fn keyword_tokens_are_nonempty_and_unique() {
    let prims = vec![
        PrimType::Float,
        PrimType::Int,
        PrimType::Void,
        PrimType::Bool,
        PrimType::Mat2,
        PrimType::Mat3,
        PrimType::Mat4,
        PrimType::Mat2x2,
        PrimType::Mat2x3,
        PrimType::Mat2x4,
        PrimType::Mat3x2,
        PrimType::Mat3x3,
        PrimType::Mat3x4,
        PrimType::Mat4x2,
        PrimType::Mat4x3,
        PrimType::Mat4x4,
        PrimType::Vec2,
        PrimType::Vec3,
        PrimType::Vec4,
        PrimType::IVec2,
        PrimType::IVec3,
        PrimType::IVec4,
        PrimType::BVec2,
        PrimType::BVec3,
        PrimType::BVec4,
        PrimType::UVec2,
        PrimType::UVec3,
        PrimType::UVec4,
        PrimType::Sampler2d,
        PrimType::Sampler3d,
        PrimType::SamplerCube,
        PrimType::Sampler2dShadow,
        PrimType::SamplerCubeShadow,
        PrimType::Sampler2dArray,
        PrimType::Sampler2dArrayShadow,
        PrimType::ISampler2d,
        PrimType::ISampler3d,
        PrimType::ISamplerCube,
        PrimType::ISampler2dArray,
        PrimType::USampler2d,
        PrimType::USampler3d,
        PrimType::USamplerCube,
        PrimType::USampler2dArray,
    ];
    let codes: Vec<String> = prims.iter().map(|p| p.to_code()).collect();
    for code in &codes {
        assert!(!code.is_empty());
    }
    for i in 0..codes.len() {
        for j in 0..codes.len() {
            if i != j {
                assert_ne!(codes[i], codes[j], "tokens {i} and {j} collide");
            }
        }
    }
}

#[test]
fn array_type_renders_dimension() {
    assert_eq!(Type::new_array(PrimType::Float, 16).to_code(), "float[16]");
    assert_eq!(Type::from(PrimType::Vec4).to_code(), "vec4");
}

#[test]
fn precision_keywords() {
    assert_eq!(Precision::Low.to_code(), "lowp");
    assert_eq!(Precision::Medium.to_code(), "mediump");
    assert_eq!(Precision::High.to_code(), "highp");
}

#[test]
fn precision_declaration() {
    let decl = PrecisionDecl::new(Precision::High, Type::from(PrimType::Float));
    assert_eq!(decl.to_code(), "precision highp float;");
}

#[test]
fn identifier_and_raw_code_render_verbatim() {
    assert_eq!(ident_expr("gl_FragColor").to_code(), "gl_FragColor");
    let raw = Expr::new(ExprUnboxed::RawCode(RawCode::new(String::from("a + b"))));
    assert_eq!(raw.to_code(), "a + b");
}

#[test]
fn bare_text_converts_to_a_name_reference() {
    let expr = Expr::from_name("color");
    assert!(matches!(*expr.0, ExprUnboxed::Identifier(_)));
    assert_eq!(expr.to_code(), "color");
}

#[test]
fn assignment_renders_with_terminator() {
    let assignment = Assignment::new(ident_expr("gl_FragColor"), ident_expr("color"));
    let expr = Expr::new(ExprUnboxed::Assignment(assignment));
    assert_eq!(expr.to_code(), "gl_FragColor = color;");
}

#[test]
fn block_renders_one_line_per_expression() {
    let mut block = Block::default();
    block.add(ident_expr("a"));
    block.add(ident_expr("b"));
    let expr = Expr::new(ExprUnboxed::Block(block));
    assert_eq!(expr.to_code(), "\na\nb");
}

#[test]
fn function_renders_braced_indented_body() {
    let mut function = Function {
        typ: Type::from(PrimType::Void),
        ident: ident("main"),
        body: Block::default(),
    };
    function.add(Expr::new(ExprUnboxed::Assignment(Assignment::new(
        ident_expr("gl_FragColor"),
        ident_expr("color"),
    ))));
    assert_eq!(function.to_code(), "void main() {\n    gl_FragColor = color;\n}");
}

#[test]
fn global_var_qualifier_order() {
    let var = GlobalVar {
        layout: Some(Layout { location: 0 }),
        storage: Some(GlobalVarStorage::UniformStorage),
        prec: None,
        typ: Type::from(PrimType::Vec4),
        ident: ident("color"),
    };
    assert_eq!(var.to_code(), "layout(location=0) uniform vec4 color");
}

#[test]
fn global_var_in_storage_with_linkage() {
    let var = GlobalVar {
        layout: None,
        storage: Some(GlobalVarStorage::InStorage(LinkageStorage {
            centroid: true,
            interpolation: Some(InterpolationStorage::Flat),
        })),
        prec: None,
        typ: Type::from(PrimType::Vec2),
        ident: ident("uv"),
    };
    assert_eq!(var.to_code(), "in centroid flat vec2 uv");
    let smooth = GlobalVar {
        layout: None,
        storage: Some(GlobalVarStorage::OutStorage(LinkageStorage {
            centroid: false,
            interpolation: Some(InterpolationStorage::Smooth),
        })),
        prec: None,
        typ: Type::from(PrimType::Vec3),
        ident: ident("normal"),
    };
    assert_eq!(smooth.to_code(), "out smooth vec3 normal");
}

#[test]
fn local_var_renders_without_terminator() {
    let var = LocalVar {
        constant: true,
        typ: Type::from(PrimType::Float),
        ident: ident("x"),
    };
    assert_eq!(var.to_code(), "const float x");
    let plain = LocalVar {
        constant: false,
        typ: Type::from(PrimType::Int),
        ident: ident("i"),
    };
    assert_eq!(plain.to_code(), "int i");
}

#[test]
fn default_module_renders_single_main_function() {
    let text = Module::default().to_code();
    assert_eq!(text, "#version 300 es\n\n\n\nvoid main() {\n}");
    assert_eq!(text.matches('{').count(), 1);
    assert_eq!(text.matches('}').count(), 1);
    assert_eq!(text.matches("void main()").count(), 1);
}

#[test]
fn module_end_to_end() {
    let mut module = Module::default();
    module.add_global_var(GlobalVar {
        layout: None,
        storage: Some(GlobalVarStorage::UniformStorage),
        prec: None,
        typ: Type::from(PrimType::Vec4),
        ident: ident("color"),
    });
    module.add_expr(Expr::new(ExprUnboxed::Assignment(Assignment::new(
        ident_expr("gl_FragColor"),
        ident_expr("color"),
    ))));
    let text = module.to_code();
    assert_eq!(
        text,
        "#version 300 es\n\n\nuniform vec4 color;\n\nvoid main() {\n    gl_FragColor = color;\n}"
    );
    let pragma = text.find("#version 300 es").unwrap();
    let decl = text.find("uniform vec4 color;").unwrap();
    let main_fn = text.find("void main()").unwrap();
    let body = text.find("gl_FragColor = color;").unwrap();
    assert!(pragma < decl && decl < main_fn && main_fn < body);
}

#[test]
fn module_with_all_groups_in_emission_order() {
    let mut module = Module::default();
    module.add_prec_decl(PrecisionDecl::new(Precision::High, Type::from(PrimType::Float)));
    module.add_prec_decl(PrecisionDecl::new(Precision::Medium, Type::from(PrimType::Int)));
    module.add_global_var(GlobalVar {
        layout: Some(Layout { location: 1 }),
        storage: Some(GlobalVarStorage::InStorage(LinkageStorage::default())),
        prec: None,
        typ: Type::from(PrimType::Vec2),
        ident: ident("uv"),
    });
    module.add_statement(Statement::Raw(RawCode::new(String::from("// helpers"))));
    let text = module.to_code();
    assert_eq!(
        text,
        "#version 300 es\n\nprecision highp float;\nprecision mediump int;\n\nlayout(location=1) in vec2 uv;\n\n// helpers\nvoid main() {\n}"
    );
}

#[test]
fn rendering_twice_is_identical() {
    let mut module = Module::default();
    module.add_global_var(GlobalVar {
        layout: None,
        storage: Some(GlobalVarStorage::UniformStorage),
        prec: None,
        typ: Type::from(PrimType::Mat4),
        ident: ident("projection"),
    });
    module.add_expr(ident_expr("projection"));
    let first = module.to_code();
    let second = module.to_code();
    assert_eq!(first, second);
}

#[test]
fn statement_from_precision_decl() {
    let decl = PrecisionDecl::new(Precision::Low, Type::from(PrimType::Sampler2d));
    let statement = Statement::from(decl);
    let mut module = Module::default();
    module.add_statement(statement);
    let text = module.to_code();
    assert!(text.contains("precision lowp sampler2d;"));
}
