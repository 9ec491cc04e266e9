//! Tests of the literal layer: decimal text, boolean and integer
//! literals, floating literals and constructor calls.

use glsl_gen::glsl::{constructor_call, float_literal, Glsl};
use glsl_gen::numeral::{dec_i32, dec_usize};
use glsl_gen::types::PrimType;

#[test]
fn decimal_text_of_unsigned_values() {
    assert_eq!(dec_usize(0), "0");
    assert_eq!(dec_usize(7), "7");
    assert_eq!(dec_usize(10), "10");
    assert_eq!(dec_usize(40961), "40961");
    assert_eq!(dec_usize(1000000), "1000000");
}

#[test]
fn decimal_text_of_signed_values() {
    assert_eq!(dec_i32(0), "0");
    assert_eq!(dec_i32(-1), "-1");
    assert_eq!(dec_i32(123456), "123456");
    assert_eq!(dec_i32(i32::MAX), "2147483647");
    assert_eq!(dec_i32(i32::MIN), "-2147483648");
}

#[test]
fn boolean_literals() {
    assert_eq!(Glsl::from_bool(true).as_str(), "true");
    assert_eq!(Glsl::from_bool(false).as_str(), "false");
}

#[test]
fn integer_literal_has_no_suffix() {
    assert_eq!(Glsl::from_i32(-17).as_str(), "-17");
    assert_eq!(Glsl::from_i32(3).as_str(), "3");
}

#[test]
fn float_literal_forces_decimal_point() {
    assert_eq!(float_literal("3").as_str(), "3.0");
    assert_eq!(float_literal("-12").as_str(), "-12.0");
    assert_eq!(float_literal("3.25").as_str(), "3.25");
    assert_eq!(float_literal("-0.001").as_str(), "-0.001");
}

#[test]
fn float_literal_round_trips() {
    let samples: [f32; 10] =
        [0.0, 1.0, -2.5, 3.0, 0.125, 10000000.0, -0.001, 338.5, f32::MAX, f32::MIN_POSITIVE];
    for &f in samples.iter() {
        let plain = format!("{}", f);
        let literal = float_literal(&plain);
        assert!(literal.as_str().contains('.'), "no decimal point in {}", literal.as_str());
        let back: f32 = literal.as_str().parse().unwrap();
        assert_eq!(back, f);
    }
}

#[test]
fn constructor_call_joins_elements() {
    let args = vec![String::from("1.0"), String::from("2.5")];
    let call = constructor_call(&PrimType::Vec2, &args);
    assert_eq!(call.as_str(), "vec2(1.0,2.5)");

    let mat = vec![
        String::from("1.0"),
        String::from("0.0"),
        String::from("0.0"),
        String::from("1.0"),
    ];
    assert_eq!(constructor_call(&PrimType::Mat2, &mat).as_str(), "mat2(1.0,0.0,0.0,1.0)");

    let empty: Vec<String> = Vec::new();
    assert_eq!(constructor_call(&PrimType::Vec3, &empty).as_str(), "vec3()");
}

#[test]
fn glsl_string_conversions() {
    let glsl = Glsl::from(String::from("x + y"));
    assert_eq!(glsl.as_str(), "x + y");
    let back = String::from(glsl);
    assert_eq!(back, "x + y");
    assert_eq!(Glsl::from_ref("z").as_str(), "z");
}
