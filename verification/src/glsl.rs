//! The literal layer: the textual code value and conversions from host
//! scalar values into literal expressions.

use vstd::prelude::*;

use crate::builder::CodeBuilder;
use crate::numeral::int_text;
use crate::numeral::dec_i32;
use crate::types::PrimType;
use crate::types::prim_code;

verus! {

// ============
// === Glsl ===
// ============

/// A piece of rendered code: raw, textual representation.
#[derive(Clone, Debug, PartialEq, Eq, Hash)]
pub struct Glsl {
    pub str: String,
}

impl View for Glsl {
    type V = Seq<char>;

    open spec fn view(&self) -> Seq<char> {
        self.str@
    }
}

impl Glsl {
    /// Borrows the code text.
    pub fn as_str(&self) -> (r: &str)
        ensures
            r@ == self@,
    {
        self.str.as_str()
    }

    /// Copies a borrowed piece of text into a code value.
    pub fn from_ref(s: &str) -> (r: Self)
        ensures
            r@ == s@,
    {
        Glsl { str: String::from_str(s) }
    }
}

impl From<String> for Glsl {
    fn from(t: String) -> (r: Self) {
        Glsl { str: t }
    }
}

impl vstd::std_specs::convert::FromSpecImpl<String> for Glsl {
    open spec fn obeys_from_spec() -> bool {
        true
    }

    open spec fn from_spec(t: String) -> Self {
        Glsl { str: t }
    }
}

impl From<Glsl> for String {
    fn from(t: Glsl) -> (r: Self) {
        t.str
    }
}

impl vstd::std_specs::convert::FromSpecImpl<Glsl> for String {
    open spec fn obeys_from_spec() -> bool {
        true
    }

    open spec fn from_spec(t: Glsl) -> Self {
        t.str
    }
}

// ========================
// === Literal building ===
// ========================

/// The boolean literal tokens.
pub open spec fn bool_text(b: bool) -> Seq<char> {
    if b {
        "true"@
    } else {
        "false"@
    }
}

impl Glsl {
    /// The literal of a boolean value.
    pub fn from_bool(t: bool) -> (r: Glsl)
        ensures
            r@ == bool_text(t),
    {
        if t {
            Glsl::from_ref("true")
        } else {
            Glsl::from_ref("false")
        }
    }

    /// The literal of a signed 32-bit integer: decimal text, no suffix.
    pub fn from_i32(t: i32) -> (r: Glsl)
        ensures
            r@ == int_text(t as int),
    {
        Glsl { str: dec_i32(t) }
    }
}

/// Whether the text contains a decimal point.
pub open spec fn has_dot(s: Seq<char>) -> bool {
    exists|i: int| 0 <= i < s.len() && s[i] == '.'
}

/// The token of a floating literal, given the plain decimal text of the
/// value: when the text carries no decimal point, `.0` is forced onto it,
/// so the token can never read as an integer literal.
pub open spec fn float_text(s: Seq<char>) -> Seq<char> {
    if has_dot(s) {
        s
    } else {
        s + ".0"@
    }
}

/// Builds a floating literal from the plain decimal text of the value.
/// The result always contains a decimal point.
pub fn float_literal(s: &str) -> (r: Glsl)
    ensures
        r@ == float_text(s@),
        has_dot(r@),
{
    let n: usize = s.unicode_len();
    let mut i: usize = 0;
    let mut found: bool = false;
    while i < n && !found
        invariant
            n == s@.len(),
            i <= n,
            found ==> has_dot(s@),
            !found ==> forall|k: int| 0 <= k < i ==> s@[k] != '.',
        decreases n - i + (if found { 0int } else { 1int }),
    {
        if s.get_char(i) == '.' {
            found = true;
        } else {
            i = i + 1;
        }
    }
    if found {
        Glsl::from_ref(s)
    } else {
        let mut out = String::from_str(s);
        out.append(".0");
        proof {
            reveal_strlit(".0");
            assert(!has_dot(s@));
            assert(out@ == float_text(s@));
            assert(out@[s@.len() as int] == '.');
        }
        Glsl { str: out }
    }
}

// ========================
// === Constructor call ===
// ========================

/// Comma-joined argument texts.
pub open spec fn comma_join(es: Seq<Seq<char>>) -> Seq<char>
    decreases es,
{
    if es.len() == 0 {
        Seq::empty()
    } else if es.len() == 1 {
        es.last()
    } else {
        comma_join(es.drop_last()) + ","@ + es.last()
    }
}

/// The literal of a vector or matrix value: a type-constructor call whose
/// argument list is the flattened element sequence, in the host's element
/// order, each element already formatted by the caller.
pub fn constructor_call(prim: &PrimType, args: &Vec<String>) -> (r: Glsl)
    ensures
        r@ == prim_code(*prim) + "("@ + comma_join(args.deep_view()) + ")"@,
{
    let mut builder = CodeBuilder::new();
    prim.build(&mut builder);
    builder.write("(");
    let ghost mark: Seq<char> = builder.code@;
    let n: usize = args.len();
    let mut i: usize = 0;
    while i < n
        invariant
            n == args@.len(),
            i <= n,
            args.deep_view().len() == n,
            forall|k: int| 0 <= k < n ==> args.deep_view()[k] == args@[k]@,
            builder.code@ == mark + comma_join(args.deep_view().take(i as int)),
            builder.indent == 0,
        decreases n - i,
    {
        if i > 0 {
            builder.write(",");
        }
        builder.write(args[i].as_str());
        proof {
            let post = args.deep_view().take(i + 1);
            assert(post.drop_last() =~= args.deep_view().take(i as int));
            assert(post.last() == args.deep_view()[i as int]);
            assert(builder.code@ =~= mark + comma_join(post));
        }
        i = i + 1;
    }
    proof {
        assert(args.deep_view().take(n as int) =~= args.deep_view());
    }
    builder.write(")");
    proof {
        assert(builder.code@ =~= prim_code(*prim) + "("@ + comma_join(args.deep_view()) + ")"@);
    }
    Glsl { str: builder.into_code() }
}

} // verus!
