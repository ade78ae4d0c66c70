//! Identifiers and literals as target-language tokens.
use crate::ast::{Ident, Literal};
use heck::ToSnakeCase;
use regex::Regex;
use vstd::prelude::*;
use vstd::string::*;

verus! {

/// Whether `regex` accepts `pattern`.
pub uninterp spec fn regex_compiles(pattern: Seq<char>) -> bool;

/// What `regex` makes of `text` when every match of `pattern` is replaced by
/// `rep`, with `${name}` standing for the named group.
pub uninterp spec fn regex_replaced(pattern: Seq<char>, text: Seq<char>, rep: Seq<char>) -> Seq<char>;

/// What `heck` makes of `s` in lower-case, underscore-separated form.
pub uninterp spec fn snake_of(s: Seq<char>) -> Seq<char>;

/// Relies on `regex::Regex::new`: whether it accepts the pattern.
#[verifier::external_body]
pub(crate) fn regex_accepts(pattern: &str) -> (r: bool)
    ensures
        r == regex_compiles(pattern@),
{
    Regex::new(pattern).is_ok()
}

/// Relies on `regex::Regex::replace_all` on the compiled pattern, whose
/// compilation cannot fail here.
#[verifier::external_body]
fn regex_replace_all(pattern: &str, text: &str, rep: &str) -> (r: String)
    requires
        regex_compiles(pattern@),
    ensures
        r@ == regex_replaced(pattern@, text@, rep@),
{
    Regex::new(pattern).unwrap().replace_all(text, rep).into_owned()
}

/// Relies on `heck::ToSnakeCase::to_snake_case`.
#[verifier::external_body]
fn snake_case(s: &str) -> (r: String)
    ensures
        r@ == snake_of(s@),
{
    s.to_snake_case()
}

/// A width marker such as `U32` or `I8`.
pub const INT_MARKER: &'static str = r"(?P<prefix>(U|I))(?P<digits>\d{1,3})";

/// A width marker becomes an explicit `int` marker of the same width.
pub const INT_MARKER_REP: &'static str = "${prefix}int${digits}";

/// The artifact that the signed case leaves behind (`I8` first becomes
/// `Iint8`), at the start of a name or inside it.
pub const SIGNED_FIX: &'static str = "[Ii]int";

pub const SIGNED_FIX_REP: &'static str = "int";

/// Both rewriting patterns are accepted by `regex`.
pub open spec fn patterns_ok() -> bool {
    regex_compiles(INT_MARKER@) && regex_compiles(SIGNED_FIX@)
}

pub open spec fn new_seq() -> Seq<char> {
    seq!['n', 'e', 'w']
}

/// The token of a source name: width markers made explicit, the signed
/// artifact collapsed, snake case, and the keyword `new` escaped.
pub open spec fn ident_token(s: Seq<char>) -> Seq<char> {
    let widened = regex_replaced(INT_MARKER@, s, INT_MARKER_REP@);
    let fixed = regex_replaced(SIGNED_FIX@, widened, SIGNED_FIX_REP@);
    let snake = snake_of(fixed);
    if snake == new_seq() {
        snake.push('_')
    } else {
        snake
    }
}

pub const HEX_DIGITS: &'static str = "0123456789abcdef";

pub const DEC_DIGITS: &'static str = "0123456789";

/// Hexadecimal digits of `n`, lower case, without leading zeros.
pub open spec fn hex_seq(n: nat) -> Seq<char>
    decreases n,
{
    if n < 16 {
        seq![HEX_DIGITS@[n as int]]
    } else {
        hex_seq(n / 16).push(HEX_DIGITS@[(n % 16) as int])
    }
}

/// Decimal digits of `n`, without leading zeros.
pub open spec fn dec_seq(n: nat) -> Seq<char>
    decreases n,
{
    if n < 10 {
        seq![DEC_DIGITS@[n as int]]
    } else {
        dec_seq(n / 10).push(DEC_DIGITS@[(n % 10) as int])
    }
}

/// Decimal form of a signed value, with a leading minus when negative.
pub open spec fn signed_dec_seq(x: int) -> Seq<char> {
    if x < 0 {
        seq!['-'] + dec_seq((-x) as nat)
    } else {
        dec_seq(x as nat)
    }
}

pub fn hex_string(n: u128) -> (r: String)
    ensures
        r@ == hex_seq(n as nat),
    decreases n,
{
    proof {
        reveal_strlit("0123456789abcdef");
    }
    let d = (n % 16) as usize;
    let digit = HEX_DIGITS.substring_char(d, d + 1);
    proof {
        assert(digit@ =~= seq![HEX_DIGITS@[d as int]]);
    }
    if n < 16 {
        String::from_str(digit)
    } else {
        let mut s = hex_string(n / 16);
        s.append(digit);
        s
    }
}

pub fn dec_string(n: u128) -> (r: String)
    ensures
        r@ == dec_seq(n as nat),
    decreases n,
{
    proof {
        reveal_strlit("0123456789");
    }
    let d = (n % 10) as usize;
    let digit = DEC_DIGITS.substring_char(d, d + 1);
    proof {
        assert(digit@ =~= seq![DEC_DIGITS@[d as int]]);
    }
    if n < 10 {
        String::from_str(digit)
    } else {
        let mut s = dec_string(n / 10);
        s.append(digit);
        s
    }
}

pub fn signed_dec_string(x: i128) -> (r: String)
    ensures
        r@ == signed_dec_seq(x as int),
{
    if x < 0 {
        let magnitude = ((-(x + 1)) as u128) + 1;
        let mut s = String::from_str("-");
        proof {
            reveal_strlit("-");
        }
        s.append(dec_string(magnitude).as_str());
        s
    } else {
        dec_string(x as u128)
    }
}

/// The two's complement bit pattern of `x` at the width whose largest
/// unsigned value is `max`.
pub open spec fn twos_complement(x: int, max: nat) -> nat {
    if x < 0 {
        (max + 1 + x) as nat
    } else {
        x as nat
    }
}

pub fn twos(x: i128, max: u128) -> (r: u128)
    requires
        -(max as int) - 1 <= x,
        x <= max,
    ensures
        r as nat == twos_complement(x as int, max as nat),
{
    if x < 0 {
        max - ((-(x + 1)) as u128)
    } else {
        x as u128
    }
}

/// The string form of `s`.
pub fn translate_ident_str(s: &str) -> (r: String)
    requires
        patterns_ok(),
    ensures
        r@ == ident_token(s@),
{
    let widened = regex_replace_all(INT_MARKER, s, INT_MARKER_REP);
    let fixed = regex_replace_all(SIGNED_FIX, widened.as_str(), SIGNED_FIX_REP);
    escape_keyword(snake_case(fixed.as_str()))
}

/// The target language's keyword `new`, escaped by a trailing underscore;
/// any other name unchanged.
pub fn escape_keyword(s: String) -> (r: String)
    ensures
        r@ == (if s@ == new_seq() { s@.push('_') } else { s@ }),
{
    let mut s = s;
    let keyword = String::from_str("new");
    proof {
        reveal_strlit("new");
        assert("new"@ =~= new_seq());
    }
    if s == keyword {
        proof {
            reveal_strlit("_");
        }
        s.append("_");
    }
    s
}

/// The name that an identifier stands for: a synthesized name carries its tag.
pub open spec fn ident_name(x: Ident) -> Seq<char> {
    match x {
        Ident::Original(s) => s@,
        Ident::Hygienic(id, s) => s@ + seq!['_'] + dec_seq(id as nat),
    }
}

pub open spec fn ident_text(x: Ident) -> Seq<char> {
    ident_token(ident_name(x))
}

pub fn ident_name_string(x: &Ident) -> (r: String)
    ensures
        r@ == ident_name(*x),
{
    match x {
        Ident::Original(s) => s.clone(),
        Ident::Hygienic(id, s) => {
            let mut r = s.clone();
            proof {
                reveal_strlit("_");
            }
            r.append("_");
            r.append(dec_string(*id as u128).as_str());
            r
        }
    }
}

/// The token of an identifier.
pub fn translate_ident(x: &Ident) -> (r: String)
    requires
        patterns_ok(),
    ensures
        r@ == ident_text(*x),
{
    let name = ident_name_string(x);
    translate_ident_str(name.as_str())
}

pub open spec fn hex_lit(ctor: Seq<char>, bits: nat) -> Seq<char> {
    ctor + seq![' ', '0', 'x'] + hex_seq(bits)
}

/// The token of a literal value.
pub open spec fn literal_text(l: Literal) -> Seq<char> {
    match l {
        Literal::Unit => seq!['(', ')'],
        Literal::Bool(true) => seq!['t', 'r', 'u', 'e'],
        Literal::Bool(false) => seq!['f', 'a', 'l', 's', 'e'],
        Literal::Int128(x) => hex_lit(seq!['p', 'u', 'b', '_', 'i', '1', '2', '8'], twos_complement(x as int, u128::MAX as nat)),
        Literal::UInt128(x) => hex_lit(seq!['p', 'u', 'b', '_', 'u', '1', '2', '8'], x as nat),
        Literal::Int64(x) => hex_lit(seq!['p', 'u', 'b', '_', 'i', '6', '4'], twos_complement(x as int, u64::MAX as nat)),
        Literal::UInt64(x) => hex_lit(seq!['p', 'u', 'b', '_', 'u', '6', '4'], x as nat),
        Literal::Int32(x) => hex_lit(seq!['p', 'u', 'b', '_', 'i', '3', '2'], twos_complement(x as int, u32::MAX as nat)),
        Literal::UInt32(x) => hex_lit(seq!['p', 'u', 'b', '_', 'u', '3', '2'], x as nat),
        Literal::Int16(x) => hex_lit(seq!['p', 'u', 'b', '_', 'i', '1', '6'], twos_complement(x as int, u16::MAX as nat)),
        Literal::UInt16(x) => hex_lit(seq!['p', 'u', 'b', '_', 'u', '1', '6'], x as nat),
        Literal::Int8(x) => hex_lit(seq!['p', 'u', 'b', '_', 'i', '8'], twos_complement(x as int, u8::MAX as nat)),
        Literal::UInt8(x) => hex_lit(seq!['p', 'u', 'b', '_', 'u', '8'], x as nat),
        Literal::Isize(x) => seq!['i', 's', 'i', 'z', 'e', ' '] + signed_dec_seq(x as int),
        Literal::Usize(x) => seq!['u', 's', 'i', 'z', 'e', ' '] + dec_seq(x as nat),
        Literal::Str(s) => seq!['"'] + s@ + seq!['"'],
    }
}

fn hex_literal(ctor: &str, bits: u128) -> (r: String)
    ensures
        r@ == hex_lit(ctor@, bits as nat),
{
    let mut s = String::from_str(ctor);
    proof {
        reveal_strlit(" 0x");
    }
    s.append(" 0x");
    s.append(hex_string(bits).as_str());
    s
}

pub fn translate_literal(l: &Literal) -> (r: String)
    ensures
        r@ == literal_text(*l),
{
    match l {
        Literal::Unit => {
            proof { reveal_strlit("()"); }
            String::from_str("()")
        },
        Literal::Bool(true) => {
            proof { reveal_strlit("true"); }
            String::from_str("true")
        },
        Literal::Bool(false) => {
            proof { reveal_strlit("false"); }
            String::from_str("false")
        },
        Literal::Int128(x) => {
            proof { reveal_strlit("pub_i128"); }
            hex_literal("pub_i128", twos(*x, u128::MAX))
        },
        Literal::UInt128(x) => {
            proof { reveal_strlit("pub_u128"); }
            hex_literal("pub_u128", *x)
        },
        Literal::Int64(x) => {
            proof { reveal_strlit("pub_i64"); }
            hex_literal("pub_i64", twos(*x as i128, u64::MAX as u128))
        },
        Literal::UInt64(x) => {
            proof { reveal_strlit("pub_u64"); }
            hex_literal("pub_u64", *x as u128)
        },
        Literal::Int32(x) => {
            proof { reveal_strlit("pub_i32"); }
            hex_literal("pub_i32", twos(*x as i128, u32::MAX as u128))
        },
        Literal::UInt32(x) => {
            proof { reveal_strlit("pub_u32"); }
            hex_literal("pub_u32", *x as u128)
        },
        Literal::Int16(x) => {
            proof { reveal_strlit("pub_i16"); }
            hex_literal("pub_i16", twos(*x as i128, u16::MAX as u128))
        },
        Literal::UInt16(x) => {
            proof { reveal_strlit("pub_u16"); }
            hex_literal("pub_u16", *x as u128)
        },
        Literal::Int8(x) => {
            proof { reveal_strlit("pub_i8"); }
            hex_literal("pub_i8", twos(*x as i128, u8::MAX as u128))
        },
        Literal::UInt8(x) => {
            proof { reveal_strlit("pub_u8"); }
            hex_literal("pub_u8", *x as u128)
        },
        Literal::Isize(x) => {
            proof { reveal_strlit("isize "); }
            let mut s = String::from_str("isize ");
            s.append(signed_dec_string(*x as i128).as_str());
            s
        },
        Literal::Usize(x) => {
            proof { reveal_strlit("usize "); }
            let mut s = String::from_str("usize ");
            s.append(dec_string(*x as u128).as_str());
            s
        },
        Literal::Str(m) => {
            proof { reveal_strlit("\""); }
            let mut s = String::from_str("\"");
            s.append(m.as_str());
            s.append("\"");
            s
        },
    }
}

} // verus!
