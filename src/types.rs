//! Types and patterns as target-language documents.
use crate::ast::{ArraySize, BaseTyp};
use crate::doc::{cat, group, join, space, text, typ_tuple, views, Doc, DocV};
use crate::names::{dec_seq, dec_string, ident_text, ident_token, patterns_ok, translate_ident, translate_ident_str};
use vstd::prelude::*;
use vstd::string::*;

verus! {

/// The size of a fixed array as written in a type: a named constant is
/// translated like any identifier.
pub open spec fn size_text(s: ArraySize) -> Seq<char> {
    match s {
        ArraySize::Ident(x) => ident_token(x@),
        ArraySize::Integer(i) => dec_seq(i as nat),
    }
}

/// The document of a type: one rule per variant, aliases rendered as themselves.
pub open spec fn typ_doc(t: BaseTyp) -> DocV
    decreases t,
{
    match t {
        BaseTyp::Unit => text("unit"@),
        BaseTyp::Bool => text("bool"@),
        BaseTyp::UInt8 => text("pub_uint8"@),
        BaseTyp::Int8 => text("pub_int8"@),
        BaseTyp::UInt16 => text("pub_uint16"@),
        BaseTyp::Int16 => text("pub_int16"@),
        BaseTyp::UInt32 => text("pub_uint32"@),
        BaseTyp::Int32 => text("pub_int32"@),
        BaseTyp::UInt64 => text("pub_uint64"@),
        BaseTyp::Int64 => text("pub_int64"@),
        BaseTyp::UInt128 => text("pub_uint128"@),
        BaseTyp::Int128 => text("pub_int128"@),
        BaseTyp::Usize => text("uint_size"@),
        BaseTyp::Isize => text("int_size"@),
        BaseTyp::Str => text("string"@),
        BaseTyp::Sequence(tau) => group(cat(cat(text("seq"@), space()), typ_doc(*tau))),
        BaseTyp::Array(size, tau) => group(
            cat(cat(cat(cat(text("lseq"@), space()), typ_doc(*tau)), space()), text(size_text(size))),
        ),
        BaseTyp::Named(x, args) => cat(
            text(ident_text(x)),
            match args {
                None => DocV::Nil,
                Some(a) => cat(space(), join(typs_docs(a@), space())),
            },
        ),
        BaseTyp::Variable(id) => text(seq!['\'', 't'] + dec_seq(id as nat)),
        BaseTyp::Tuple(args) => typ_tuple(typs_docs(args@)),
        BaseTyp::NaturalInteger(_, m) => cat(cat(text("nat_mod"@), space()), text(seq!['0', 'x'] + m@)),
    }
}

pub open spec fn typs_docs(ts: Seq<BaseTyp>) -> Seq<DocV>
    decreases ts,
{
    if ts.len() == 0 {
        Seq::empty()
    } else {
        typs_docs(ts.drop_last()).push(typ_doc(ts.last()))
    }
}

fn size_string(s: &ArraySize) -> (r: String)
    requires
        patterns_ok(),
    ensures
        r@ == size_text(*s),
{
    match s {
        ArraySize::Ident(x) => translate_ident_str(x.as_str()),
        ArraySize::Integer(i) => dec_string(*i as u128),
    }
}

pub fn translate_base_typ(t: &BaseTyp) -> (r: Doc)
    requires
        patterns_ok(),
    ensures
        r@ == typ_doc(*t),
    decreases t,
{
    match t {
        BaseTyp::Unit => Doc::text("unit"),
        BaseTyp::Bool => Doc::text("bool"),
        BaseTyp::UInt8 => Doc::text("pub_uint8"),
        BaseTyp::Int8 => Doc::text("pub_int8"),
        BaseTyp::UInt16 => Doc::text("pub_uint16"),
        BaseTyp::Int16 => Doc::text("pub_int16"),
        BaseTyp::UInt32 => Doc::text("pub_uint32"),
        BaseTyp::Int32 => Doc::text("pub_int32"),
        BaseTyp::UInt64 => Doc::text("pub_uint64"),
        BaseTyp::Int64 => Doc::text("pub_int64"),
        BaseTyp::UInt128 => Doc::text("pub_uint128"),
        BaseTyp::Int128 => Doc::text("pub_int128"),
        BaseTyp::Usize => Doc::text("uint_size"),
        BaseTyp::Isize => Doc::text("int_size"),
        BaseTyp::Str => Doc::text("string"),
        BaseTyp::Sequence(tau) => Doc::text("seq").append(Doc::space()).append(
            translate_base_typ(tau),
        ).group(),
        BaseTyp::Array(size, tau) => Doc::text("lseq").append(Doc::space()).append(
            translate_base_typ(tau),
        ).append(Doc::space()).append(Doc::text_owned(size_string(size))).group(),
        BaseTyp::Named(x, args) => {
            let head = Doc::text_owned(translate_ident(x));
            let tail = match args {
                None => Doc::nil(),
                Some(a) => Doc::space().append(Doc::join(translate_typs(a), &Doc::space())),
            };
            head.append(tail)
        },
        BaseTyp::Variable(id) => {
            proof {
                reveal_strlit("'t");
                assert("'t"@ =~= seq!['\'', 't']);
            }
            let mut s = String::from_str("'t");
            s.append(dec_string(*id as u128).as_str());
            Doc::text_owned(s)
        },
        BaseTyp::Tuple(args) => Doc::typ_tuple(translate_typs(args)),
        BaseTyp::NaturalInteger(_, m) => {
            proof {
                reveal_strlit("0x");
                assert("0x"@ =~= seq!['0', 'x']);
            }
            let mut s = String::from_str("0x");
            s.append(m.as_str());
            Doc::text("nat_mod").append(Doc::space()).append(Doc::text_owned(s))
        },
    }
}

pub fn translate_typs(ts: &Vec<BaseTyp>) -> (r: Vec<Doc>)
    requires
        patterns_ok(),
    ensures
        views(r@) == typs_docs(ts@),
    decreases ts,
{
    let mut out: Vec<Doc> = Vec::new();
    let n = ts.len();
    let mut i: usize = 0;
    proof {
        assert(views(out@) =~= typs_docs(ts@.take(0)));
    }
    while i < n
        invariant
            n == ts@.len(),
            0 <= i <= n,
            patterns_ok(),
            views(out@) == typs_docs(ts@.take(i as int)),
        decreases n - i,
    {
        let d = translate_base_typ(&ts[i]);
        proof {
            assert(ts@.take(i + 1).drop_last() =~= ts@.take(i as int));
        }
        out.push(d);
        proof {
            assert(views(out@) =~= typs_docs(ts@.take(i + 1)));
        }
        i = i + 1;
    }
    proof {
        assert(ts@.take(n as int) =~= ts@);
    }
    out
}

} // verus!
