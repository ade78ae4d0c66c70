//! Type-directed choice of operator symbols and call names.
use crate::ast::{ArraySize, BaseTyp, BinOp, DictEntry, DictItem, Ident, TranslateError, TypeDict, UnOp, dict_find};
use crate::doc::{cat, space, text, Doc, DocV};
use crate::names::{dec_seq, dec_string, ident_text, ident_token, patterns_ok, translate_ident, translate_ident_str};
use crate::types::{translate_base_typ, typ_doc};
use vstd::prelude::*;

verus! {

pub open spec fn is_machine_int(t: BaseTyp) -> bool {
    t is Usize || t is Isize
}

pub open spec fn is_seq_like(t: BaseTyp) -> bool {
    t is Sequence || t is Array
}

/// The symbol of `op` on operands of type `t` read structurally.
pub open spec fn structural_op(op: BinOp, t: BaseTyp) -> Seq<char> {
    match op {
        BinOp::Sub => if is_machine_int(t) { "-"@ } else if is_seq_like(t) { "`seq_minus`"@ } else { "-."@ },
        BinOp::Add => if is_machine_int(t) { "+"@ } else if is_seq_like(t) { "`seq_add`"@ } else { "+."@ },
        BinOp::Mul => if is_machine_int(t) { "*"@ } else if is_seq_like(t) { "`seq_mul`"@ } else { "*."@ },
        BinOp::Div => if is_machine_int(t) { "/"@ } else if is_seq_like(t) { "`seq_div`"@ } else { "/."@ },
        BinOp::Rem => if is_machine_int(t) { "%"@ } else { "%."@ },
        BinOp::BitXor => if is_seq_like(t) { "`seq_xor`"@ } else { "^."@ },
        BinOp::BitAnd => if is_seq_like(t) { "`seq_and`"@ } else { "&."@ },
        BinOp::BitOr => if is_seq_like(t) { "`seq_or`"@ } else { "|."@ },
        BinOp::Shl => "`shift_left`"@,
        BinOp::Shr => "`shift_right`"@,
        BinOp::Lt => "<."@,
        BinOp::Le => "<=."@,
        BinOp::Ge => ">=."@,
        BinOp::Gt => ">."@,
        BinOp::Ne => "!="@,
        BinOp::Eq => "=="@,
        BinOp::And => "&&"@,
        BinOp::Or => "||"@,
    }
}

/// The symbol of `op` on a modular-integer type `t`: plain arithmetic, the
/// type-independent shifts, comparisons and boolean operators, and no
/// bitwise operators.
pub open spec fn nat_mod_op(op: BinOp, t: BaseTyp) -> Result<Seq<char>, TranslateError> {
    match op {
        BinOp::Sub => Ok("-"@),
        BinOp::Add => Ok("+"@),
        BinOp::Mul => Ok("*"@),
        BinOp::Div => Ok("/"@),
        BinOp::Rem => Ok("%"@),
        BinOp::BitXor | BinOp::BitAnd | BinOp::BitOr => Err(TranslateError::UnsupportedOperator),
        _ => Ok(structural_op(op, t)),
    }
}

/// The symbol of `op` on `t`, following at most `fuel` dictionary aliases.
pub open spec fn binop_within(op: BinOp, t: BaseTyp, dict: Seq<DictItem>, fuel: nat) -> Result<
    Seq<char>,
    TranslateError,
>
    decreases fuel,
{
    match t {
        BaseTyp::Named(Ident::Hygienic(_, _), _) => Err(TranslateError::SynthesizedTypeName),
        BaseTyp::Named(Ident::Original(name), _) => match dict_find(dict, name@) {
            None => Ok(structural_op(op, t)),
            Some(i) => if dict[i].entry == DictEntry::NaturalInteger {
                nat_mod_op(op, t)
            } else if fuel == 0 {
                Err(TranslateError::AliasCycle)
            } else {
                binop_within(op, dict[i].typ, dict, (fuel - 1) as nat)
            },
        },
        _ => Ok(structural_op(op, t)),
    }
}

/// The symbol of `op` on `t`: an acyclic chain of aliases visits each
/// dictionary entry at most once, so the dictionary's size bounds the chase.
pub open spec fn binop_symbol(op: BinOp, t: BaseTyp, dict: TypeDict) -> Result<Seq<char>, TranslateError> {
    binop_within(op, t, dict.entries@, dict.entries@.len())
}

fn structural_binop(op: BinOp, t: &BaseTyp) -> (r: &'static str)
    ensures
        r@ == structural_op(op, *t),
{
    let machine = match t {
        BaseTyp::Usize | BaseTyp::Isize => true,
        _ => false,
    };
    let seq_like = match t {
        BaseTyp::Sequence(_) | BaseTyp::Array(_, _) => true,
        _ => false,
    };
    match op {
        BinOp::Sub => if machine { "-" } else if seq_like { "`seq_minus`" } else { "-." },
        BinOp::Add => if machine { "+" } else if seq_like { "`seq_add`" } else { "+." },
        BinOp::Mul => if machine { "*" } else if seq_like { "`seq_mul`" } else { "*." },
        BinOp::Div => if machine { "/" } else if seq_like { "`seq_div`" } else { "/." },
        BinOp::Rem => if machine { "%" } else { "%." },
        BinOp::BitXor => if seq_like { "`seq_xor`" } else { "^." },
        BinOp::BitAnd => if seq_like { "`seq_and`" } else { "&." },
        BinOp::BitOr => if seq_like { "`seq_or`" } else { "|." },
        BinOp::Shl => "`shift_left`",
        BinOp::Shr => "`shift_right`",
        BinOp::Lt => "<.",
        BinOp::Le => "<=.",
        BinOp::Ge => ">=.",
        BinOp::Gt => ">.",
        BinOp::Ne => "!=",
        BinOp::Eq => "==",
        BinOp::And => "&&",
        BinOp::Or => "||",
    }
}

fn binop_with_fuel(op: BinOp, t: &BaseTyp, dict: &TypeDict, fuel: usize) -> (r: Result<&'static str, TranslateError>)
    ensures
        match r {
            Ok(s) => binop_within(op, *t, dict.entries@, fuel as nat) == Ok::<Seq<char>, TranslateError>(s@),
            Err(e) => binop_within(op, *t, dict.entries@, fuel as nat) == Err::<Seq<char>, TranslateError>(e),
        },
    decreases fuel,
{
    match t {
        BaseTyp::Named(Ident::Hygienic(_, _), _) => Err(TranslateError::SynthesizedTypeName),
        BaseTyp::Named(Ident::Original(name), _) => match dict.find(name) {
            None => Ok(structural_binop(op, t)),
            Some(i) => {
                let item = &dict.entries[i];
                if item.entry == DictEntry::NaturalInteger {
                    match op {
                        BinOp::Sub => Ok("-"),
                        BinOp::Add => Ok("+"),
                        BinOp::Mul => Ok("*"),
                        BinOp::Div => Ok("/"),
                        BinOp::Rem => Ok("%"),
                        BinOp::BitXor | BinOp::BitAnd | BinOp::BitOr => Err(TranslateError::UnsupportedOperator),
                        _ => Ok(structural_binop(op, t)),
                    }
                } else if fuel == 0 {
                    Err(TranslateError::AliasCycle)
                } else {
                    binop_with_fuel(op, &item.typ, dict, fuel - 1)
                }
            },
        },
        _ => Ok(structural_binop(op, t)),
    }
}

/// The symbol of a binary operator on operands of type `t`.
pub fn translate_binop(op: BinOp, t: &BaseTyp, dict: &TypeDict) -> (r: Result<&'static str, TranslateError>)
    ensures
        match r {
            Ok(s) => binop_symbol(op, *t, *dict) == Ok::<Seq<char>, TranslateError>(s@),
            Err(e) => binop_symbol(op, *t, *dict) == Err::<Seq<char>, TranslateError>(e),
        },
{
    binop_with_fuel(op, t, dict, dict.entries.len())
}

pub open spec fn unop_symbol(op: UnOp) -> Seq<char> {
    match op {
        UnOp::Not => "~"@,
        UnOp::Neg => "-"@,
    }
}

pub fn translate_unop(op: UnOp) -> (r: &'static str)
    ensures
        r@ == unop_symbol(op),
{
    match op {
        UnOp::Not => "~",
        UnOp::Neg => "-",
    }
}

/// The extra size argument that a sequence constructor of a fixed array takes.
pub open spec fn size_arg(size: ArraySize) -> Seq<char> {
    match size {
        ArraySize::Ident(x) => ident_token(x@),
        ArraySize::Integer(i) => dec_seq(i as nat),
    }
}

/// The namespace that a call prefixed by `t` goes to, and the size argument
/// of a fixed array, following at most `fuel` dictionary aliases.
pub open spec fn prefix_within(t: BaseTyp, dict: Seq<DictItem>, fuel: nat) -> Result<
    (Seq<char>, Option<Seq<char>>),
    TranslateError,
>
    decreases fuel,
{
    match t {
        BaseTyp::Bool | BaseTyp::Unit | BaseTyp::Variable(_) | BaseTyp::Tuple(_) => Err(
            TranslateError::InvalidCallPrefix,
        ),
        BaseTyp::Str => Ok(("string"@, None)),
        BaseTyp::Sequence(_) => Ok(("seq"@, None)),
        BaseTyp::Array(size, _) => Ok(("seq"@, Some(size_arg(size)))),
        BaseTyp::Named(Ident::Hygienic(_, _), _) => Err(TranslateError::SynthesizedTypeName),
        BaseTyp::Named(Ident::Original(name), _) => match dict_find(dict, name@) {
            None => Ok((ident_token(name@), None)),
            Some(i) => if fuel == 0 {
                Err(TranslateError::AliasCycle)
            } else {
                prefix_within(dict[i].typ, dict, (fuel - 1) as nat)
            },
        },
        BaseTyp::NaturalInteger(_, _) => Ok(("nat"@, None)),
        _ => Ok(("int"@, None)),
    }
}

/// Names whose unprefixed call promotes a public integer to a secret one.
pub open spec fn is_secret_ctor(t: Seq<char>) -> bool {
    t == "uint128"@ || t == "uint64"@ || t == "uint32"@ || t == "uint16"@ || t == "uint8"@
        || t == "int128"@ || t == "int64"@ || t == "int32"@ || t == "int16"@ || t == "int8"@
}

/// Sequence constructors that take the array's size explicitly.
pub open spec fn takes_size(module: Seq<char>, f: Seq<char>) -> bool {
    module == "seq"@ && (f == "new_"@ || f == "from_slice"@ || f == "from_slice_range"@)
}

/// The element type that sequence operations take explicitly.
pub open spec fn type_arg(t: BaseTyp) -> DocV {
    match t {
        BaseTyp::Sequence(tau) => cat(cat(space(), text("#"@)), typ_doc(*tau)),
        BaseTyp::Array(_, tau) => cat(cat(space(), text("#"@)), typ_doc(*tau)),
        _ => DocV::Nil,
    }
}

/// The document of the name of a call, with its optional type prefix.
pub open spec fn func_name_doc(prefix: Option<BaseTyp>, name: Ident, dict: TypeDict) -> Result<DocV, TranslateError> {
    match prefix {
        None => {
            let t = ident_text(name);
            Ok(if is_secret_ctor(t) { text("secret"@) } else { text(t) })
        },
        Some(p) => match prefix_within(p, dict.entries@, dict.entries@.len()) {
            Err(e) => Err(e),
            Ok((module, size)) => {
                let f = ident_text(name);
                let size_part = if takes_size(module, f) {
                    match size {
                        Some(s) => cat(space(), text(s)),
                        None => DocV::Nil,
                    }
                } else {
                    DocV::Nil
                };
                Ok(cat(cat(cat(cat(text(module), text("_"@)), text(f)), size_part), type_arg(p)))
            },
        },
    }
}

fn is_text(s: &String, lit: &str) -> (r: bool)
    ensures
        r == (s@ == lit@),
{
    *s == String::from_str(lit)
}

fn size_arg_string(size: &ArraySize) -> (r: String)
    requires
        patterns_ok(),
    ensures
        r@ == size_arg(*size),
{
    match size {
        ArraySize::Ident(x) => translate_ident_str(x.as_str()),
        ArraySize::Integer(i) => dec_string(*i as u128),
    }
}

fn prefix_with_fuel(t: &BaseTyp, dict: &TypeDict, fuel: usize) -> (r: Result<(String, Option<String>), TranslateError>)
    requires
        patterns_ok(),
    ensures
        match r {
            Ok((m, s)) => prefix_within(*t, dict.entries@, fuel as nat) == Ok::<_, TranslateError>(
                (m@, match s { Some(x) => Some(x@), None => None }),
            ),
            Err(e) => prefix_within(*t, dict.entries@, fuel as nat) == Err::<(Seq<char>, Option<Seq<char>>), _>(e),
        },
    decreases fuel,
{
    match t {
        BaseTyp::Bool | BaseTyp::Unit | BaseTyp::Variable(_) | BaseTyp::Tuple(_) => Err(
            TranslateError::InvalidCallPrefix,
        ),
        BaseTyp::Str => Ok((String::from_str("string"), None)),
        BaseTyp::Sequence(_) => Ok((String::from_str("seq"), None)),
        BaseTyp::Array(size, _) => Ok((String::from_str("seq"), Some(size_arg_string(size)))),
        BaseTyp::Named(Ident::Hygienic(_, _), _) => Err(TranslateError::SynthesizedTypeName),
        BaseTyp::Named(Ident::Original(name), _) => match dict.find(name) {
            None => Ok((translate_ident_str(name.as_str()), None)),
            Some(i) => if fuel == 0 {
                Err(TranslateError::AliasCycle)
            } else {
                prefix_with_fuel(&dict.entries[i].typ, dict, fuel - 1)
            },
        },
        BaseTyp::NaturalInteger(_, _) => Ok((String::from_str("nat"), None)),
        _ => Ok((String::from_str("int"), None)),
    }
}

fn translate_type_arg(t: &BaseTyp) -> (r: Doc)
    requires
        patterns_ok(),
    ensures
        r@ == type_arg(*t),
{
    match t {
        BaseTyp::Sequence(tau) => Doc::space().append(Doc::text("#")).append(translate_base_typ(tau)),
        BaseTyp::Array(_, tau) => Doc::space().append(Doc::text("#")).append(translate_base_typ(tau)),
        _ => Doc::nil(),
    }
}

/// The name of a call: with no prefix the identifier itself, a secret-integer
/// constructor becoming `secret`; with a prefix, `<namespace>_<name>` and the
/// explicit arguments that the namespace's constructors take.
pub fn translate_func_name(prefix: &Option<BaseTyp>, name: &Ident, dict: &TypeDict) -> (r: Result<Doc, TranslateError>)
    requires
        patterns_ok(),
    ensures
        match r {
            Ok(d) => func_name_doc(*prefix, *name, *dict) == Ok::<DocV, TranslateError>(d@),
            Err(e) => func_name_doc(*prefix, *name, *dict) == Err::<DocV, TranslateError>(e),
        },
{
    match prefix {
        None => {
            let t = translate_ident(name);
            if is_text(&t, "uint128") || is_text(&t, "uint64") || is_text(&t, "uint32")
                || is_text(&t, "uint16") || is_text(&t, "uint8") || is_text(&t, "int128")
                || is_text(&t, "int64") || is_text(&t, "int32") || is_text(&t, "int16")
                || is_text(&t, "int8") {
                Ok(Doc::text("secret"))
            } else {
                Ok(Doc::text_owned(t))
            }
        },
        Some(p) => match prefix_with_fuel(p, dict, dict.entries.len()) {
            Err(e) => Err(e),
            Ok((module, size)) => {
                let f = translate_ident(name);
                let wants_size = is_text(&module, "seq") && (is_text(&f, "new_") || is_text(
                    &f,
                    "from_slice",
                ) || is_text(&f, "from_slice_range"));
                let size_part = if wants_size {
                    match size {
                        Some(s) => Doc::space().append(Doc::text_owned(s)),
                        None => Doc::nil(),
                    }
                } else {
                    Doc::nil()
                };
                Ok(
                    Doc::text_owned(module).append(Doc::text("_")).append(Doc::text_owned(f)).append(
                        size_part,
                    ).append(translate_type_arg(p)),
                )
            },
        },
    }
}

} // verus!
