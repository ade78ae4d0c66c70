use fstar_codegen::ast::{
    ArraySize, BaseTyp, BinOp, Block, Borrowing, DictEntry, DictItem, Expression, FnSig, Ident, Item, Literal,
    Mutated, Pattern, Program, Statement, TranslateError, Typ, TypeDict, UnOp,
};
use fstar_codegen::doc::Doc;
use fstar_codegen::items::{translate_item, translate_to_text};
use fstar_codegen::names::{escape_keyword, translate_ident, translate_ident_str, translate_literal};
use fstar_codegen::ops::{translate_binop, translate_func_name};
use fstar_codegen::statements::translate_statement;
use fstar_codegen::translate::translate_expression;
use fstar_codegen::types::translate_base_typ;

fn id(s: &str) -> Ident {
    Ident::Original(s.to_string())
}

fn var(s: &str) -> Expression {
    Expression::Named(id(s))
}

fn named(s: &str) -> BaseTyp {
    BaseTyp::Named(id(s), None)
}

fn consumed(base: BaseTyp) -> Typ {
    Typ { borrowing: Borrowing::Consumed, base }
}

fn empty_dict() -> TypeDict {
    TypeDict { entries: Vec::new() }
}

fn dict(items: Vec<(&str, BaseTyp, DictEntry)>) -> TypeDict {
    TypeDict {
        entries: items
            .into_iter()
            .map(|(n, t, e)| DictItem { name: n.to_string(), typ: t, entry: e })
            .collect(),
    }
}

fn unit_block(stmts: Vec<Statement>) -> Block {
    Block { stmts, return_typ: consumed(BaseTyp::Unit) }
}

fn mutated(vars: &[&str]) -> Mutated {
    Mutated {
        vars: vars.iter().map(|v| id(v)).collect(),
        stmt: Box::new(Statement::ReturnExp(Expression::Tuple(vars.iter().map(|v| var(v)).collect()))),
    }
}

fn show(d: &Doc) -> String {
    d.to_text(80)
}

fn expr_text(e: &Expression, d: &TypeDict) -> String {
    show(&translate_expression(e, d).unwrap())
}

#[test]
fn machine_int_addition_is_plain_infix() {
    let e = Expression::Binary(BinOp::Add, Box::new(var("x")), Box::new(var("y")), BaseTyp::Usize);
    assert_eq!(expr_text(&e, &empty_dict()), "(x) + (y)");
}

#[test]
fn u32_literal_is_hex() {
    assert_eq!(translate_literal(&Literal::UInt32(42)), "pub_u32 0x2a");
    assert_eq!(expr_text(&Expression::Lit(Literal::UInt32(42)), &empty_dict()), "pub_u32 0x2a");
}

#[test]
fn literal_forms() {
    assert_eq!(translate_literal(&Literal::Int8(-1)), "pub_i8 0xff");
    assert_eq!(translate_literal(&Literal::Int128(-1)), format!("pub_i128 {:#x}", -1i128));
    assert_eq!(translate_literal(&Literal::UInt64(0)), "pub_u64 0x0");
    assert_eq!(translate_literal(&Literal::UInt128(u128::MAX)), format!("pub_u128 {:#x}", u128::MAX));
    assert_eq!(translate_literal(&Literal::Isize(-5)), "isize -5");
    assert_eq!(translate_literal(&Literal::Isize(isize::MIN)), format!("isize {}", isize::MIN));
    assert_eq!(translate_literal(&Literal::Usize(1234)), "usize 1234");
    assert_eq!(translate_literal(&Literal::Bool(true)), "true");
    assert_eq!(translate_literal(&Literal::Unit), "()");
    assert_eq!(translate_literal(&Literal::Str("hi".to_string())), "\"hi\"");
}

#[test]
fn function_named_new_is_escaped() {
    let f = Item::FnDecl(
        id("new"),
        FnSig { args: Vec::new(), ret: BaseTyp::Unit },
        unit_block(Vec::new()),
    );
    let text = show(&translate_item(&f, &empty_dict()).unwrap());
    assert!(text.starts_with("let new_ () : unit ="), "{}", text);
    assert!(text.trim_end().ends_with("()"), "{}", text);
    // the parameter list and exactly one trailing unit value
    assert_eq!(text.matches("()").count(), 2, "{}", text);
}

#[test]
fn unit_function_body_ends_in_one_unit() {
    let f = Item::FnDecl(
        id("reset"),
        FnSig { args: vec![(id("x"), consumed(BaseTyp::Usize))], ret: BaseTyp::Unit },
        unit_block(vec![Statement::Reassignment(id("x"), Expression::Lit(Literal::Usize(0)))]),
    );
    let text = show(&translate_item(&f, &empty_dict()).unwrap());
    assert_eq!(text, "let reset (x : uint_size) : unit =\n  let x = usize 0 in\n  ()");
}

#[test]
fn function_with_parameters() {
    let f = Item::FnDecl(
        id("add_one"),
        FnSig { args: vec![(id("x"), consumed(BaseTyp::Usize))], ret: BaseTyp::Usize },
        Block {
            stmts: vec![Statement::ReturnExp(Expression::Binary(
                BinOp::Add,
                Box::new(var("x")),
                Box::new(Expression::Lit(Literal::Usize(1))),
                BaseTyp::Usize,
            ))],
            return_typ: consumed(BaseTyp::Usize),
        },
    );
    let text = show(&translate_item(&f, &empty_dict()).unwrap());
    assert_eq!(text, "let add_one (x : uint_size) : uint_size =\n  (x) + (usize 1)");
}

#[test]
fn for_loop_folds_over_mutated_tuple() {
    let body = unit_block(vec![Statement::Reassignment(
        id("acc"),
        Expression::Binary(BinOp::Add, Box::new(var("acc")), Box::new(var("i")), BaseTyp::Usize),
    )]);
    let s = Statement::ForLoop(id("i"), var("lo"), var("hi"), body, mutated(&["acc"]));
    let text = show(&translate_statement(&s, &empty_dict()).unwrap());
    assert_eq!(
        text,
        "let acc =\n  foldi (lo) (hi) (fun (i, acc) ->\n    let acc = (acc) + (i) in\n    acc)\n  acc\nin"
    );
}

#[test]
fn natural_integer_declares_two_types() {
    let item = Item::NaturalIntegerDecl(
        id("FieldElement"),
        id("FieldCanvas"),
        true,
        Expression::Lit(Literal::Usize(32)),
        "ffffffff".to_string(),
    );
    let text = show(&translate_item(&item, &empty_dict()).unwrap());
    assert_eq!(
        text,
        "type field_canvas = lseq (pub_uint8) (usize 32)\n\ntype field_element = nat_mod 0xffffffff"
    );
}

#[test]
fn identifier_canonicalization() {
    assert_eq!(translate_ident_str("U32"), "uint32");
    assert_eq!(translate_ident_str("new"), "new_");
    assert_ne!(translate_ident_str("new"), "new");
    assert_eq!(translate_ident_str("I8"), "int8");
    assert!(!translate_ident_str("I8").contains("iint"));
    assert_eq!(translate_ident_str("FooBar"), "foo_bar");
    assert_eq!(translate_ident_str("xI16"), "xint16");
    assert_eq!(translate_ident(&Ident::Hygienic(3, "x".to_string())), "x_3");
}

#[test]
fn secret_constructor_call() {
    let call = Expression::FuncCall(None, id("U32"), vec![Expression::Lit(Literal::UInt32(1))]);
    assert_eq!(expr_text(&call, &empty_dict()), "secret (pub_u32 0x1)");
}

#[test]
fn conditional_binds_mutated_tuple() {
    let then_block = unit_block(vec![
        Statement::Reassignment(id("a"), Expression::Lit(Literal::Usize(1))),
        Statement::Reassignment(id("b"), Expression::Lit(Literal::Usize(2))),
    ]);
    let s = Statement::Conditional(var("c"), then_block, None, mutated(&["a", "b"]));
    let text = show(&translate_statement(&s, &empty_dict()).unwrap());
    assert!(text.starts_with("let (a, b) ="), "{}", text);
    assert_eq!(text.matches("(a, b)").count(), 3, "{}", text);
    let then_at = text.find("then").unwrap();
    let else_at = text.find("else").unwrap();
    assert!(text[then_at..else_at].contains("(a, b)"), "{}", text);
    assert!(text[else_at..].contains("(a, b)"), "{}", text);
}

#[test]
fn layout_keeps_short_groups_flat() {
    let d = Doc::text("let")
        .append(Doc::line())
        .append(Doc::text("x"))
        .append(Doc::line())
        .append(Doc::text("in"))
        .group();
    assert_eq!(d.to_text(80), "let x in");
}

#[test]
fn layout_breaks_outer_group_only() {
    let inner = Doc::text("aaaa").append(Doc::line()).append(Doc::text("bbbb")).group();
    let long = "c".repeat(75);
    let d = Doc::text(&long).append(Doc::line()).append(inner).group();
    assert_eq!(d.to_text(80), format!("{}\naaaa bbbb", long));
}

#[test]
fn translation_is_deterministic() {
    let p = Program {
        items: vec![Item::ConstDecl(id("K"), BaseTyp::Usize, Expression::Lit(Literal::Usize(7)))],
    };
    let d = empty_dict();
    let a = translate_to_text(&p, &d, "Consts").unwrap();
    let b = translate_to_text(&p, &d, "Consts").unwrap();
    assert_eq!(a, b);
    assert!(a.starts_with("module Consts\n\n#set-options \"--fuel 0 --ifuel 1 --z3rlimit 15\"\n\nopen Hacspec.Lib\nopen FStar.Mul\n\n"));
    assert!(a.ends_with("let k : uint_size =\n  usize 7\n\n"), "{}", a);
}

#[test]
fn alias_is_transparent_for_operators() {
    let d = dict(vec![
        ("Index", BaseTyp::Usize, DictEntry::Alias),
        ("Key", named("Index"), DictEntry::Alias),
        ("Block", BaseTyp::Array(ArraySize::Integer(16), Box::new(BaseTyp::UInt8)), DictEntry::Array),
    ]);
    for op in [BinOp::Add, BinOp::Sub, BinOp::Mul, BinOp::Div, BinOp::BitXor, BinOp::Shl, BinOp::Eq] {
        assert_eq!(translate_binop(op, &named("Key"), &d), translate_binop(op, &BaseTyp::Usize, &d));
        assert_eq!(
            translate_binop(op, &named("Block"), &d),
            translate_binop(op, &BaseTyp::Array(ArraySize::Integer(16), Box::new(BaseTyp::UInt8)), &d)
        );
    }
    assert_eq!(translate_binop(BinOp::Add, &named("Key"), &d), Ok("+"));
    assert_eq!(translate_binop(BinOp::BitXor, &named("Block"), &d), Ok("`seq_xor`"));
    assert_eq!(translate_binop(BinOp::Add, &BaseTyp::UInt32, &d), Ok("+."));
    assert_eq!(translate_binop(BinOp::Shr, &BaseTyp::Usize, &d), Ok("`shift_right`"));
}

#[test]
fn natural_integer_operators() {
    let d = dict(vec![(
        "Felem",
        BaseTyp::NaturalInteger(true, "ff".to_string()),
        DictEntry::NaturalInteger,
    )]);
    assert_eq!(translate_binop(BinOp::Mul, &named("Felem"), &d), Ok("*"));
    assert_eq!(translate_binop(BinOp::Rem, &named("Felem"), &d), Ok("%"));
    assert_eq!(
        translate_binop(BinOp::BitXor, &named("Felem"), &d),
        Err(TranslateError::UnsupportedOperator)
    );
    assert_eq!(translate_binop(BinOp::Shl, &named("Felem"), &d), Ok("`shift_left`"));
    assert_eq!(translate_binop(BinOp::Shr, &named("Felem"), &d), Ok("`shift_right`"));
    assert_eq!(translate_binop(BinOp::Lt, &named("Felem"), &d), Ok("<."));
    assert_eq!(translate_binop(BinOp::Ge, &named("Felem"), &d), Ok(">=."));
    assert_eq!(translate_binop(BinOp::Eq, &named("Felem"), &d), Ok("=="));
    assert_eq!(translate_binop(BinOp::Ne, &named("Felem"), &d), Ok("!="));
    assert_eq!(translate_binop(BinOp::And, &named("Felem"), &d), Ok("&&"));
}

#[test]
fn remainder_on_machine_integers_is_plain() {
    let d = empty_dict();
    assert_eq!(translate_binop(BinOp::Rem, &BaseTyp::Usize, &d), Ok("%"));
    assert_eq!(translate_binop(BinOp::Rem, &BaseTyp::Isize, &d), Ok("%"));
    assert_eq!(translate_binop(BinOp::Rem, &BaseTyp::UInt32, &d), Ok("%."));
}

#[test]
fn keyword_escape() {
    assert_eq!(escape_keyword("new".to_string()), "new_");
    assert_eq!(escape_keyword("news".to_string()), "news");
    assert_eq!(escape_keyword("New".to_string()), "New");
}

#[test]
fn error_variants() {
    let d = dict(vec![("A", named("B"), DictEntry::Alias), ("B", named("A"), DictEntry::Alias)]);
    assert_eq!(translate_binop(BinOp::Add, &named("A"), &d), Err(TranslateError::AliasCycle));
    let hygienic = BaseTyp::Named(Ident::Hygienic(1, "t".to_string()), None);
    assert_eq!(
        translate_binop(BinOp::Add, &hygienic, &empty_dict()),
        Err(TranslateError::SynthesizedTypeName)
    );
    let cast = Expression::IntegerCasting(Box::new(var("x")), BaseTyp::UInt8);
    assert_eq!(translate_expression(&cast, &empty_dict()).err(), Some(TranslateError::UnsupportedCast));
    assert_eq!(
        translate_func_name(&Some(BaseTyp::Bool), &id("f"), &empty_dict()).err(),
        Some(TranslateError::InvalidCallPrefix)
    );
    let p = Program { items: vec![Item::ConstDecl(id("K"), BaseTyp::UInt8, cast)] };
    assert_eq!(translate_to_text(&p, &empty_dict(), "M"), Err(TranslateError::UnsupportedCast));
}

#[test]
fn prefixed_call_names() {
    let seq_t = BaseTyp::Sequence(Box::new(BaseTyp::UInt8));
    let arr_t = BaseTyp::Array(ArraySize::Integer(16), Box::new(BaseTyp::UInt8));
    let name = |p: &BaseTyp, f: &str, d: &TypeDict| show(&translate_func_name(&Some(p.clone_typ()), &id(f), d).unwrap());
    let d = dict(vec![("Block", arr_t.clone_typ(), DictEntry::Array)]);
    assert_eq!(name(&seq_t, "new", &d), "seq_new_ #pub_uint8");
    assert_eq!(name(&arr_t, "new", &d), "seq_new_ 16 #pub_uint8");
    assert_eq!(name(&arr_t, "len", &d), "seq_len #pub_uint8");
    assert_eq!(name(&named("Block"), "new", &d), "seq_new_ 16");
    assert_eq!(name(&BaseTyp::UInt32, "from_literal", &d), "int_from_literal");
    assert_eq!(name(&named("Point"), "zero", &d), "point_zero");
    let method = Expression::MethodCall(Box::new(var("v")), Some(seq_t.clone_typ()), id("len"), Vec::new());
    assert_eq!(expr_text(&method, &d), "seq_len #pub_uint8 (v)");
}

#[test]
fn type_documents() {
    let t = BaseTyp::Tuple(vec![BaseTyp::UInt8, BaseTyp::Bool]);
    assert_eq!(show(&translate_base_typ(&t)), "(pub_uint8 & bool)");
    assert_eq!(show(&translate_base_typ(&BaseTyp::Variable(3))), "'t3");
    assert_eq!(show(&translate_base_typ(&BaseTyp::UInt16)), "pub_uint16");
    let arr = BaseTyp::Array(ArraySize::Ident("BLOCK_SIZE".to_string()), Box::new(BaseTyp::Int64));
    assert_eq!(show(&translate_base_typ(&arr)), "lseq pub_int64 block_size");
    let generic = BaseTyp::Named(id("MyVec"), Some(vec![BaseTyp::Usize, BaseTyp::Str]));
    assert_eq!(show(&translate_base_typ(&generic)), "my_vec uint_size string");
    assert_eq!(
        show(&translate_base_typ(&BaseTyp::NaturalInteger(false, "7f".to_string()))),
        "nat_mod 0x7f"
    );
}

#[test]
fn expression_forms() {
    let d = empty_dict();
    let neg = Expression::Unary(UnOp::Neg, Box::new(var("x")));
    assert_eq!(expr_text(&neg, &d), "- (x)");
    let tup = Expression::Tuple(vec![var("a"), var("b")]);
    assert_eq!(expr_text(&tup, &d), "(a, b)");
    let idx = Expression::ArrayIndex(id("arr"), Box::new(var("i")));
    assert_eq!(expr_text(&idx, &d), "array_index (arr) (i)");
    let lst = Expression::NewArray(vec![Expression::Lit(Literal::UInt8(1)), Expression::Lit(Literal::UInt8(2))]);
    assert_eq!(expr_text(&lst, &d), "seq_from_list [pub_u8 0x1; pub_u8 0x2]");
    let upd = Statement::ArrayUpdate(id("arr"), var("i"), var("v"));
    assert_eq!(show(&translate_statement(&upd, &d).unwrap()), "let arr = array_upd arr (i) (v) in");
    let pat = Statement::LetBinding(
        Pattern::Tuple(vec![Pattern::IdentPat(id("p")), Pattern::WildCard]),
        Some(consumed(BaseTyp::Tuple(vec![BaseTyp::Bool, BaseTyp::Bool]))),
        var("q"),
    );
    assert_eq!(show(&translate_statement(&pat, &d).unwrap()), "let (p, _) : (bool & bool) = q in");
}

trait CloneTyp {
    fn clone_typ(&self) -> BaseTyp;
}

impl CloneTyp for BaseTyp {
    fn clone_typ(&self) -> BaseTyp {
        match self {
            BaseTyp::UInt8 => BaseTyp::UInt8,
            BaseTyp::UInt32 => BaseTyp::UInt32,
            BaseTyp::Sequence(t) => BaseTyp::Sequence(Box::new(t.clone_typ())),
            BaseTyp::Array(ArraySize::Integer(n), t) => {
                BaseTyp::Array(ArraySize::Integer(*n), Box::new(t.clone_typ()))
            }
            BaseTyp::Named(Ident::Original(s), None) => BaseTyp::Named(Ident::Original(s.clone()), None),
            _ => panic!("not needed here"),
        }
    }
}
