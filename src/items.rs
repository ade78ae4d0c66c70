//! Top-level declarations, whole programs, and the emitted module text.
use crate::ast::{BaseTyp, FnSig, Ident, Item, Program, TranslateError, Typ, TypeDict};
use crate::doc::{cat, concat_all, group, join, layout, let_binding, nest, paren, render, space, text, views, Doc, DocV};
use crate::names::{ident_text, patterns_ok, regex_accepts, translate_ident, INT_MARKER, SIGNED_FIX};
use crate::statements::{block_doc, translate_block};
use crate::translate::{doc_result, expr_doc, translate_expression};
use crate::types::{translate_base_typ, typ_doc};
use vstd::prelude::*;

verus! {

/// `(x : t)` for one parameter.
pub open spec fn arg_doc(arg: (Ident, Typ)) -> DocV {
    paren(cat(cat(cat(cat(text(ident_text(arg.0)), space()), text(":"@)), space()), typ_doc(arg.1.base)))
}

pub open spec fn args_doc(args: Seq<(Ident, Typ)>) -> DocV {
    if args.len() > 0 {
        join(args.map_values(|a: (Ident, Typ)| arg_doc(a)), DocV::Line)
    } else {
        text("()"@)
    }
}

/// `<name> <params> : <return type>`, the head of a function binding.
pub open spec fn fn_head(f: Ident, sig: FnSig) -> DocV {
    cat(
        cat(cat(cat(text(ident_text(f)), DocV::Line), args_doc(sig.args@)), DocV::Line),
        group(cat(cat(text(":"@), space()), typ_doc(sig.ret))),
    )
}

/// `type <name> =`.
pub open spec fn type_head(name: Ident) -> DocV {
    group(cat(cat(cat(cat(text("type"@), space()), text(ident_text(name))), space()), text("="@)))
}

/// `type <name> = lseq (<cell>) (<size>)`.
pub open spec fn array_type_doc(name: Ident, cell: DocV, size: DocV) -> DocV {
    cat(
        type_head(name),
        nest(group(cat(cat(cat(cat(cat(DocV::Line, text("lseq"@)), space()), paren(cell)), space()), paren(size)))),
    )
}

/// The document of a top-level declaration, or why it has none.
pub open spec fn item_doc(i: Item, dict: TypeDict) -> Result<DocV, TranslateError> {
    match i {
        Item::FnDecl(f, sig, b) => match block_doc(b, true, dict) {
            Err(x) => Err(x),
            Ok(db) => Ok(
                let_binding(
                    fn_head(f, sig),
                    None,
                    group(
                        cat(
                            db,
                            if sig.ret is Unit {
                                cat(DocV::HardLine, text("()"@))
                            } else {
                                DocV::Nil
                            },
                        ),
                    ),
                    true,
                ),
            ),
        },
        Item::ArrayDecl(name, size, cell) => match expr_doc(size, dict) {
            Err(x) => Err(x),
            Ok(ds) => Ok(array_type_doc(name, typ_doc(cell), ds)),
        },
        Item::ConstDecl(name, ty, e) => match expr_doc(e, dict) {
            Err(x) => Err(x),
            Ok(d) => Ok(let_binding(text(ident_text(name)), Some(typ_doc(ty)), d, true)),
        },
        Item::NaturalIntegerDecl(nat_name, canvas_name, _, size, modulo) => match expr_doc(size, dict) {
            Err(x) => Err(x),
            Ok(ds) => Ok(
                cat(
                    cat(cat(array_type_doc(canvas_name, typ_doc(BaseTyp::UInt8), ds), DocV::HardLine), DocV::HardLine),
                    cat(
                        type_head(nat_name),
                        nest(group(cat(cat(cat(DocV::Line, text("nat_mod"@)), space()), text(seq!['0', 'x'] + modulo@)))),
                    ),
                ),
            ),
        },
    }
}

/// Each item followed by a blank line, in declaration order, or the first
/// reason one has no document.
pub open spec fn items_docs(items: Seq<Item>, dict: TypeDict) -> Result<Seq<DocV>, TranslateError>
    decreases items.len(),
{
    if items.len() == 0 {
        Ok(Seq::empty())
    } else {
        match items_docs(items.drop_last(), dict) {
            Err(x) => Err(x),
            Ok(ds) => match item_doc(items.last(), dict) {
                Err(x) => Err(x),
                Ok(d) => Ok(ds.push(cat(cat(d, DocV::HardLine), DocV::HardLine))),
            },
        }
    }
}

/// The document of a whole program.
pub open spec fn program_doc(p: Program, dict: TypeDict) -> Result<DocV, TranslateError> {
    match items_docs(p.items@, dict) {
        Err(x) => Err(x),
        Ok(ds) => Ok(concat_all(ds)),
    }
}

proof fn lemma_items_err(items: Seq<Item>, dict: TypeDict, i: int, j: int)
    requires
        0 <= i < j <= items.len(),
        items_docs(items.take(i + 1), dict) is Err,
    ensures
        items_docs(items.take(j), dict) == items_docs(items.take(i + 1), dict),
    decreases j,
{
    if j > i + 1 {
        lemma_items_err(items, dict, i, j - 1);
        assert(items.take(j).drop_last() =~= items.take(j - 1));
    }
}

fn translate_args(args: &Vec<(Ident, Typ)>) -> (r: Doc)
    requires
        patterns_ok(),
    ensures
        r@ == args_doc(args@),
{
    if args.len() == 0 {
        return Doc::text("()");
    }
    let mut out: Vec<Doc> = Vec::new();
    let n = args.len();
    let mut i: usize = 0;
    while i < n
        invariant
            n == args@.len(),
            0 <= i <= n,
            patterns_ok(),
            views(out@) =~= args@.take(i as int).map_values(|a: (Ident, Typ)| arg_doc(a)),
        decreases n - i,
    {
        let (x, tau) = &args[i];
        let d = Doc::text_owned(translate_ident(x)).append(Doc::space()).append(Doc::text(":")).append(
            Doc::space(),
        ).append(translate_base_typ(&tau.base)).paren();
        let ghost prev = out@;
        out.push(d);
        proof {
            assert(views(out@) =~= views(prev).push(d@));
            assert(args@.take(i + 1).map_values(|a: (Ident, Typ)| arg_doc(a)) =~= args@.take(
                i as int,
            ).map_values(|a: (Ident, Typ)| arg_doc(a)).push(arg_doc(args@[i as int])));
        }
        i = i + 1;
    }
    proof {
        assert(args@.take(n as int) =~= args@);
    }
    Doc::join(out, &Doc::line())
}

fn type_head_doc(name: &Ident) -> (r: Doc)
    requires
        patterns_ok(),
    ensures
        r@ == type_head(*name),
{
    Doc::text("type").append(Doc::space()).append(Doc::text_owned(translate_ident(name))).append(
        Doc::space(),
    ).append(Doc::text("=")).group()
}

fn array_type(name: &Ident, cell: Doc, size: Doc) -> (r: Doc)
    requires
        patterns_ok(),
    ensures
        r@ == array_type_doc(*name, cell@, size@),
{
    type_head_doc(name).append(
        Doc::line().append(Doc::text("lseq")).append(Doc::space()).append(cell.paren()).append(
            Doc::space(),
        ).append(size.paren()).group().nest(),
    )
}

/// The document of a top-level declaration.
pub fn translate_item(i: &Item, dict: &TypeDict) -> (r: Result<Doc, TranslateError>)
    requires
        patterns_ok(),
    ensures
        doc_result(r) == item_doc(*i, *dict),
{
    match i {
        Item::FnDecl(f, sig, b) => {
            let db = match translate_block(b, true, dict) {
                Ok(d) => d,
                Err(x) => return Err(x),
            };
            let ret = translate_base_typ(&sig.ret);
            let head = Doc::text_owned(translate_ident(f)).append(Doc::line()).append(
                translate_args(&sig.args),
            ).append(Doc::line()).append(Doc::text(":").append(Doc::space()).append(ret).group());
            let unit_tail = match sig.ret {
                BaseTyp::Unit => Doc::hardline().append(Doc::text("()")),
                _ => Doc::nil(),
            };
            Ok(Doc::let_binding(head, None, db.append(unit_tail).group(), true))
        },
        Item::ArrayDecl(name, size, cell) => match translate_expression(size, dict) {
            Ok(ds) => Ok(array_type(name, translate_base_typ(cell), ds)),
            Err(x) => Err(x),
        },
        Item::ConstDecl(name, ty, e) => match translate_expression(e, dict) {
            Ok(d) => Ok(
                Doc::let_binding(Doc::text_owned(translate_ident(name)), Some(translate_base_typ(ty)), d, true),
            ),
            Err(x) => Err(x),
        },
        Item::NaturalIntegerDecl(nat_name, canvas_name, _, size, modulo) => {
            let ds = match translate_expression(size, dict) {
                Ok(d) => d,
                Err(x) => return Err(x),
            };
            let canvas = array_type(canvas_name, translate_base_typ(&BaseTyp::UInt8), ds);
            proof {
                reveal_strlit("0x");
                assert("0x"@ =~= seq!['0', 'x']);
            }
            let mut m = String::from_str("0x");
            m.append(modulo.as_str());
            let nat_type = type_head_doc(nat_name).append(
                Doc::line().append(Doc::text("nat_mod")).append(Doc::space()).append(Doc::text_owned(m)).group().nest(),
            );
            Ok(canvas.append(Doc::hardline()).append(Doc::hardline()).append(nat_type))
        },
    }
}

/// The document of a whole program: every item in declaration order, each
/// followed by a blank line.
pub fn translate_program(p: &Program, dict: &TypeDict) -> (r: Result<Doc, TranslateError>)
    requires
        patterns_ok(),
    ensures
        doc_result(r) == program_doc(*p, *dict),
{
    let mut out: Vec<Doc> = Vec::new();
    let n = p.items.len();
    let mut i: usize = 0;
    proof {
        assert(views(out@) =~= Seq::<DocV>::empty());
        assert(p.items@.take(0) =~= Seq::<Item>::empty());
    }
    while i < n
        invariant
            n == p.items@.len(),
            0 <= i <= n,
            patterns_ok(),
            items_docs(p.items@.take(i as int), *dict) == Ok::<Seq<DocV>, TranslateError>(views(out@)),
        decreases n - i,
    {
        proof {
            assert(p.items@.take(i + 1).drop_last() =~= p.items@.take(i as int));
            assert(p.items@.take(i + 1).last() == p.items@[i as int]);
        }
        match translate_item(&p.items[i], dict) {
            Ok(d) => {
                let ghost prev = out@;
                let spaced = d.append(Doc::hardline()).append(Doc::hardline());
                out.push(spaced);
                proof {
                    assert(views(out@) =~= views(prev).push(spaced@));
                }
            },
            Err(x) => {
                proof {
                    lemma_items_err(p.items@, *dict, i as int, n as int);
                    assert(p.items@.take(n as int) =~= p.items@);
                }
                return Err(x);
            },
        }
        i = i + 1;
    }
    proof {
        assert(p.items@.take(n as int) =~= p.items@);
    }
    Ok(Doc::concat(out))
}

/// The page width of the emitted text.
pub const PAGE_WIDTH: usize = 80;

/// The fixed module header: the module name, the engine options and the
/// namespace imports.
pub open spec fn header(module_name: Seq<char>) -> Seq<char> {
    "module "@ + module_name + "\n\n#set-options \"--fuel 0 --ifuel 1 --z3rlimit 15\"\n\nopen Hacspec.Lib\nopen FStar.Mul\n\n"@
}

pub fn module_header(module_name: &str) -> (r: String)
    ensures
        r@ == header(module_name@),
{
    let mut s = String::from_str("module ");
    s.append(module_name);
    s.append("\n\n#set-options \"--fuel 0 --ifuel 1 --z3rlimit 15\"\n\nopen Hacspec.Lib\nopen FStar.Mul\n\n");
    s
}

/// The complete text of the module: the header, then the program laid out
/// at the page width.
pub open spec fn module_text(p: Program, dict: TypeDict, module_name: Seq<char>) -> Result<Seq<char>, TranslateError> {
    if !patterns_ok() {
        Err(TranslateError::PatternRejected)
    } else {
        match program_doc(p, dict) {
            Err(x) => Err(x),
            Ok(d) => Ok(header(module_name) + layout(d, PAGE_WIDTH as nat)),
        }
    }
}

/// The text of the module named `module_name` that holds the translation of `p`.
pub fn translate_to_text(p: &Program, dict: &TypeDict, module_name: &str) -> (r: Result<String, TranslateError>)
    ensures
        match r {
            Ok(s) => module_text(*p, *dict, module_name@) == Ok::<Seq<char>, TranslateError>(s@),
            Err(e) => module_text(*p, *dict, module_name@) == Err::<Seq<char>, TranslateError>(e),
        },
{
    if !regex_accepts(INT_MARKER) || !regex_accepts(SIGNED_FIX) {
        return Err(TranslateError::PatternRejected);
    }
    let d = match translate_program(p, dict) {
        Ok(d) => d,
        Err(x) => return Err(x),
    };
    let mut s = module_header(module_name);
    s.append(render(&d, PAGE_WIDTH).as_str());
    Ok(s)
}

} // verus!
