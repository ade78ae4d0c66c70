//! Statements and blocks: mutation becomes functional rebinding.
use crate::ast::{Block, Borrowing, BaseTyp, Ident, Mutated, Pattern, Statement, TranslateError, TypeDict};
use crate::doc::{begin_end, cat, group, join, let_binding, nest, opt_view, paren, space, text, tuple, views, Doc, DocV};
use crate::names::{ident_text, patterns_ok, translate_ident};
use crate::translate::{doc_result, expr_doc, translate_expression};
use crate::types::{translate_base_typ, typ_doc};
use vstd::prelude::*;

verus! {

pub open spec fn pattern_doc(p: Pattern) -> DocV
    decreases p,
{
    match p {
        Pattern::IdentPat(x) => text(ident_text(x)),
        Pattern::WildCard => text("_"@),
        Pattern::Tuple(ps) => tuple(pats_docs(ps@)),
    }
}

pub open spec fn pats_docs(ps: Seq<Pattern>) -> Seq<DocV>
    decreases ps,
{
    if ps.len() == 0 {
        Seq::empty()
    } else {
        pats_docs(ps.drop_last()).push(pattern_doc(ps.last()))
    }
}

pub fn translate_pattern(p: &Pattern) -> (r: Doc)
    requires
        patterns_ok(),
    ensures
        r@ == pattern_doc(*p),
    decreases p,
{
    match p {
        Pattern::IdentPat(x) => Doc::text_owned(translate_ident(x)),
        Pattern::WildCard => Doc::text("_"),
        Pattern::Tuple(ps) => Doc::tuple(translate_pats(ps)),
    }
}

fn translate_pats(ps: &Vec<Pattern>) -> (r: Vec<Doc>)
    requires
        patterns_ok(),
    ensures
        views(r@) == pats_docs(ps@),
    decreases ps,
{
    let mut out: Vec<Doc> = Vec::new();
    let n = ps.len();
    let mut i: usize = 0;
    proof {
        assert(views(out@) =~= pats_docs(ps@.take(0)));
    }
    while i < n
        invariant
            n == ps@.len(),
            0 <= i <= n,
            patterns_ok(),
            views(out@) == pats_docs(ps@.take(i as int)),
        decreases n - i,
    {
        let d = translate_pattern(&ps[i]);
        proof {
            assert(ps@.take(i + 1).drop_last() =~= ps@.take(i as int));
        }
        let ghost prev = out@;
        out.push(d);
        proof {
            assert(views(out@) =~= views(prev).push(d@));
        }
        i = i + 1;
    }
    proof {
        assert(ps@.take(n as int) =~= ps@);
    }
    out
}

/// The tokens of the mutated variables.
pub open spec fn var_docs(vars: Seq<Ident>) -> Seq<DocV> {
    vars.map_values(|x: Ident| text(ident_text(x)))
}

/// The tuple of the mutated variables, in their annotated order.
pub open spec fn mut_tuple(m: Mutated) -> DocV {
    tuple(var_docs(m.vars@))
}

pub fn translate_mut_tuple(m: &Mutated) -> (r: Doc)
    requires
        patterns_ok(),
    ensures
        r@ == mut_tuple(*m),
{
    let mut out: Vec<Doc> = Vec::new();
    let n = m.vars.len();
    let mut i: usize = 0;
    while i < n
        invariant
            n == m.vars@.len(),
            0 <= i <= n,
            patterns_ok(),
            views(out@) =~= var_docs(m.vars@.take(i as int)),
        decreases n - i,
    {
        let d = Doc::text_owned(translate_ident(&m.vars[i]));
        let ghost prev = out@;
        out.push(d);
        proof {
            assert(views(out@) =~= views(prev).push(d@));
            assert(var_docs(m.vars@.take(i + 1)) =~= var_docs(m.vars@.take(i as int)).push(d@));
        }
        i = i + 1;
    }
    proof {
        assert(m.vars@.take(n as int) =~= m.vars@);
    }
    Doc::tuple(out)
}

/// The trailing unit value of a block whose result is a consumed unit, where
/// the caller asks for an explicit value.
pub open spec fn extra_unit(b: Block, omit_extra_unit: bool) -> DocV {
    if !omit_extra_unit && b.return_typ.borrowing is Consumed && b.return_typ.base is Unit {
        cat(DocV::HardLine, text("()"@))
    } else {
        DocV::Nil
    }
}

/// The document of a block: its statements one per line.
pub open spec fn block_doc(b: Block, omit_extra_unit: bool, dict: TypeDict) -> Result<DocV, TranslateError>
    decreases b,
{
    match stmts_docs(b.stmts@, dict) {
        Err(x) => Err(x),
        Ok(ds) => Ok(cat(join(ds, DocV::HardLine), extra_unit(b, omit_extra_unit))),
    }
}

/// The grouped documents of `ss` in order, or the first reason one has none.
pub open spec fn stmts_docs(ss: Seq<Statement>, dict: TypeDict) -> Result<Seq<DocV>, TranslateError>
    decreases ss,
{
    if ss.len() == 0 {
        Ok(Seq::empty())
    } else {
        match stmts_docs(ss.drop_last(), dict) {
            Err(x) => Err(x),
            Ok(ds) => match stmt_doc(ss.last(), dict) {
                Err(x) => Err(x),
                Ok(d) => Ok(ds.push(group(d))),
            },
        }
    }
}

/// `if c then begin <then-block> <tuple> end else begin [<else-block>] <tuple> end`.
pub open spec fn if_doc(c: DocV, then_part: DocV, else_part: Option<DocV>, tail: DocV) -> DocV {
    let head = cat(
        cat(cat(cat(cat(cat(text("if"@), space()), c), space()), text("then"@)), space()),
        begin_end(cat(cat(then_part, DocV::HardLine), tail)),
    );
    let else_body = match else_part {
        None => tail,
        Some(e) => cat(cat(e, DocV::HardLine), tail),
    };
    cat(head, cat(cat(cat(space(), text("else"@)), space()), begin_end(else_body)))
}

/// `foldi (lo) (hi) (fun (i, <tuple>) -> <body> <tuple>) <tuple>`.
pub open spec fn fold_doc(index: DocV, lo: DocV, hi: DocV, body: DocV, tail: DocV, acc: DocV) -> DocV {
    let closure = tuple(seq![index, acc]);
    let inner = cat(
        cat(
            cat(
                cat(
                    cat(
                        cat(
                            cat(
                                cat(
                                    cat(cat(cat(cat(cat(cat(text("foldi"@), space()), paren(lo)), space()), paren(hi)), space()), text("(fun"@)),
                                    space(),
                                ),
                                closure,
                            ),
                            space(),
                        ),
                        text("->"@),
                    ),
                    DocV::Line,
                ),
                body,
            ),
            DocV::HardLine,
        ),
        cat(tail, text(")"@)),
    );
    cat(cat(nest(group(inner)), DocV::Line), acc)
}

/// The document of a statement, or why it has none.
pub open spec fn stmt_doc(s: Statement, dict: TypeDict) -> Result<DocV, TranslateError>
    decreases s,
{
    match s {
        Statement::LetBinding(pat, typ, e) => match expr_doc(e, dict) {
            Err(x) => Err(x),
            Ok(d) => Ok(
                group(
                    let_binding(
                        pattern_doc(pat),
                        match typ {
                            None => None,
                            Some(t) => Some(typ_doc(t.base)),
                        },
                        d,
                        false,
                    ),
                ),
            ),
        },
        Statement::Reassignment(x, e) => match expr_doc(e, dict) {
            Err(err) => Err(err),
            Ok(d) => Ok(group(let_binding(text(ident_text(x)), None, d, false))),
        },
        Statement::ArrayUpdate(x, e1, e2) => match expr_doc(e1, dict) {
            Err(err) => Err(err),
            Ok(d1) => match expr_doc(e2, dict) {
                Err(err) => Err(err),
                Ok(d2) => Ok(
                    group(
                        let_binding(
                            text(ident_text(x)),
                            None,
                            cat(
                                cat(cat(cat(cat(cat(text("array_upd"@), space()), text(ident_text(x))), space()), paren(d1)), space()),
                                paren(d2),
                            ),
                            false,
                        ),
                    ),
                ),
            },
        },
        Statement::ReturnExp(e) => match expr_doc(e, dict) {
            Err(x) => Err(x),
            Ok(d) => Ok(group(d)),
        },
        Statement::Conditional(c, b1, b2, m) => match expr_doc(c, dict) {
            Err(x) => Err(x),
            Ok(dc) => match block_doc(b1, true, dict) {
                Err(x) => Err(x),
                Ok(d1) => match stmt_doc(*m.stmt, dict) {
                    Err(x) => Err(x),
                    Ok(dm) => match b2 {
                        None => Ok(group(let_binding(mut_tuple(m), None, if_doc(dc, d1, None, dm), false))),
                        Some(b) => match block_doc(b, true, dict) {
                            Err(x) => Err(x),
                            Ok(d2) => Ok(group(let_binding(mut_tuple(m), None, if_doc(dc, d1, Some(d2), dm), false))),
                        },
                    },
                },
            },
        },
        Statement::ForLoop(x, lo, hi, b, m) => match expr_doc(lo, dict) {
            Err(err) => Err(err),
            Ok(dl) => match expr_doc(hi, dict) {
                Err(err) => Err(err),
                Ok(dh) => match block_doc(b, true, dict) {
                    Err(err) => Err(err),
                    Ok(db) => match stmt_doc(*m.stmt, dict) {
                        Err(err) => Err(err),
                        Ok(dm) => Ok(
                            group(
                                let_binding(
                                    mut_tuple(m),
                                    None,
                                    fold_doc(text(ident_text(x)), dl, dh, db, dm, mut_tuple(m)),
                                    false,
                                ),
                            ),
                        ),
                    },
                },
            },
        },
    }
}

proof fn lemma_stmts_err(ss: Seq<Statement>, dict: TypeDict, i: int, j: int)
    requires
        0 <= i < j <= ss.len(),
        stmts_docs(ss.take(i + 1), dict) is Err,
    ensures
        stmts_docs(ss.take(j), dict) == stmts_docs(ss.take(i + 1), dict),
    decreases j,
{
    if j > i + 1 {
        lemma_stmts_err(ss, dict, i, j - 1);
        assert(ss.take(j).drop_last() =~= ss.take(j - 1));
    }
}

fn if_then_else(c: Doc, then_part: Doc, else_part: Option<Doc>, tail: Doc) -> (r: Doc)
    ensures
        r@ == if_doc(c@, then_part@, opt_view(else_part), tail@),
{
    let tail2 = tail.duplicate();
    let head = Doc::text("if").append(Doc::space()).append(c).append(Doc::space()).append(
        Doc::text("then"),
    ).append(Doc::space()).append(then_part.append(Doc::hardline()).append(tail).begin_end());
    let else_body = match else_part {
        None => tail2,
        Some(e) => e.append(Doc::hardline()).append(tail2),
    };
    head.append(Doc::space().append(Doc::text("else")).append(Doc::space()).append(else_body.begin_end()))
}

fn fold(index: Doc, lo: Doc, hi: Doc, body: Doc, tail: Doc, acc: &Doc) -> (r: Doc)
    ensures
        r@ == fold_doc(index@, lo@, hi@, body@, tail@, acc@),
{
    let ghost index_view = index@;
    let mut pair: Vec<Doc> = Vec::new();
    pair.push(index);
    pair.push(acc.duplicate());
    proof {
        assert(views(pair@) =~= seq![index_view, acc@]);
    }
    let closure = Doc::tuple(pair);
    let inner = Doc::text("foldi").append(Doc::space()).append(lo.paren()).append(Doc::space()).append(
        hi.paren(),
    ).append(Doc::space()).append(Doc::text("(fun")).append(Doc::space()).append(closure).append(
        Doc::space(),
    ).append(Doc::text("->")).append(Doc::line()).append(body).append(Doc::hardline()).append(
        tail.append(Doc::text(")")),
    );
    inner.group().nest().append(Doc::line()).append(acc.duplicate())
}

/// The document of a statement.
#[verifier::rlimit(60)]
pub fn translate_statement(s: &Statement, dict: &TypeDict) -> (r: Result<Doc, TranslateError>)
    requires
        patterns_ok(),
    ensures
        doc_result(r) == stmt_doc(*s, *dict),
    decreases s,
{
    match s {
        Statement::LetBinding(pat, typ, e) => {
            let d = match translate_expression(e, dict) {
                Ok(d) => d,
                Err(x) => return Err(x),
            };
            let tau = match typ {
                None => None,
                Some(t) => Some(translate_base_typ(&t.base)),
            };
            Ok(Doc::let_binding(translate_pattern(pat), tau, d, false).group())
        },
        Statement::Reassignment(x, e) => {
            let d = match translate_expression(e, dict) {
                Ok(d) => d,
                Err(err) => return Err(err),
            };
            Ok(Doc::let_binding(Doc::text_owned(translate_ident(x)), None, d, false).group())
        },
        Statement::ArrayUpdate(x, e1, e2) => {
            let d1 = match translate_expression(e1, dict) {
                Ok(d) => d,
                Err(err) => return Err(err),
            };
            let d2 = match translate_expression(e2, dict) {
                Ok(d) => d,
                Err(err) => return Err(err),
            };
            let upd = Doc::text("array_upd").append(Doc::space()).append(Doc::text_owned(translate_ident(x))).append(
                Doc::space(),
            ).append(d1.paren()).append(Doc::space()).append(d2.paren());
            Ok(Doc::let_binding(Doc::text_owned(translate_ident(x)), None, upd, false).group())
        },
        Statement::ReturnExp(e) => match translate_expression(e, dict) {
            Ok(d) => Ok(d.group()),
            Err(x) => Err(x),
        },
        Statement::Conditional(c, b1, b2, m) => {
            let dc = match translate_expression(c, dict) {
                Ok(d) => d,
                Err(x) => return Err(x),
            };
            let d1 = match translate_block(b1, true, dict) {
                Ok(d) => d,
                Err(x) => return Err(x),
            };
            let dm = match translate_statement(&m.stmt, dict) {
                Ok(d) => d,
                Err(x) => return Err(x),
            };
            let ite = match b2 {
                None => if_then_else(dc, d1, None, dm),
                Some(b) => {
                    let d2 = match translate_block(b, true, dict) {
                        Ok(d) => d,
                        Err(x) => return Err(x),
                    };
                    if_then_else(dc, d1, Some(d2), dm)
                },
            };
            Ok(Doc::let_binding(translate_mut_tuple(m), None, ite, false).group())
        },
        Statement::ForLoop(x, lo, hi, b, m) => {
            let dl = match translate_expression(lo, dict) {
                Ok(d) => d,
                Err(err) => return Err(err),
            };
            let dh = match translate_expression(hi, dict) {
                Ok(d) => d,
                Err(err) => return Err(err),
            };
            let db = match translate_block(b, true, dict) {
                Ok(d) => d,
                Err(err) => return Err(err),
            };
            let dm = match translate_statement(&m.stmt, dict) {
                Ok(d) => d,
                Err(err) => return Err(err),
            };
            let acc = translate_mut_tuple(m);
            let loop_expr = fold(Doc::text_owned(translate_ident(x)), dl, dh, db, dm, &acc);
            Ok(Doc::let_binding(acc, None, loop_expr, false).group())
        },
    }
}

/// The grouped documents of `ss` in order.
#[verifier::rlimit(60)]
pub fn translate_stmts(ss: &Vec<Statement>, dict: &TypeDict) -> (r: Result<Vec<Doc>, TranslateError>)
    requires
        patterns_ok(),
    ensures
        match r {
            Ok(ds) => stmts_docs(ss@, *dict) == Ok::<Seq<DocV>, TranslateError>(views(ds@)),
            Err(e) => stmts_docs(ss@, *dict) == Err::<Seq<DocV>, TranslateError>(e),
        },
    decreases ss,
{
    let mut out: Vec<Doc> = Vec::new();
    let n = ss.len();
    let mut i: usize = 0;
    proof {
        assert(views(out@) =~= Seq::<DocV>::empty());
        assert(ss@.take(0) =~= Seq::<Statement>::empty());
    }
    while i < n
        invariant
            n == ss@.len(),
            0 <= i <= n,
            patterns_ok(),
            stmts_docs(ss@.take(i as int), *dict) == Ok::<Seq<DocV>, TranslateError>(views(out@)),
        decreases n - i,
    {
        proof {
            assert(ss@.take(i + 1).drop_last() =~= ss@.take(i as int));
            assert(ss@.take(i + 1).last() == ss@[i as int]);
        }
        match translate_statement(&ss[i], dict) {
            Ok(d) => {
                let ghost prev = out@;
                let g = d.group();
                out.push(g);
                proof {
                    assert(views(out@) =~= views(prev).push(g@));
                }
            },
            Err(x) => {
                proof {
                    lemma_stmts_err(ss@, *dict, i as int, n as int);
                    assert(ss@.take(n as int) =~= ss@);
                }
                return Err(x);
            },
        }
        i = i + 1;
    }
    proof {
        assert(ss@.take(n as int) =~= ss@);
    }
    Ok(out)
}

/// The document of a block; `omit_extra_unit` leaves out the trailing unit
/// value of a block whose result is a consumed unit.
pub fn translate_block(b: &Block, omit_extra_unit: bool, dict: &TypeDict) -> (r: Result<Doc, TranslateError>)
    requires
        patterns_ok(),
    ensures
        doc_result(r) == block_doc(*b, omit_extra_unit, *dict),
    decreases b,
{
    let ds = match translate_stmts(&b.stmts, dict) {
        Ok(ds) => ds,
        Err(x) => return Err(x),
    };
    let unit_result = match (&b.return_typ.borrowing, &b.return_typ.base) {
        (Borrowing::Consumed, BaseTyp::Unit) => true,
        _ => false,
    };
    let tail = if !omit_extra_unit && unit_result {
        Doc::hardline().append(Doc::text("()"))
    } else {
        Doc::nil()
    };
    Ok(Doc::join(ds, &Doc::hardline()).append(tail))
}

} // verus!
