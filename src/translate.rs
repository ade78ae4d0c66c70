//! Expressions, statements, blocks, items and programs as documents.
use crate::ast::{Expression, TranslateError, TypeDict};
use crate::doc::{cat, concat_all, group, list, paren, space, text, tuple, views, Doc, DocV};
use crate::names::{ident_text, literal_text, patterns_ok, translate_ident, translate_literal};
use crate::ops::{binop_symbol, func_name_doc, translate_binop, translate_func_name, translate_unop, unop_symbol};
use vstd::prelude::*;

verus! {

pub open spec fn doc_result(r: Result<Doc, TranslateError>) -> Result<DocV, TranslateError> {
    match r {
        Ok(d) => Ok(d@),
        Err(e) => Err(e),
    }
}

pub open spec fn docs_result(r: Result<Vec<Doc>, TranslateError>) -> Result<Seq<DocV>, TranslateError> {
    match r {
        Ok(ds) => Ok(views(ds@)),
        Err(e) => Err(e),
    }
}

/// Each argument parenthesized and preceded by a space.
pub open spec fn spaced(ds: Seq<DocV>) -> Seq<DocV> {
    ds.map_values(|d: DocV| cat(space(), paren(d)))
}

/// The document of an expression, or why it has none.
pub open spec fn expr_doc(e: Expression, dict: TypeDict) -> Result<DocV, TranslateError>
    decreases e,
{
    match e {
        Expression::Binary(op, e1, e2, t) => match expr_doc(*e1, dict) {
            Err(x) => Err(x),
            Ok(d1) => match binop_symbol(op, t, dict) {
                Err(x) => Err(x),
                Ok(sym) => match expr_doc(*e2, dict) {
                    Err(x) => Err(x),
                    Ok(d2) => Ok(group(cat(cat(cat(cat(paren(d1), space()), text(sym)), space()), paren(d2)))),
                },
            },
        },
        Expression::Unary(op, e1) => match expr_doc(*e1, dict) {
            Err(x) => Err(x),
            Ok(d1) => Ok(group(cat(cat(text(unop_symbol(op)), space()), paren(d1)))),
        },
        Expression::Lit(l) => Ok(text(literal_text(l))),
        Expression::Tuple(es) => match exprs_docs(es@, dict) {
            Err(x) => Err(x),
            Ok(ds) => Ok(tuple(ds)),
        },
        Expression::Named(x) => Ok(text(ident_text(x))),
        Expression::FuncCall(prefix, name, args) => match func_name_doc(prefix, name, dict) {
            Err(x) => Err(x),
            Ok(f) => match exprs_docs(args@, dict) {
                Err(x) => Err(x),
                Ok(ds) => Ok(cat(f, concat_all(spaced(ds)))),
            },
        },
        Expression::MethodCall(recv, recv_typ, name, args) => match func_name_doc(recv_typ, name, dict) {
            Err(x) => Err(x),
            Ok(f) => match expr_doc(*recv, dict) {
                Err(x) => Err(x),
                Ok(dr) => match exprs_docs(args@, dict) {
                    Err(x) => Err(x),
                    Ok(ds) => Ok(cat(cat(f, cat(space(), paren(dr))), concat_all(spaced(ds)))),
                },
            },
        },
        Expression::ArrayIndex(x, e2) => match expr_doc(*e2, dict) {
            Err(err) => Err(err),
            Ok(d2) => Ok(
                cat(cat(cat(cat(text("array_index"@), space()), paren(text(ident_text(x)))), space()), paren(d2)),
            ),
        },
        Expression::NewArray(es) => match exprs_docs(es@, dict) {
            Err(x) => Err(x),
            Ok(ds) => Ok(cat(cat(text("seq_from_list"@), space()), list(ds))),
        },
        Expression::IntegerCasting(_, _) => Err(TranslateError::UnsupportedCast),
    }
}

/// The documents of `es` in order, or the first reason one has none.
pub open spec fn exprs_docs(es: Seq<Expression>, dict: TypeDict) -> Result<Seq<DocV>, TranslateError>
    decreases es,
{
    if es.len() == 0 {
        Ok(Seq::empty())
    } else {
        match exprs_docs(es.drop_last(), dict) {
            Err(x) => Err(x),
            Ok(ds) => match expr_doc(es.last(), dict) {
                Err(x) => Err(x),
                Ok(d) => Ok(ds.push(d)),
            },
        }
    }
}

proof fn lemma_exprs_err(es: Seq<Expression>, dict: TypeDict, i: int, j: int)
    requires
        0 <= i < j <= es.len(),
        exprs_docs(es.take(i + 1), dict) is Err,
    ensures
        exprs_docs(es.take(j), dict) == exprs_docs(es.take(i + 1), dict),
    decreases j,
{
    if j > i + 1 {
        lemma_exprs_err(es, dict, i, j - 1);
        assert(es.take(j).drop_last() =~= es.take(j - 1));
    }
}

fn spaced_args(ds: Vec<Doc>) -> (r: Doc)
    ensures
        r@ == concat_all(spaced(views(ds@))),
{
    let ghost models = views(ds@);
    let mut rest = ds;
    let mut acc = Doc::nil();
    let ghost mut i: int = 0;
    proof {
        assert(spaced(models.take(0)) =~= Seq::<DocV>::empty());
        assert(views(rest@) =~= models.skip(0));
    }
    while rest.len() > 0
        invariant
            0 <= i <= models.len(),
            views(rest@) == models.skip(i),
            acc@ == concat_all(spaced(models.take(i))),
        decreases rest.len(),
    {
        let ghost before = rest@;
        let d = rest.remove(0);
        proof {
            assert(views(before).len() == before.len());
            assert(i < models.len());
            assert(d@ == models[i]) by {
                assert(views(before)[0] == models.skip(i)[0]);
                assert(models.skip(i)[0] == models[i]);
            }
            assert(spaced(models.take(i + 1)).drop_last() =~= spaced(models.take(i)));
            assert(views(rest@) =~= models.skip(i + 1)) by {
                assert(rest@ =~= before.subrange(1, before.len() as int));
                assert forall|k: int| 0 <= k < rest@.len() implies rest@[k]@ == models[i + 1 + k] by {
                    assert(views(before)[k + 1] == models.skip(i)[k + 1]);
                }
            }
            i = i + 1;
        }
        acc = acc.append(Doc::space().append(d.paren()));
    }
    proof {
        assert(models.take(i) =~= models);
    }
    acc
}

/// The document of an expression.
pub fn translate_expression(e: &Expression, dict: &TypeDict) -> (r: Result<Doc, TranslateError>)
    requires
        patterns_ok(),
    ensures
        doc_result(r) == expr_doc(*e, *dict),
    decreases e,
{
    match e {
        Expression::Binary(op, e1, e2, t) => {
            let d1 = match translate_expression(e1, dict) {
                Ok(d) => d,
                Err(x) => return Err(x),
            };
            let sym = match translate_binop(*op, t, dict) {
                Ok(s) => s,
                Err(x) => return Err(x),
            };
            let d2 = match translate_expression(e2, dict) {
                Ok(d) => d,
                Err(x) => return Err(x),
            };
            Ok(d1.paren().append(Doc::space()).append(Doc::text(sym)).append(Doc::space()).append(d2.paren()).group())
        },
        Expression::Unary(op, e1) => {
            let d1 = match translate_expression(e1, dict) {
                Ok(d) => d,
                Err(x) => return Err(x),
            };
            Ok(Doc::text(translate_unop(*op)).append(Doc::space()).append(d1.paren()).group())
        },
        Expression::Lit(l) => Ok(Doc::text_owned(translate_literal(l))),
        Expression::Tuple(es) => match translate_exprs(es, dict) {
            Ok(ds) => Ok(Doc::tuple(ds)),
            Err(x) => Err(x),
        },
        Expression::Named(x) => Ok(Doc::text_owned(translate_ident(x))),
        Expression::FuncCall(prefix, name, args) => {
            let f = match translate_func_name(prefix, name, dict) {
                Ok(d) => d,
                Err(x) => return Err(x),
            };
            let ds = match translate_exprs(args, dict) {
                Ok(ds) => ds,
                Err(x) => return Err(x),
            };
            Ok(f.append(spaced_args(ds)))
        },
        Expression::MethodCall(recv, recv_typ, name, args) => {
            let f = match translate_func_name(recv_typ, name, dict) {
                Ok(d) => d,
                Err(x) => return Err(x),
            };
            let dr = match translate_expression(recv, dict) {
                Ok(d) => d,
                Err(x) => return Err(x),
            };
            let ds = match translate_exprs(args, dict) {
                Ok(ds) => ds,
                Err(x) => return Err(x),
            };
            Ok(f.append(Doc::space().append(dr.paren())).append(spaced_args(ds)))
        },
        Expression::ArrayIndex(x, e2) => {
            let d2 = match translate_expression(e2, dict) {
                Ok(d) => d,
                Err(err) => return Err(err),
            };
            Ok(
                Doc::text("array_index").append(Doc::space()).append(Doc::text_owned(translate_ident(x)).paren()).append(
                    Doc::space(),
                ).append(d2.paren()),
            )
        },
        Expression::NewArray(es) => match translate_exprs(es, dict) {
            Ok(ds) => Ok(Doc::text("seq_from_list").append(Doc::space()).append(Doc::list(ds))),
            Err(x) => Err(x),
        },
        Expression::IntegerCasting(_, _) => Err(TranslateError::UnsupportedCast),
    }
}

/// The documents of `es` in order.
pub fn translate_exprs(es: &Vec<Expression>, dict: &TypeDict) -> (r: Result<Vec<Doc>, TranslateError>)
    requires
        patterns_ok(),
    ensures
        docs_result(r) == exprs_docs(es@, *dict),
    decreases es,
{
    let mut out: Vec<Doc> = Vec::new();
    let n = es.len();
    let mut i: usize = 0;
    proof {
        assert(views(out@) =~= Seq::<DocV>::empty());
        assert(es@.take(0) =~= Seq::<Expression>::empty());
    }
    while i < n
        invariant
            n == es@.len(),
            0 <= i <= n,
            patterns_ok(),
            exprs_docs(es@.take(i as int), *dict) == Ok::<Seq<DocV>, TranslateError>(views(out@)),
        decreases n - i,
    {
        proof {
            assert(es@.take(i + 1).drop_last() =~= es@.take(i as int));
            assert(es@.take(i + 1).last() == es@[i as int]);
        }
        match translate_expression(&es[i], dict) {
            Ok(d) => {
                let ghost prev = out@;
                out.push(d);
                proof {
                    assert(views(out@) =~= views(prev).push(d@));
                }
            },
            Err(x) => {
                proof {
                    lemma_exprs_err(es@, *dict, i as int, n as int);
                    assert(es@.take(n as int) =~= es@);
                }
                return Err(x);
            },
        }
        i = i + 1;
    }
    proof {
        assert(es@.take(n as int) =~= es@);
    }
    Ok(out)
}

} // verus!
