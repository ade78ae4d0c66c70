//! Properties that relate several calls or hold of every input.
use crate::ast::{BaseTyp, BinOp, DictEntry, DictItem, Expression, Ident, Program, Statement, TranslateError, TypeDict, dict_find};
use crate::doc::{group, let_binding, text, tuple, DocV};
use crate::items::module_text;
use crate::ops::{binop_symbol, binop_within};
use crate::names::ident_text;
use crate::statements::{block_doc, fold_doc, if_doc, mut_tuple, stmt_doc, var_docs};
use crate::translate::{expr_doc, exprs_docs};

use vstd::prelude::*;

verus! {

/// Resolving `t` through the dictionary ends after at most `k` lookups of
/// an alias or array entry.
pub open spec fn resolves_within(t: BaseTyp, dict: Seq<DictItem>, k: nat) -> bool
    decreases k,
{
    match t {
        BaseTyp::Named(Ident::Original(name), _) => match dict_find(dict, name@) {
            Some(i) => dict[i].entry == DictEntry::NaturalInteger || (k > 0 && resolves_within(
                dict[i].typ,
                dict,
                (k - 1) as nat,
            )),
            None => true,
        },
        _ => true,
    }
}

proof fn lemma_dict_find_range(entries: Seq<DictItem>, name: Seq<char>)
    ensures
        dict_find(entries, name) matches Some(i) ==> 0 <= i < entries.len() && entries[i].name@ == name,
    decreases entries.len(),
{
    if entries.len() > 0 && entries[0].name@ != name {
        lemma_dict_find_range(entries.drop_first(), name);
    }
}

/// More fuel than the chain needs changes nothing.
proof fn lemma_binop_fuel(op: BinOp, t: BaseTyp, dict: Seq<DictItem>, k: nat, f: nat)
    requires
        resolves_within(t, dict, k),
        k <= f,
    ensures
        binop_within(op, t, dict, f) == binop_within(op, t, dict, k),
    decreases k,
{
    match t {
        BaseTyp::Named(Ident::Original(name), _) => match dict_find(dict, name@) {
            Some(i) => {
                if dict[i].entry != DictEntry::NaturalInteger {
                    lemma_binop_fuel(op, dict[i].typ, dict, (k - 1) as nat, (f - 1) as nat);
                }
            },
            None => {},
        },
        _ => {},
    }
}

/// A chain that ends within the fuel never reports a cycle.
proof fn lemma_binop_ends(op: BinOp, t: BaseTyp, dict: Seq<DictItem>, k: nat)
    requires
        resolves_within(t, dict, k),
    ensures
        binop_within(op, t, dict, k) != Err::<Seq<char>, TranslateError>(TranslateError::AliasCycle),
    decreases k,
{
    match t {
        BaseTyp::Named(Ident::Original(name), _) => match dict_find(dict, name@) {
            Some(i) => {
                if dict[i].entry != DictEntry::NaturalInteger {
                    lemma_binop_ends(op, dict[i].typ, dict, (k - 1) as nat);
                }
            },
            None => {},
        },
        _ => {},
    }
}

/// Alias transparency: where the chain of aliases that starts at a named type
/// has no cycle (so it ends before it could revisit every entry), an
/// operator on that type, which the dictionary lists as an alias or an array,
/// is resolved exactly as on the type it stands for, and the chase ends.
pub proof fn law_alias_transparency(op: BinOp, name: String, args: Option<Vec<BaseTyp>>, dict: TypeDict)
    requires
        resolves_within(
            BaseTyp::Named(Ident::Original(name), args),
            dict.entries@,
            dict.entries@.len(),
        ),
        dict_find(dict.entries@, name@) matches Some(i) && dict.entries@[i].entry != DictEntry::NaturalInteger,
    ensures
        binop_symbol(op, BaseTyp::Named(Ident::Original(name), args), dict) == binop_symbol(
            op,
            dict.entries@[dict_find(dict.entries@, name@)->Some_0].typ,
            dict,
        ),
        binop_symbol(op, BaseTyp::Named(Ident::Original(name), args), dict) != Err::<Seq<char>, TranslateError>(
            TranslateError::AliasCycle,
        ),
{
    let entries = dict.entries@;
    lemma_dict_find_range(entries, name@);
    let i = dict_find(entries, name@)->Some_0;
    let u = entries[i].typ;
    lemma_binop_fuel(op, u, entries, (entries.len() - 1) as nat, entries.len());
    lemma_binop_ends(op, u, entries, (entries.len() - 1) as nat);
}

/// Determinism: two translations of the same program, dictionary and module
/// name give the same outcome, and the same text.
pub proof fn law_deterministic(
    p: Program,
    dict: TypeDict,
    module_name: Seq<char>,
    r1: Result<String, TranslateError>,
    r2: Result<String, TranslateError>,
)
    requires
        match r1 {
            Ok(s) => module_text(p, dict, module_name) == Ok::<Seq<char>, TranslateError>(s@),
            Err(e) => module_text(p, dict, module_name) == Err::<Seq<char>, TranslateError>(e),
        },
        match r2 {
            Ok(s) => module_text(p, dict, module_name) == Ok::<Seq<char>, TranslateError>(s@),
            Err(e) => module_text(p, dict, module_name) == Err::<Seq<char>, TranslateError>(e),
        },
    ensures
        r1 is Ok <==> r2 is Ok,
        r1 is Ok ==> r1->Ok_0@ == r2->Ok_0@,
        r1 is Err ==> r1->Err_0 == r2->Err_0,
{
}

/// The statement that a checker synthesizes after a block: the tuple of the
/// mutated variables, in their annotated order.
pub open spec fn is_mut_tuple_stmt(s: Statement, vars: Seq<Ident>) -> bool {
    match s {
        Statement::ReturnExp(Expression::Tuple(es)) => es@.len() == vars.len() && forall|k: int|
            0 <= k < vars.len() ==> #[trigger] es@[k] == Expression::Named(vars[k]),
        _ => false,
    }
}

proof fn lemma_named_docs(es: Seq<Expression>, vars: Seq<Ident>, dict: TypeDict)
    requires
        es.len() == vars.len(),
        forall|k: int| 0 <= k < vars.len() ==> #[trigger] es[k] == Expression::Named(vars[k]),
    ensures
        exprs_docs(es, dict) == Ok::<Seq<DocV>, TranslateError>(var_docs(vars)),
    decreases es.len(),
{
    if es.len() > 0 {
        let n = es.len() - 1;
        assert forall|k: int| 0 <= k < n implies #[trigger] es.drop_last()[k] == Expression::Named(
            vars.drop_last()[k],
        ) by {
            assert(es[k] == Expression::Named(vars[k]));
        }
        lemma_named_docs(es.drop_last(), vars.drop_last(), dict);
        assert(es[n] == Expression::Named(vars[n]));
        assert(es.last() == es[n]);
        assert(expr_doc(es.last(), dict) == Ok::<DocV, TranslateError>(var_docs(vars)[n]));
        assert(var_docs(vars) =~= var_docs(vars.drop_last()).push(var_docs(vars)[n]));
    } else {
        assert(var_docs(vars) =~= Seq::<DocV>::empty());
    }
}

/// Mutated-tuple consistency: a conditional whose trailing statement is the
/// tuple of its mutated variables binds exactly that tuple, and both of its
/// branches end in that same tuple, in the same order.
pub proof fn law_conditional_tuple(s: Statement, dict: TypeDict)
    requires
        s matches Statement::Conditional(_, _, _, m) && is_mut_tuple_stmt(*m.stmt, m.vars@),
        stmt_doc(s, dict) is Ok,
    ensures
        s matches Statement::Conditional(_, _, _, m) && exists|c: DocV, then_part: DocV, else_part: Option<DocV>|
            stmt_doc(s, dict) == Ok::<DocV, TranslateError>(
                group(let_binding(mut_tuple(m), None, if_doc(c, then_part, else_part, group(mut_tuple(m))), false)),
            ),
{
    if let Statement::Conditional(c, b1, b2, m) = s {
        if let Statement::ReturnExp(Expression::Tuple(es)) = *m.stmt {
            lemma_named_docs(es@, m.vars@, dict);
            assert(stmt_doc(*m.stmt, dict) == Ok::<DocV, TranslateError>(group(tuple(var_docs(m.vars@)))));
        }
    }
}

/// Fold consistency: a for-loop binds the tuple of its mutated variables,
/// takes that same tuple as the closure's accumulator and as the initial
/// value, passes its bounds in order, and ends the closure body with its
/// trailing statement.
pub proof fn law_fold_tuple(s: Statement, dict: TypeDict)
    requires
        s is ForLoop,
        stmt_doc(s, dict) is Ok,
    ensures
        s matches Statement::ForLoop(x, lo, hi, b, m) && exists|dl: DocV, dh: DocV, db: DocV, dm: DocV|
            expr_doc(lo, dict) == Ok::<DocV, TranslateError>(dl) && expr_doc(hi, dict) == Ok::<DocV, TranslateError>(dh)
                && stmt_doc(*m.stmt, dict) == Ok::<DocV, TranslateError>(dm) && stmt_doc(s, dict) == Ok::<DocV, TranslateError>(
                group(
                    let_binding(
                        mut_tuple(m),
                        None,
                        fold_doc(text(ident_text(x)), dl, dh, db, dm, mut_tuple(m)),
                        false,
                    ),
                ),
            ),
{
    if let Statement::ForLoop(x, lo, hi, b, m) = s {
        let dl = expr_doc(lo, dict)->Ok_0;
        let dh = expr_doc(hi, dict)->Ok_0;
        let db = block_doc(b, true, dict)->Ok_0;
        let dm = stmt_doc(*m.stmt, dict)->Ok_0;
        assert(stmt_doc(s, dict) == Ok::<DocV, TranslateError>(
            group(let_binding(mut_tuple(m), None, fold_doc(text(ident_text(x)), dl, dh, db, dm, mut_tuple(m)), false)),
        ));
    }
}

} // verus!
