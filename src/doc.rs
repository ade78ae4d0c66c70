//! A small layout-oriented document algebra.
use pretty::RcDoc;
use vstd::prelude::*;

verus! {

/// `pretty`'s reference-counted document, opaque here: it is only built from
/// a `Doc` and rendered.
#[verifier::external_type_specification]
#[verifier::external_body]
#[verifier::reject_recursive_types(A)]
pub struct ExRcDoc<'a, A>(RcDoc<'a, A>);

/// The text that the two-mode layout of `pretty` produces for a document at
/// a page width; it depends on the document and the width alone.
pub uninterp spec fn layout(d: DocV, width: nat) -> Seq<char>;

/// Relies on `pretty`'s `RcDoc` combinators: each variant becomes the
/// combinator of the same name (`nil`, `text`, `line`, `line_`, `hardline`,
/// `nest`, `group`, `append`).
#[verifier::external_body]
fn to_pretty(d: &Doc) -> RcDoc<'static, ()> {
    match d {
        Doc::Nil => RcDoc::nil(),
        Doc::Text(s) => RcDoc::text(s.clone()),
        Doc::Line => RcDoc::line(),
        Doc::LineEmpty => RcDoc::line_(),
        Doc::HardLine => RcDoc::hardline(),
        Doc::Nest(k, inner) => to_pretty(inner).nest(isize::from(*k)),
        Doc::Group(inner) => to_pretty(inner).group(),
        Doc::Concat(a, b) => to_pretty(a).append(to_pretty(b)),
    }
}

/// Relies on `pretty`'s `RcDoc::pretty(width)` rendered to a string: the
/// greedy best layout of the document at that page width.
#[verifier::external_body]
pub(crate) fn render(d: &Doc, width: usize) -> (r: String)
    ensures
        r@ == layout(d@, width as nat),
{
    to_pretty(d).pretty(width).to_string()
}

/// The mathematical value of a document.
pub enum DocV {
    Nil,
    Text(Seq<char>),
    /// A space when its group is flat, a newline otherwise.
    Line,
    /// Nothing when its group is flat, a newline otherwise.
    LineEmpty,
    HardLine,
    Nest(nat, Box<DocV>),
    Group(Box<DocV>),
    Concat(Box<DocV>, Box<DocV>),
}

/// A document built by the translator and rendered at a page width.
pub enum Doc {
    Nil,
    Text(String),
    Line,
    LineEmpty,
    HardLine,
    Nest(u8, Box<Doc>),
    Group(Box<Doc>),
    Concat(Box<Doc>, Box<Doc>),
}

pub open spec fn doc_model(d: Doc) -> DocV
    decreases d,
{
    match d {
        Doc::Nil => DocV::Nil,
        Doc::Text(s) => DocV::Text(s@),
        Doc::Line => DocV::Line,
        Doc::LineEmpty => DocV::LineEmpty,
        Doc::HardLine => DocV::HardLine,
        Doc::Nest(k, inner) => DocV::Nest(k as nat, Box::new(doc_model(*inner))),
        Doc::Group(inner) => DocV::Group(Box::new(doc_model(*inner))),
        Doc::Concat(a, b) => DocV::Concat(Box::new(doc_model(*a)), Box::new(doc_model(*b))),
    }
}

impl View for Doc {
    type V = DocV;

    open spec fn view(&self) -> DocV {
        doc_model(*self)
    }
}

pub open spec fn text(s: Seq<char>) -> DocV {
    DocV::Text(s)
}

pub open spec fn cat(a: DocV, b: DocV) -> DocV {
    DocV::Concat(Box::new(a), Box::new(b))
}

pub open spec fn group(d: DocV) -> DocV {
    DocV::Group(Box::new(d))
}

/// The indentation step used throughout the output.
pub const INDENT: u8 = 2;

pub open spec fn nest(d: DocV) -> DocV {
    DocV::Nest(INDENT as nat, Box::new(d))
}

pub open spec fn space() -> DocV {
    DocV::Text(seq![' '])
}

/// `ds` joined by `sep`, left-nested as successive appends build it.
pub open spec fn join(ds: Seq<DocV>, sep: DocV) -> DocV
    decreases ds.len(),
{
    if ds.len() == 0 {
        DocV::Nil
    } else if ds.len() == 1 {
        ds[0]
    } else {
        cat(cat(join(ds.drop_last(), sep), sep), ds.last())
    }
}

/// The concatenation of `ds`, in order.
pub open spec fn concat_all(ds: Seq<DocV>) -> DocV
    decreases ds.len(),
{
    if ds.len() == 0 {
        DocV::Nil
    } else {
        cat(concat_all(ds.drop_last()), ds.last())
    }
}

impl Doc {
    /// The text of the document laid out at page width `width`.
    pub fn to_text(&self, width: usize) -> (r: String)
        ensures
            r@ == layout(self@, width as nat),
    {
        render(self, width)
    }

    pub fn nil() -> (r: Doc)
        ensures
            r@ == DocV::Nil,
    {
        Doc::Nil
    }

    pub fn text(s: &str) -> (r: Doc)
        ensures
            r@ == text(s@),
    {
        Doc::Text(String::from_str(s))
    }

    pub fn text_owned(s: String) -> (r: Doc)
        ensures
            r@ == text(s@),
    {
        Doc::Text(s)
    }

    pub fn space() -> (r: Doc)
        ensures
            r@ == space(),
    {
        proof {
            reveal_strlit(" ");
            assert(" "@ =~= seq![' ']);
        }
        Doc::text(" ")
    }

    pub fn line() -> (r: Doc)
        ensures
            r@ == DocV::Line,
    {
        Doc::Line
    }

    pub fn line_empty() -> (r: Doc)
        ensures
            r@ == DocV::LineEmpty,
    {
        Doc::LineEmpty
    }

    pub fn hardline() -> (r: Doc)
        ensures
            r@ == DocV::HardLine,
    {
        Doc::HardLine
    }

    pub fn append(self, other: Doc) -> (r: Doc)
        ensures
            r@ == cat(self@, other@),
    {
        Doc::Concat(Box::new(self), Box::new(other))
    }

    pub fn group(self) -> (r: Doc)
        ensures
            r@ == group(self@),
    {
        Doc::Group(Box::new(self))
    }

    pub fn nest(self) -> (r: Doc)
        ensures
            r@ == nest(self@),
    {
        Doc::Nest(INDENT, Box::new(self))
    }

    /// A copy of the document.
    pub fn duplicate(&self) -> (r: Doc)
        ensures
            r@ == self@,
        decreases self,
    {
        match self {
            Doc::Nil => Doc::Nil,
            Doc::Text(s) => Doc::Text(s.clone()),
            Doc::Line => Doc::Line,
            Doc::LineEmpty => Doc::LineEmpty,
            Doc::HardLine => Doc::HardLine,
            Doc::Nest(k, inner) => Doc::Nest(*k, Box::new(inner.duplicate())),
            Doc::Group(inner) => Doc::Group(Box::new(inner.duplicate())),
            Doc::Concat(a, b) => Doc::Concat(Box::new(a.duplicate()), Box::new(b.duplicate())),
        }
    }

    /// The documents of `ds` separated by copies of `sep`.
    pub fn join(ds: Vec<Doc>, sep: &Doc) -> (r: Doc)
        ensures
            r@ == join(views(ds@), sep@),
    {
        let ghost models = ds@.map_values(|d: Doc| d@);
        let mut rest = ds;
        if rest.len() == 0 {
            return Doc::Nil;
        }
        let mut acc = rest.remove(0);
        let ghost mut i: int = 1;
        proof {
            assert(models.take(1) =~= seq![models[0]]);
            assert(rest@.map_values(|d: Doc| d@) =~= models.skip(1));
        }
        while rest.len() > 0
            invariant
                1 <= i <= models.len(),
                rest@.map_values(|d: Doc| d@) == models.skip(i),
                acc@ == join(models.take(i), sep@),
            decreases rest.len(),
        {
            let ghost before = rest@;
            let d = rest.remove(0);
            proof {
                assert(before.map_values(|d: Doc| d@).len() == before.len());
                assert(i < models.len());
                assert(d@ == models[i]) by {
                    assert(before.map_values(|d: Doc| d@)[0] == models.skip(i)[0]);
                    assert(models.skip(i)[0] == models[i]);
                }
                assert(models.take(i + 1).drop_last() =~= models.take(i));
                assert(rest@.map_values(|d: Doc| d@) =~= models.skip(i + 1)) by {
                    assert(rest@ =~= before.subrange(1, before.len() as int));
                    assert forall|k: int| 0 <= k < rest@.len() implies rest@[k]@ == models[i + 1 + k] by {
                        assert(before.map_values(|d: Doc| d@)[k + 1] == models.skip(i)[k + 1]);
                    }
                }
                i = i + 1;
            }
            acc = acc.append(sep.duplicate()).append(d);
        }
        proof {
            assert(models.take(i) =~= models);
        }
        acc
    }
}


pub open spec fn let_binding(pat: DocV, typ: Option<DocV>, expr: DocV, toplevel: bool) -> DocV {
    let typed = match typ {
        None => DocV::Nil,
        Some(tau) => cat(cat(cat(space(), text(":"@)), space()), tau),
    };
    let head = group(
        cat(cat(cat(cat(text("let"@), space()), group(cat(pat, typed))), space()), text("="@)),
    );
    let body = nest(cat(head, cat(DocV::Line, group(expr))));
    cat(body, if toplevel { DocV::Nil } else { cat(DocV::Line, text("in"@)) })
}

/// `ds` between `open` and `close`, separated by `sep`, broken as one group.
pub open spec fn enclosed(open: Seq<char>, ds: Seq<DocV>, sep: DocV, close: Seq<char>) -> DocV {
    group(
        cat(
            cat(cat(text(open), nest(group(cat(DocV::LineEmpty, join(ds, sep))))), DocV::LineEmpty),
            text(close),
        ),
    )
}

/// A tuple; a single element stands for itself.
pub open spec fn tuple(ds: Seq<DocV>) -> DocV {
    if ds.len() == 1 {
        ds[0]
    } else {
        enclosed("("@, ds, cat(text(","@), DocV::Line), ")"@)
    }
}

pub open spec fn list(ds: Seq<DocV>) -> DocV {
    enclosed("["@, ds, cat(text(";"@), DocV::Line), "]"@)
}

pub open spec fn typ_tuple(ds: Seq<DocV>) -> DocV {
    enclosed("("@, ds, cat(cat(space(), text("&"@)), DocV::Line), ")"@)
}

pub open spec fn paren(d: DocV) -> DocV {
    group(cat(cat(text("("@), nest(group(cat(DocV::LineEmpty, d)))), text(")"@)))
}

pub open spec fn begin_end(d: DocV) -> DocV {
    cat(cat(cat(text("begin"@), nest(group(cat(DocV::Line, d)))), DocV::Line), text("end"@))
}

pub open spec fn opt_view(d: Option<Doc>) -> Option<DocV> {
    match d {
        Some(x) => Some(x@),
        None => None,
    }
}

pub open spec fn views(ds: Seq<Doc>) -> Seq<DocV> {
    ds.map_values(|d: Doc| d@)
}

impl Doc {
    /// The concatenation of `ds`, in order.
    pub fn concat(ds: Vec<Doc>) -> (r: Doc)
        ensures
            r@ == concat_all(views(ds@)),
    {
        let ghost models = views(ds@);
        let mut rest = ds;
        let mut acc = Doc::Nil;
        let ghost mut i: int = 0;
        proof {
            assert(models.take(0) =~= Seq::<DocV>::empty());
            assert(views(rest@) =~= models.skip(0));
        }
        while rest.len() > 0
            invariant
                0 <= i <= models.len(),
                views(rest@) == models.skip(i),
                acc@ == concat_all(models.take(i)),
            decreases rest.len(),
        {
            let ghost before = rest@;
            let d = rest.remove(0);
            proof {
                assert(views(before).len() == before.len());
                assert(i < models.len());
                assert(d@ == models[i]) by {
                    assert(views(before)[0] == models.skip(i)[0]);
                    assert(models.skip(i)[0] == models[i]);
                }
                assert(models.take(i + 1).drop_last() =~= models.take(i));
                assert(views(rest@) =~= models.skip(i + 1)) by {
                    assert(rest@ =~= before.subrange(1, before.len() as int));
                    assert forall|k: int| 0 <= k < rest@.len() implies rest@[k]@ == models[i + 1 + k] by {
                        assert(views(before)[k + 1] == models.skip(i)[k + 1]);
                    }
                }
                i = i + 1;
            }
            acc = acc.append(d);
        }
        proof {
            assert(models.take(i) =~= models);
        }
        acc
    }

    pub fn let_binding(pat: Doc, typ: Option<Doc>, expr: Doc, toplevel: bool) -> (r: Doc)
        ensures
            r@ == let_binding(pat@, opt_view(typ), expr@, toplevel),
    {
        let typed = match typ {
            None => Doc::nil(),
            Some(tau) => Doc::space().append(Doc::text(":")).append(Doc::space()).append(tau),
        };
        let head = Doc::text("let").append(Doc::space()).append(pat.append(typed).group()).append(
            Doc::space(),
        ).append(Doc::text("=")).group();
        let body = head.append(Doc::line().append(expr.group())).nest();
        body.append(
            if toplevel {
                Doc::nil()
            } else {
                Doc::line().append(Doc::text("in"))
            },
        )
    }

    pub fn enclosed(open: &str, ds: Vec<Doc>, sep: Doc, close: &str) -> (r: Doc)
        ensures
            r@ == enclosed(open@, views(ds@), sep@, close@),
    {
        let inner = Doc::line_empty().append(Doc::join(ds, &sep)).group().nest();
        Doc::text(open).append(inner).append(Doc::line_empty()).append(Doc::text(close)).group()
    }

    pub fn tuple(ds: Vec<Doc>) -> (r: Doc)
        ensures
            r@ == tuple(views(ds@)),
    {
        if ds.len() == 1 {
            let mut ds = ds;
            return ds.remove(0);
        }
        Doc::enclosed("(", ds, Doc::text(",").append(Doc::line()), ")")
    }

    pub fn list(ds: Vec<Doc>) -> (r: Doc)
        ensures
            r@ == list(views(ds@)),
    {
        Doc::enclosed("[", ds, Doc::text(";").append(Doc::line()), "]")
    }

    pub fn typ_tuple(ds: Vec<Doc>) -> (r: Doc)
        ensures
            r@ == typ_tuple(views(ds@)),
    {
        Doc::enclosed("(", ds, Doc::space().append(Doc::text("&")).append(Doc::line()), ")")
    }

    pub fn paren(self) -> (r: Doc)
        ensures
            r@ == paren(self@),
    {
        Doc::text("(").append(Doc::line_empty().append(self).group().nest()).append(Doc::text(")")).group()
    }

    pub fn begin_end(self) -> (r: Doc)
        ensures
            r@ == begin_end(self@),
    {
        Doc::text("begin").append(Doc::line().append(self).group().nest()).append(Doc::line()).append(
            Doc::text("end"),
        )
    }
}

} // verus!
