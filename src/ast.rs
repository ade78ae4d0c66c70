//! The typed program that the translator consumes, and the type dictionary.
use vstd::prelude::*;

verus! {

/// A source name, or a synthesized name with its numeric tag.
pub enum Ident {
    Original(String),
    Hygienic(usize, String),
}

pub enum ArraySize {
    Ident(String),
    Integer(usize),
}

pub enum BaseTyp {
    Unit,
    Bool,
    UInt8,
    Int8,
    UInt16,
    Int16,
    UInt32,
    Int32,
    UInt64,
    Int64,
    UInt128,
    Int128,
    Usize,
    Isize,
    Str,
    Sequence(Box<BaseTyp>),
    Array(ArraySize, Box<BaseTyp>),
    Named(Ident, Option<Vec<BaseTyp>>),
    Variable(usize),
    Tuple(Vec<BaseTyp>),
    /// Secrecy flag and the modulus as hexadecimal digits.
    NaturalInteger(bool, String),
}

pub enum Borrowing {
    Consumed,
    Borrowed,
}

pub struct Typ {
    pub borrowing: Borrowing,
    pub base: BaseTyp,
}

pub enum Literal {
    Unit,
    Bool(bool),
    Int128(i128),
    UInt128(u128),
    Int64(i64),
    UInt64(u64),
    Int32(i32),
    UInt32(u32),
    Int16(i16),
    UInt16(u16),
    Int8(i8),
    UInt8(u8),
    Isize(isize),
    Usize(usize),
    Str(String),
}

#[derive(Clone, Copy, PartialEq, Eq, Structural)]
pub enum BinOp {
    Add,
    Sub,
    Mul,
    Div,
    Rem,
    BitXor,
    BitAnd,
    BitOr,
    Shl,
    Shr,
    Lt,
    Le,
    Ne,
    Ge,
    Gt,
    Eq,
    And,
    Or,
}

#[derive(Clone, Copy, PartialEq, Eq, Structural)]
pub enum UnOp {
    Not,
    Neg,
}

pub enum Expression {
    /// Operator, operands and the operands' resolved type.
    Binary(BinOp, Box<Expression>, Box<Expression>, BaseTyp),
    Unary(UnOp, Box<Expression>),
    Lit(Literal),
    Tuple(Vec<Expression>),
    Named(Ident),
    /// Optional type prefix, function name, arguments.
    FuncCall(Option<BaseTyp>, Ident, Vec<Expression>),
    /// Receiver, optional receiver type, method name, arguments.
    MethodCall(Box<Expression>, Option<BaseTyp>, Ident, Vec<Expression>),
    ArrayIndex(Ident, Box<Expression>),
    NewArray(Vec<Expression>),
    IntegerCasting(Box<Expression>, BaseTyp),
}

pub enum Pattern {
    IdentPat(Ident),
    WildCard,
    Tuple(Vec<Pattern>),
}

/// The variables that a block assigns, in order and without repetition, and
/// the statement that yields the tuple of their final values.
pub struct Mutated {
    pub vars: Vec<Ident>,
    pub stmt: Box<Statement>,
}

pub enum Statement {
    LetBinding(Pattern, Option<Typ>, Expression),
    Reassignment(Ident, Expression),
    ArrayUpdate(Ident, Expression, Expression),
    ReturnExp(Expression),
    /// Condition, then-block, optional else-block, mutated variables.
    Conditional(Expression, Block, Option<Block>, Mutated),
    /// Index, lower bound, upper bound, body, mutated variables of the body.
    ForLoop(Ident, Expression, Expression, Block, Mutated),
}

pub struct Block {
    pub stmts: Vec<Statement>,
    pub return_typ: Typ,
}

pub struct FnSig {
    pub args: Vec<(Ident, Typ)>,
    pub ret: BaseTyp,
}

pub enum Item {
    FnDecl(Ident, FnSig, Block),
    /// Name, size, cell type.
    ArrayDecl(Ident, Expression, BaseTyp),
    ConstDecl(Ident, BaseTyp, Expression),
    /// Modular type name, backing array name, secrecy, canvas size, modulus digits.
    NaturalIntegerDecl(Ident, Ident, bool, Expression, String),
}

pub struct Program {
    pub items: Vec<Item>,
}

#[derive(Clone, Copy, PartialEq, Eq, Structural)]
pub enum DictEntry {
    Array,
    Alias,
    NaturalInteger,
}

pub struct DictItem {
    pub name: String,
    pub typ: BaseTyp,
    pub entry: DictEntry,
}

/// Named types with their underlying type and classification.
pub struct TypeDict {
    pub entries: Vec<DictItem>,
}

/// The first entry of `entries` whose name is `name`.
pub open spec fn dict_find(entries: Seq<DictItem>, name: Seq<char>) -> Option<int>
    decreases entries.len(),
{
    if entries.len() == 0 {
        None
    } else if entries[0].name@ == name {
        Some(0)
    } else {
        match dict_find(entries.drop_first(), name) {
            Some(i) => Some(i + 1),
            None => None,
        }
    }
}

/// Why a translation unit could not be translated.
#[derive(Clone, Copy, Debug, PartialEq, Eq, Structural)]
pub enum TranslateError {
    /// A synthesized name stands where only a source type name is valid.
    SynthesizedTypeName,
    /// A modular-integer type used with a bitwise operator.
    UnsupportedOperator,
    /// A call prefixed by a type that has no namespace.
    InvalidCallPrefix,
    /// Integer casts have no translation.
    UnsupportedCast,
    /// Resolving a named type through the dictionary does not end.
    AliasCycle,
    /// `regex` rejects one of the identifier-rewriting patterns.
    PatternRejected,
}

impl TypeDict {
    /// The index of the entry that `name` resolves to.
    pub fn find(&self, name: &String) -> (r: Option<usize>)
        ensures
            r matches Some(i) ==> i < self.entries@.len() && dict_find(self.entries@, name@) == Some(
                i as int,
            ),
            r is None ==> dict_find(self.entries@, name@) is None,
    {
        let n = self.entries.len();
        let mut i: usize = 0;
        proof {
            assert(self.entries@.skip(0) =~= self.entries@);
        }
        while i < n
            invariant
                n == self.entries@.len(),
                0 <= i <= n,
                dict_find(self.entries@, name@) == (match dict_find(
                    self.entries@.skip(i as int),
                    name@,
                ) {
                    Some(j) => Some(j + i),
                    None => None,
                }),
            decreases n - i,
        {
            proof {
                assert(self.entries@.skip(i as int).drop_first() =~= self.entries@.skip(i + 1));
            }
            if self.entries[i].name == *name {
                return Some(i);
            }
            i = i + 1;
        }
        proof {
            assert(self.entries@.skip(i as int).len() == 0);
        }
        None
    }
}

} // verus!
