//! A small syntax tree, the visitor that walks it, and an interpreter that
//! evaluates its expressions.

use vstd::pervasive::unreached;
use vstd::prelude::*;

verus! {

/// A statement: an expression on its own, or the binding of a name.
pub enum Stmt {
    Expr(Expr),
    Let(Name, Expr),
}

/// The name that a `let` binds.
pub struct Name {
    pub value: String,
}

/// An expression over 64-bit integers.
pub enum Expr {
    IntLit(i64),
    Add(Box<Expr>, Box<Expr>),
    Sub(Box<Expr>, Box<Expr>),
}

/// The number that `e` denotes over the integers.
pub open spec fn value(e: Expr) -> int
    decreases e,
{
    match e {
        Expr::IntLit(n) => n as int,
        Expr::Add(lhs, rhs) => value(*lhs) + value(*rhs),
        Expr::Sub(lhs, rhs) => value(*lhs) - value(*rhs),
    }
}

/// Whether `e` and each expression inside it denote a number that an `i64`
/// can hold, so that no step of its evaluation overflows.
pub open spec fn in_range(e: Expr) -> bool
    decreases e,
{
    &&& i64::MIN <= value(e) <= i64::MAX
    &&& match e {
        Expr::IntLit(_) => true,
        Expr::Add(lhs, rhs) => in_range(*lhs) && in_range(*rhs),
        Expr::Sub(lhs, rhs) => in_range(*lhs) && in_range(*rhs),
    }
}

/// One handler for each kind of node. An implementation says for each
/// handler which nodes it takes; a handler is called on those only.
pub trait Visitor<T> {
    /// Whether `visit_name` may be called on `n`.
    spec fn takes_name(&self, n: &Name) -> bool;

    /// Whether `visit_stmt` may be called on `s`.
    spec fn takes_stmt(&self, s: &Stmt) -> bool;

    /// Whether `visit_expr` may be called on `e`.
    spec fn takes_expr(&self, e: &Expr) -> bool;

    fn visit_name(&mut self, n: &Name) -> T
        requires
            old(self).takes_name(n),
    ;

    fn visit_stmt(&mut self, s: &Stmt) -> T
        requires
            old(self).takes_stmt(s),
    ;

    fn visit_expr(&mut self, e: &Expr) -> T
        requires
            old(self).takes_expr(e),
    ;
}

/// Evaluates expressions, and the statements that consist of one.
pub struct Interpreter;

impl Visitor<i64> for Interpreter {
    /// Names have no value: the interpreter takes none.
    open spec fn takes_name(&self, n: &Name) -> bool {
        false
    }

    /// An expression statement whose expression can be evaluated; a binding
    /// is not taken.
    open spec fn takes_stmt(&self, s: &Stmt) -> bool {
        match *s {
            Stmt::Expr(e) => in_range(e),
            Stmt::Let(_, _) => false,
        }
    }

    /// An expression whose evaluation does not overflow.
    open spec fn takes_expr(&self, e: &Expr) -> bool {
        in_range(*e)
    }

    fn visit_name(&mut self, n: &Name) -> i64 {
        unreached()
    }

    /// The value of the statement's expression.
    fn visit_stmt(&mut self, s: &Stmt) -> (r: i64)
        ensures
            *s matches Stmt::Expr(e) && r == value(e),
    {
        match *s {
            Stmt::Expr(ref e) => self.visit_expr(e),
            Stmt::Let(..) => unreached(),
        }
    }

    /// The value of `e`: a literal stands for itself, a sum and a difference
    /// are taken of the values of their two sides, the left one first.
    fn visit_expr(&mut self, e: &Expr) -> (r: i64)
        ensures
            r == value(*e),
        decreases *e,
    {
        match *e {
            Expr::IntLit(n) => n,
            Expr::Add(ref lhs, ref rhs) => self.visit_expr(lhs) + self.visit_expr(rhs),
            Expr::Sub(ref lhs, ref rhs) => self.visit_expr(lhs) - self.visit_expr(rhs),
        }
    }
}

} // verus!
