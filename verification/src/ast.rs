//! The syntax-tree representation the pass operates on: a tagged-variant
//! model of the few node kinds the rewrite cares about, with every other
//! shape collapsed into an `Other` variant that falls through unchanged.

use vstd::prelude::*;

verus! {

/// A module: the root of one transform run.
#[derive(Debug, PartialEq, Eq)]
pub struct Module {
    pub body: Vec<ModuleItem>,
}

/// One top-level item of a module.
#[derive(Debug, PartialEq, Eq)]
pub enum ModuleItem {
    /// An import declaration.
    Import(ImportDecl),
    /// An ordinary statement, declarations included.
    Stmt(Stmt),
    /// Any other module-level shape; never touched by the pass.
    Other,
}

/// An import declaration: a list of specifiers and a source path.
#[derive(Debug, PartialEq, Eq)]
pub struct ImportDecl {
    pub specifiers: Vec<ImportSpecifier>,
    pub src: String,
}

/// One specifier of an import declaration.
#[derive(Debug, PartialEq, Eq)]
pub enum ImportSpecifier {
    /// A named import binding a local identifier.
    Named { local: String },
    /// A default or namespace specifier; carries no binding the pass reads.
    Other,
}

/// A statement.
#[derive(Debug, PartialEq, Eq)]
pub enum Stmt {
    /// A declaration statement.
    Decl(Decl),
    /// A return statement with an optional argument.
    Return { arg: Option<Expr> },
    /// An expression statement.
    Expr { expr: Expr },
    /// An `if` statement: test, consequent block, optional alternate block.
    If { test: Expr, cons: Vec<Stmt>, alt: Option<Vec<Stmt>> },
    /// Any other statement shape; never touched by the pass.
    Other,
}

/// A declaration.
#[derive(Debug, PartialEq, Eq)]
pub enum Decl {
    /// A named function declaration.
    Func { name: String, func: Function },
    /// A variable declaration.
    Var(VarDecl),
    /// Any other declaration shape; never touched by the pass.
    Other,
}

/// The parameter list and optional block body shared by function
/// declarations and function expressions.
#[derive(Debug, PartialEq, Eq)]
pub struct Function {
    pub params: Vec<String>,
    pub body: Option<Vec<Stmt>>,
}

/// A variable declaration: a kind and a list of declarators.
#[derive(Debug, PartialEq, Eq)]
pub struct VarDecl {
    pub kind: VarDeclKind,
    pub decls: Vec<VarDeclarator>,
}

/// The keyword a variable declaration was written with.
#[derive(Debug, Clone, Copy, PartialEq, Eq)]
pub enum VarDeclKind {
    Var,
    Let,
    Const,
}

/// One declarator of a variable declaration: a binding name and an
/// optional initializer.
#[derive(Debug, PartialEq, Eq)]
pub struct VarDeclarator {
    pub name: String,
    pub init: Option<Expr>,
}

/// An expression.
#[derive(Debug, PartialEq, Eq)]
pub enum Expr {
    /// An identifier reference.
    Ident { name: String },
    /// A call whose callee is an expression.
    Call { callee: Box<Expr>, args: Vec<Expr> },
    /// A function expression with an optional name.
    Func { name: Option<String>, func: Function },
    /// An arrow expression.
    Arrow { params: Vec<String>, body: ArrowBody },
    /// A parenthesized expression.
    Paren { inner: Box<Expr> },
    /// A UI element literal; its children are nested expressions.
    JsxElement { children: Vec<Expr> },
    /// A UI fragment literal; its children are nested expressions.
    JsxFragment { children: Vec<Expr> },
    /// Any other expression shape, carrying its nested child expressions.
    Other { children: Vec<Expr> },
}

/// The body of an arrow expression: a statement block or a bare expression.
#[derive(Debug, PartialEq, Eq)]
pub enum ArrowBody {
    Block { stmts: Vec<Stmt> },
    Expr { expr: Box<Expr> },
}

} // verus!
