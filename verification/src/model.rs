//! The mathematical model of the syntax tree: a parallel family of
//! datatypes over `Seq` and `Seq<char>`, and the view functions that map
//! each executable node onto it. All contracts and laws are stated over
//! these values.

use vstd::prelude::*;
use crate::ast::{
    ArrowBody, Decl, Expr, Function, ImportSpecifier, Module, ModuleItem, Stmt, VarDeclKind,
    VarDeclarator,
};

verus! {

/// Model of a module.
pub struct ModuleView {
    pub body: Seq<ItemView>,
}

/// Model of one module item.
pub enum ItemView {
    Import { specifiers: Seq<SpecifierView>, src: Seq<char> },
    Stmt(StmtView),
    Other,
}

/// Model of one import specifier.
pub enum SpecifierView {
    Named { local: Seq<char> },
    Other,
}

/// Model of a statement.
pub enum StmtView {
    Decl(DeclView),
    Return { arg: Option<ExprView> },
    Expr { expr: ExprView },
    If { test: ExprView, cons: Seq<StmtView>, alt: Option<Seq<StmtView>> },
    Other,
}

/// Model of a declaration.
pub enum DeclView {
    Func { name: Seq<char>, func: FuncView },
    Var { kind: VarDeclKind, decls: Seq<DeclaratorView> },
    Other,
}

/// Model of a function's parameter list and optional block body.
pub struct FuncView {
    pub params: Seq<Seq<char>>,
    pub body: Option<Seq<StmtView>>,
}

/// Model of one variable declarator.
pub struct DeclaratorView {
    pub name: Seq<char>,
    pub init: Option<ExprView>,
}

/// Model of an expression.
pub enum ExprView {
    Ident { name: Seq<char> },
    Call { callee: Box<ExprView>, args: Seq<ExprView> },
    Func { name: Option<Seq<char>>, func: FuncView },
    Arrow { params: Seq<Seq<char>>, body: ArrowBodyView },
    Paren { inner: Box<ExprView> },
    JsxElement { children: Seq<ExprView> },
    JsxFragment { children: Seq<ExprView> },
    Other { children: Seq<ExprView> },
}

/// Model of an arrow expression's body.
pub enum ArrowBodyView {
    Block { stmts: Seq<StmtView> },
    Expr(Box<ExprView>),
}

/// View of a parameter list.
pub open spec fn v_params(s: Seq<String>) -> Seq<Seq<char>> {
    Seq::new(s.len(), |i: int| s[i]@)
}

/// View of an optional binding name.
pub open spec fn v_opt_name(o: Option<String>) -> Option<Seq<char>> {
    match o {
        Option::Some(n) => Option::Some(n@),
        Option::None => Option::None,
    }
}

/// View of one import specifier.
pub open spec fn v_specifier(s: ImportSpecifier) -> SpecifierView {
    match s {
        ImportSpecifier::Named { local } => SpecifierView::Named { local: local@ },
        ImportSpecifier::Other => SpecifierView::Other,
    }
}

/// View of a specifier list.
pub open spec fn v_specifiers(s: Seq<ImportSpecifier>) -> Seq<SpecifierView> {
    Seq::new(s.len(), |i: int| v_specifier(s[i]))
}

/// View of an expression.
pub open spec fn v_expr(e: Expr) -> ExprView
    decreases e,
{
    match e {
        Expr::Ident { name } => ExprView::Ident { name: name@ },
        Expr::Call { callee, args } => ExprView::Call {
            callee: Box::new(v_expr(*callee)),
            args: v_exprs(args@),
        },
        Expr::Func { name, func } => ExprView::Func {
            name: v_opt_name(name),
            func: v_func(func),
        },
        Expr::Arrow { params, body } => ExprView::Arrow {
            params: v_params(params@),
            body: v_arrow_body(body),
        },
        Expr::Paren { inner } => ExprView::Paren { inner: Box::new(v_expr(*inner)) },
        Expr::JsxElement { children } => ExprView::JsxElement { children: v_exprs(children@) },
        Expr::JsxFragment { children } => ExprView::JsxFragment { children: v_exprs(children@) },
        Expr::Other { children } => ExprView::Other { children: v_exprs(children@) },
    }
}

/// View of an expression list.
pub open spec fn v_exprs(s: Seq<Expr>) -> Seq<ExprView>
    decreases s,
{
    if s.len() == 0 {
        Seq::empty()
    } else {
        v_exprs(s.subrange(0, s.len() - 1)).push(v_expr(s[s.len() - 1]))
    }
}

/// View of a function.
pub open spec fn v_func(f: Function) -> FuncView
    decreases f,
{
    FuncView { params: v_params(f.params@), body: v_opt_stmts(f.body) }
}

/// View of an arrow body.
pub open spec fn v_arrow_body(b: ArrowBody) -> ArrowBodyView
    decreases b,
{
    match b {
        ArrowBody::Block { stmts } => ArrowBodyView::Block { stmts: v_stmts(stmts@) },
        ArrowBody::Expr { expr } => ArrowBodyView::Expr(Box::new(v_expr(*expr))),
    }
}

/// View of an optional statement block.
pub open spec fn v_opt_stmts(o: Option<Vec<Stmt>>) -> Option<Seq<StmtView>>
    decreases o,
{
    match o {
        Option::Some(v) => Option::Some(v_stmts(v@)),
        Option::None => Option::None,
    }
}

/// View of a statement.
pub open spec fn v_stmt(s: Stmt) -> StmtView
    decreases s,
{
    match s {
        Stmt::Decl(d) => StmtView::Decl(v_decl(d)),
        Stmt::Return { arg } => StmtView::Return { arg: v_opt_expr(arg) },
        Stmt::Expr { expr } => StmtView::Expr { expr: v_expr(expr) },
        Stmt::If { test, cons, alt } => StmtView::If {
            test: v_expr(test),
            cons: v_stmts(cons@),
            alt: v_opt_stmts(alt),
        },
        Stmt::Other => StmtView::Other,
    }
}

/// View of an optional expression.
pub open spec fn v_opt_expr(o: Option<Expr>) -> Option<ExprView>
    decreases o,
{
    match o {
        Option::Some(e) => Option::Some(v_expr(e)),
        Option::None => Option::None,
    }
}

/// View of a statement list.
pub open spec fn v_stmts(s: Seq<Stmt>) -> Seq<StmtView>
    decreases s,
{
    if s.len() == 0 {
        Seq::empty()
    } else {
        v_stmts(s.subrange(0, s.len() - 1)).push(v_stmt(s[s.len() - 1]))
    }
}

/// View of a declaration.
pub open spec fn v_decl(d: Decl) -> DeclView
    decreases d,
{
    match d {
        Decl::Func { name, func } => DeclView::Func { name: name@, func: v_func(func) },
        Decl::Var(v) => DeclView::Var { kind: v.kind, decls: v_declarators(v.decls@) },
        Decl::Other => DeclView::Other,
    }
}

/// View of a declarator list.
pub open spec fn v_declarators(s: Seq<VarDeclarator>) -> Seq<DeclaratorView>
    decreases s,
{
    if s.len() == 0 {
        Seq::empty()
    } else {
        v_declarators(s.subrange(0, s.len() - 1)).push(v_declarator(s[s.len() - 1]))
    }
}

/// View of one declarator.
pub open spec fn v_declarator(d: VarDeclarator) -> DeclaratorView
    decreases d,
{
    DeclaratorView { name: d.name@, init: v_opt_expr(d.init) }
}

/// View of one module item.
pub open spec fn v_item(it: ModuleItem) -> ItemView
    decreases it,
{
    match it {
        ModuleItem::Import(d) => ItemView::Import {
            specifiers: v_specifiers(d.specifiers@),
            src: d.src@,
        },
        ModuleItem::Stmt(s) => ItemView::Stmt(v_stmt(s)),
        ModuleItem::Other => ItemView::Other,
    }
}

/// View of a module item list.
pub open spec fn v_items(s: Seq<ModuleItem>) -> Seq<ItemView>
    decreases s,
{
    if s.len() == 0 {
        Seq::empty()
    } else {
        v_items(s.subrange(0, s.len() - 1)).push(v_item(s[s.len() - 1]))
    }
}

/// View of a module.
pub open spec fn v_module(m: Module) -> ModuleView {
    ModuleView { body: v_items(m.body@) }
}

impl View for Module {
    type V = ModuleView;

    open spec fn view(&self) -> ModuleView {
        v_module(*self)
    }
}

/// The view of an expression list is the elementwise view.
pub proof fn lemma_v_exprs(s: Seq<Expr>)
    ensures
        v_exprs(s).len() == s.len(),
        forall|i: int| 0 <= i < s.len() ==> v_exprs(s)[i] == v_expr(s[i]),
    decreases s.len(),
{
    if s.len() > 0 {
        lemma_v_exprs(s.subrange(0, s.len() - 1));
    }
}

/// The view of a statement list is the elementwise view.
pub proof fn lemma_v_stmts(s: Seq<Stmt>)
    ensures
        v_stmts(s).len() == s.len(),
        forall|i: int| 0 <= i < s.len() ==> v_stmts(s)[i] == v_stmt(s[i]),
    decreases s.len(),
{
    if s.len() > 0 {
        lemma_v_stmts(s.subrange(0, s.len() - 1));
    }
}

/// The view of a declarator list is the elementwise view.
pub proof fn lemma_v_declarators(s: Seq<VarDeclarator>)
    ensures
        v_declarators(s).len() == s.len(),
        forall|i: int| 0 <= i < s.len() ==> v_declarators(s)[i] == v_declarator(s[i]),
    decreases s.len(),
{
    if s.len() > 0 {
        lemma_v_declarators(s.subrange(0, s.len() - 1));
    }
}

/// The view of a module item list is the elementwise view.
pub proof fn lemma_v_items(s: Seq<ModuleItem>)
    ensures
        v_items(s).len() == s.len(),
        forall|i: int| 0 <= i < s.len() ==> v_items(s)[i] == v_item(s[i]),
    decreases s.len(),
{
    if s.len() > 0 {
        lemma_v_items(s.subrange(0, s.len() - 1));
    }
}

} // verus!
