//! The executable rewrite: a bottom-up fold of the tree that wraps every
//! qualifying function, reports whether any wrap occurred, and the
//! end-of-module injection of the observer import. Each function returns
//! exactly the rewrite the model describes.

use vstd::prelude::*;
use crate::ast::{
    ArrowBody, Decl, Expr, Function, ImportDecl, ImportSpecifier, ModuleItem, Stmt, VarDecl,
    VarDeclKind, VarDeclarator,
};
use crate::classify::{is_already_observed, is_candidate, is_observer_local_name};
use crate::model::{
    lemma_v_declarators, lemma_v_exprs, lemma_v_items, lemma_v_stmts, v_arrow_body, v_decl,
    v_declarator, v_declarators, v_expr, v_exprs, v_func, v_item, v_items, v_opt_expr,
    v_opt_stmts, v_params, v_specifier, v_specifiers, v_stmt, v_stmts, ArrowBodyView, DeclView,
    DeclaratorView, ExprView, FuncView, ItemView, SpecifierView, StmtView,
};
use crate::semantics::{
    has_observer_import, item_imports_observer, observer_import_item, observer_local,
    rw_arrow_body, rw_decl, rw_declarator, rw_declarators, rw_expr, rw_expr_children, rw_exprs,
    rw_func, rw_item, rw_items, rw_opt_expr, rw_opt_stmts, rw_stmt, rw_stmts,
    specifier_binds_observer, wrap, wrap_in_arrow_body, wrap_in_decl, wrap_in_declarator,
    wrap_in_declarators, wrap_in_expr, wrap_in_expr_children, wrap_in_exprs, wrap_in_func,
    wrap_in_item, wrap_in_items, wrap_in_stmt, wrap_in_stmts,
};

verus! {

/// The fixed observer identifier as an owned string.
pub fn observer_ident_string() -> (s: String)
    ensures
        s@ == observer_local(),
{
    let s = "__observer".to_owned();
    proof {
        reveal_strlit("__observer");
        assert(s@ =~= observer_local());
    }
    s
}

/// The wrap operation: builds the call of the fixed observer binding
/// around the given expression.
pub fn wrap_with_observer(e: Expr) -> (r: Expr)
    ensures
        v_expr(r) == wrap(v_expr(e)),
{
    let ghost ev = v_expr(e);
    let callee = Expr::Ident { name: observer_ident_string() };
    let ghost calleev = v_expr(callee);
    let mut args: Vec<Expr> = Vec::new();
    args.push(e);
    proof {
        assert(calleev == ExprView::Ident { name: observer_local() });
        assert(args@ =~= seq![e]);
        assert(args@.subrange(0, 0) =~= Seq::<Expr>::empty());
        assert(v_exprs(args@.subrange(0, 0)) =~= Seq::<ExprView>::empty());
    }
    let r = Expr::Call { callee: Box::new(callee), args };
    proof {
        assert(v_exprs(seq![e]) =~= seq![ev]);
        assert(v_expr(r) == ExprView::Call { callee: Box::new(calleev), args: v_exprs(seq![e]) });
        assert(v_expr(r) == wrap(ev));
    }
    r
}

/// Rewrite of one expression; the second component says whether a wrap
/// occurred anywhere inside.
pub fn fold_expr(e: Expr) -> (r: (Expr, bool))
    ensures
        v_expr(r.0) == rw_expr(v_expr(e)),
        r.1 == wrap_in_expr(v_expr(e)),
    decreases v_expr(e), 1int,
{
    let ghost ev = v_expr(e);
    if is_already_observed(&e) {
        return (e, false);
    }
    let (c, f) = fold_expr_children(e);
    if is_candidate(&c) {
        let w = wrap_with_observer(c);
        (w, true)
    } else {
        (c, f)
    }
}

/// Rewrite of an expression's children, the node itself untouched.
pub fn fold_expr_children(e: Expr) -> (r: (Expr, bool))
    ensures
        v_expr(r.0) == rw_expr_children(v_expr(e)),
        r.1 == wrap_in_expr_children(v_expr(e)),
    decreases v_expr(e), 0int,
{
    let ghost ev = v_expr(e);
    match e {
        Expr::Ident { name } => {
            let r = Expr::Ident { name };
            proof {
                assert(v_expr(r) == ev);
            }
            (r, false)
        },
        Expr::Call { callee, args } => {
            proof {
                assert(ev == ExprView::Call {
                    callee: Box::new(v_expr(*callee)),
                    args: v_exprs(args@),
                });
            }
            let (c2, f1) = fold_expr(*callee);
            let (a2, f2) = fold_exprs(args);
            let r = Expr::Call { callee: Box::new(c2), args: a2 };
            proof {
                assert(v_expr(r) == ExprView::Call {
                    callee: Box::new(v_expr(c2)),
                    args: v_exprs(a2@),
                });
            }
            (r, f1 || f2)
        },
        Expr::Func { name, func } => {
            proof {
                assert(ev == ExprView::Func {
                    name: crate::model::v_opt_name(name),
                    func: v_func(func),
                });
            }
            let (f2, fl) = fold_func(func);
            let r = Expr::Func { name, func: f2 };
            proof {
                assert(v_expr(r) == ExprView::Func {
                    name: crate::model::v_opt_name(name),
                    func: v_func(f2),
                });
            }
            (r, fl)
        },
        Expr::Arrow { params, body } => {
            proof {
                assert(ev == ExprView::Arrow {
                    params: v_params(params@),
                    body: v_arrow_body(body),
                });
            }
            let (b2, fl) = fold_arrow_body(body);
            let r = Expr::Arrow { params, body: b2 };
            proof {
                assert(v_expr(r) == ExprView::Arrow {
                    params: v_params(params@),
                    body: v_arrow_body(b2),
                });
            }
            (r, fl)
        },
        Expr::Paren { inner } => {
            proof {
                assert(ev == ExprView::Paren { inner: Box::new(v_expr(*inner)) });
            }
            let (i2, fl) = fold_expr(*inner);
            let r = Expr::Paren { inner: Box::new(i2) };
            proof {
                assert(v_expr(r) == ExprView::Paren { inner: Box::new(v_expr(i2)) });
            }
            (r, fl)
        },
        Expr::JsxElement { children } => {
            proof {
                assert(ev == ExprView::JsxElement { children: v_exprs(children@) });
            }
            let (c2, fl) = fold_exprs(children);
            let r = Expr::JsxElement { children: c2 };
            proof {
                assert(v_expr(r) == ExprView::JsxElement { children: v_exprs(c2@) });
            }
            (r, fl)
        },
        Expr::JsxFragment { children } => {
            proof {
                assert(ev == ExprView::JsxFragment { children: v_exprs(children@) });
            }
            let (c2, fl) = fold_exprs(children);
            let r = Expr::JsxFragment { children: c2 };
            proof {
                assert(v_expr(r) == ExprView::JsxFragment { children: v_exprs(c2@) });
            }
            (r, fl)
        },
        Expr::Other { children } => {
            proof {
                assert(ev == ExprView::Other { children: v_exprs(children@) });
            }
            let (c2, fl) = fold_exprs(children);
            let r = Expr::Other { children: c2 };
            proof {
                assert(v_expr(r) == ExprView::Other { children: v_exprs(c2@) });
            }
            (r, fl)
        },
    }
}

/// Rewrite of an expression list, elementwise.
pub fn fold_exprs(v: Vec<Expr>) -> (r: (Vec<Expr>, bool))
    ensures
        v_exprs(r.0@) == rw_exprs(v_exprs(v@)),
        r.1 == wrap_in_exprs(v_exprs(v@)),
    decreases v_exprs(v@), 1int,
{
    let ghost v0 = v@;
    let ghost orig = v_exprs(v0);
    let mut v = v;
    let popped = v.pop();
    match popped {
        Option::None => {
            proof {
                assert(orig =~= Seq::<ExprView>::empty());
                assert(rw_exprs(orig) =~= orig);
            }
            (v, false)
        },
        Option::Some(last) => {
            proof {
                lemma_v_exprs(v0);
                lemma_v_exprs(v@);
                assert(v_exprs(v@) =~= orig.subrange(0, orig.len() - 1));
                assert(v_expr(last) == orig[orig.len() - 1]);
            }
            let (l2, f1) = fold_expr(last);
            let (rest2, f2) = fold_exprs(v);
            let mut out = rest2;
            out.push(l2);
            proof {
                assert(out@.subrange(0, out@.len() - 1) =~= rest2@);
                assert(v_exprs(out@) == v_exprs(rest2@).push(v_expr(l2)));
                assert(v_exprs(out@) == rw_exprs(orig));
            }
            (out, f1 || f2)
        },
    }
}

/// Rewrite of a function: its block body, if any, is rewritten.
pub fn fold_func(f: Function) -> (r: (Function, bool))
    ensures
        v_func(r.0) == rw_func(v_func(f)),
        r.1 == crate::semantics::wrap_in_func(v_func(f)),
    decreases v_func(f), 1int,
{
    let ghost fv = v_func(f);
    let Function { params, body } = f;
    match body {
        Option::Some(b) => {
            proof {
                assert(fv.body == Option::Some(v_stmts(b@)));
                assert(rw_opt_stmts(fv.body) == Option::Some(rw_stmts(v_stmts(b@))));
            }
            let (b2, fl) = fold_stmts(b);
            let r = Function { params, body: Option::Some(b2) };
            proof {
                assert(v_opt_stmts(r.body) == Option::Some(v_stmts(b2@)));
                assert(v_func(r) == FuncView {
                    params: v_params(params@),
                    body: Option::Some(v_stmts(b2@)),
                });
            }
            (r, fl)
        },
        Option::None => {
            let r = Function { params, body: Option::None };
            proof {
                assert(v_opt_stmts(r.body) == Option::None::<Seq<StmtView>>);
                assert(fv.body == Option::None::<Seq<StmtView>>);
                assert(rw_opt_stmts(fv.body) == Option::None::<Seq<StmtView>>);
                assert(v_func(r) == rw_func(fv));
            }
            (r, false)
        },
    }
}

/// Rewrite of an arrow body.
pub fn fold_arrow_body(b: ArrowBody) -> (r: (ArrowBody, bool))
    ensures
        v_arrow_body(r.0) == rw_arrow_body(v_arrow_body(b)),
        r.1 == wrap_in_arrow_body(v_arrow_body(b)),
    decreases v_arrow_body(b), 1int,
{
    let ghost bv = v_arrow_body(b);
    match b {
        ArrowBody::Block { stmts } => {
            proof {
                assert(bv == ArrowBodyView::Block { stmts: v_stmts(stmts@) });
            }
            let (s2, fl) = fold_stmts(stmts);
            let r = ArrowBody::Block { stmts: s2 };
            proof {
                assert(v_arrow_body(r) == ArrowBodyView::Block { stmts: v_stmts(s2@) });
            }
            (r, fl)
        },
        ArrowBody::Expr { expr } => {
            proof {
                assert(bv == ArrowBodyView::Expr(Box::new(v_expr(*expr))));
            }
            let (e2, fl) = fold_expr(*expr);
            let r = ArrowBody::Expr { expr: Box::new(e2) };
            proof {
                assert(v_arrow_body(r) == ArrowBodyView::Expr(Box::new(v_expr(e2))));
            }
            (r, fl)
        },
    }
}

/// Rewrite of a statement list, elementwise.
pub fn fold_stmts(v: Vec<Stmt>) -> (r: (Vec<Stmt>, bool))
    ensures
        v_stmts(r.0@) == rw_stmts(v_stmts(v@)),
        r.1 == wrap_in_stmts(v_stmts(v@)),
    decreases v_stmts(v@), 1int,
{
    let ghost v0 = v@;
    let ghost orig = v_stmts(v0);
    let mut v = v;
    let popped = v.pop();
    match popped {
        Option::None => {
            proof {
                assert(orig =~= Seq::<StmtView>::empty());
                assert(rw_stmts(orig) =~= orig);
            }
            (v, false)
        },
        Option::Some(last) => {
            proof {
                lemma_v_stmts(v0);
                lemma_v_stmts(v@);
                assert(v_stmts(v@) =~= orig.subrange(0, orig.len() - 1));
                assert(v_stmt(last) == orig[orig.len() - 1]);
            }
            let (l2, f1) = fold_stmt(last);
            let (rest2, f2) = fold_stmts(v);
            let mut out = rest2;
            out.push(l2);
            proof {
                assert(out@.subrange(0, out@.len() - 1) =~= rest2@);
                assert(v_stmts(out@) == v_stmts(rest2@).push(v_stmt(l2)));
                assert(v_stmts(out@) == rw_stmts(orig));
            }
            (out, f1 || f2)
        },
    }
}

/// Rewrite of one statement.
pub fn fold_stmt(s: Stmt) -> (r: (Stmt, bool))
    ensures
        v_stmt(r.0) == rw_stmt(v_stmt(s)),
        r.1 == wrap_in_stmt(v_stmt(s)),
    decreases v_stmt(s), 1int,
{
    let ghost sv = v_stmt(s);
    match s {
        Stmt::Decl(d) => {
            proof {
                assert(sv == StmtView::Decl(v_decl(d)));
            }
            let (d2, fl) = fold_decl(d);
            let r = Stmt::Decl(d2);
            proof {
                assert(v_stmt(r) == StmtView::Decl(v_decl(d2)));
            }
            (r, fl)
        },
        Stmt::Return { arg } => {
            match arg {
                Option::Some(e) => {
                    proof {
                        assert(v_opt_expr(Option::Some(e)) == Option::Some(v_expr(e)));
                        assert(sv == StmtView::Return { arg: Option::Some(v_expr(e)) });
                        assert(rw_opt_expr(Option::Some(v_expr(e)))
                            == Option::Some(rw_expr(v_expr(e))));
                    }
                    let (e2, fl) = fold_expr(e);
                    let r = Stmt::Return { arg: Option::Some(e2) };
                    proof {
                        assert(v_opt_expr(Option::Some(e2)) == Option::Some(v_expr(e2)));
                        assert(v_stmt(r) == StmtView::Return { arg: Option::Some(v_expr(e2)) });
                    }
                    (r, fl)
                },
                Option::None => {
                    let r = Stmt::Return { arg: Option::None };
                    proof {
                        assert(v_opt_expr(Option::None) == Option::None::<ExprView>);
                        assert(sv == StmtView::Return { arg: Option::None });
                        assert(rw_opt_expr(Option::None) == Option::None::<ExprView>);
                        assert(v_stmt(r) == sv);
                    }
                    (r, false)
                },
            }
        },
        Stmt::Expr { expr } => {
            proof {
                assert(sv == StmtView::Expr { expr: v_expr(expr) });
            }
            let (e2, fl) = fold_expr(expr);
            let r = Stmt::Expr { expr: e2 };
            proof {
                assert(v_stmt(r) == StmtView::Expr { expr: v_expr(e2) });
            }
            (r, fl)
        },
        Stmt::If { test, cons, alt } => {
            proof {
                assert(sv == StmtView::If {
                    test: v_expr(test),
                    cons: v_stmts(cons@),
                    alt: v_opt_stmts(alt),
                });
            }
            let (t2, f1) = fold_expr(test);
            let (c2, f2) = fold_stmts(cons);
            match alt {
                Option::Some(a) => {
                    proof {
                        assert(v_opt_stmts(Option::Some(a)) == Option::Some(v_stmts(a@)));
                        assert(crate::semantics::rw_opt_alt(Option::Some(v_stmts(a@)))
                            == Option::Some(rw_stmts(v_stmts(a@))));
                    }
                    let (a2, f3) = fold_stmts(a);
                    let r = Stmt::If { test: t2, cons: c2, alt: Option::Some(a2) };
                    proof {
                        assert(v_opt_stmts(Option::Some(a2)) == Option::Some(v_stmts(a2@)));
                        assert(v_stmt(r) == StmtView::If {
                            test: v_expr(t2),
                            cons: v_stmts(c2@),
                            alt: Option::Some(v_stmts(a2@)),
                        });
                    }
                    (r, f1 || f2 || f3)
                },
                Option::None => {
                    let r = Stmt::If { test: t2, cons: c2, alt: Option::None };
                    proof {
                        assert(v_opt_stmts(Option::None) == Option::None::<Seq<StmtView>>);
                        assert(crate::semantics::rw_opt_alt(Option::None)
                            == Option::None::<Seq<StmtView>>);
                        assert(v_stmt(r) == StmtView::If {
                            test: v_expr(t2),
                            cons: v_stmts(c2@),
                            alt: Option::None,
                        });
                    }
                    (r, f1 || f2)
                },
            }
        },
        Stmt::Other => {
            (Stmt::Other, false)
        },
    }
}

/// Rewrite of one declaration: the special cases of the pass. A
/// qualifying named function declaration becomes a constant binding whose
/// initializer is the wrapped named function expression; variable
/// declarations have their initializers rewritten in place.
pub fn fold_decl(d: Decl) -> (r: (Decl, bool))
    ensures
        v_decl(r.0) == rw_decl(v_decl(d)),
        r.1 == wrap_in_decl(v_decl(d)),
    decreases v_decl(d), 1int,
{
    let ghost dv = v_decl(d);
    match d {
        Decl::Func { name, func } => {
            proof {
                assert(dv == DeclView::Func { name: name@, func: v_func(func) });
            }
            let Function { params, body } = func;
            match body {
                Option::Some(b) => {
                    proof {
                        assert(v_func(Function { params, body: Option::Some(b) }).body
                            == Option::Some(v_stmts(b@)));
                    }
                    let (b2, fl) = fold_stmts(b);
                    if crate::classify::should_transform_function(&b2) {
                        let ident = name.clone();
                        let fexpr = Expr::Func {
                            name: Option::Some(name),
                            func: Function { params, body: Option::Some(b2) },
                        };
                        let ghost fexprv = v_expr(fexpr);
                        proof {
                            assert(v_opt_stmts(Option::Some(b2)) == Option::Some(v_stmts(b2@)));
                            assert(v_func(Function { params, body: Option::Some(b2) })
                                == FuncView {
                                    params: v_params(params@),
                                    body: Option::Some(v_stmts(b2@)),
                                });
                            assert(fexprv == ExprView::Func {
                                name: Option::Some(ident@),
                                func: FuncView {
                                    params: v_params(params@),
                                    body: Option::Some(v_stmts(b2@)),
                                },
                            });
                        }
                        let wrapped = wrap_with_observer(fexpr);
                        let mut decls: Vec<VarDeclarator> = Vec::new();
                        decls.push(VarDeclarator { name: ident, init: Option::Some(wrapped) });
                        let r = Decl::Var(VarDecl { kind: VarDeclKind::Const, decls });
                        proof {
                            assert(decls@ =~= seq![
                                VarDeclarator {
                                    name: ident,
                                    init: Option::Some(wrapped),
                                },
                            ]);
                            assert(v_opt_expr(Option::Some(wrapped))
                                == Option::Some(v_expr(wrapped)));
                            assert(v_declarator(decls@[0]) == DeclaratorView {
                                name: ident@,
                                init: Option::Some(wrap(fexprv)),
                            });
                            assert(decls@.subrange(0, 0) =~= Seq::<VarDeclarator>::empty());
                            assert(v_declarators(decls@.subrange(0, 0))
                                =~= Seq::<DeclaratorView>::empty());
                            assert(v_declarators(decls@) =~= seq![
                                DeclaratorView {
                                    name: ident@,
                                    init: Option::Some(wrap(fexprv)),
                                },
                            ]);
                            assert(v_decl(r) == DeclView::Var {
                                kind: VarDeclKind::Const,
                                decls: v_declarators(decls@),
                            });
                            assert(v_decl(r) == rw_decl(dv));
                        }
                        (r, true)
                    } else {
                        let r = Decl::Func {
                            name,
                            func: Function { params, body: Option::Some(b2) },
                        };
                        proof {
                            assert(v_opt_stmts(Option::Some(b2)) == Option::Some(v_stmts(b2@)));
                            assert(v_decl(r) == DeclView::Func {
                                name: name@,
                                func: FuncView {
                                    params: v_params(params@),
                                    body: Option::Some(v_stmts(b2@)),
                                },
                            });
                        }
                        (r, fl)
                    }
                },
                Option::None => {
                    let r = Decl::Func { name, func: Function { params, body: Option::None } };
                    proof {
                        assert(v_opt_stmts(Option::None) == Option::None::<Seq<StmtView>>);
                        assert(v_decl(r) == dv);
                        assert(rw_decl(dv) == dv);
                    }
                    (r, false)
                },
            }
        },
        Decl::Var(vd) => {
            let VarDecl { kind, decls } = vd;
            proof {
                assert(dv == DeclView::Var { kind, decls: v_declarators(decls@) });
            }
            let (ds2, fl) = fold_declarators(decls);
            let r = Decl::Var(VarDecl { kind, decls: ds2 });
            proof {
                assert(v_decl(r) == DeclView::Var { kind, decls: v_declarators(ds2@) });
            }
            (r, fl)
        },
        Decl::Other => {
            (Decl::Other, false)
        },
    }
}

/// Rewrite of a declarator list, elementwise.
pub fn fold_declarators(v: Vec<VarDeclarator>) -> (r: (Vec<VarDeclarator>, bool))
    ensures
        v_declarators(r.0@) == rw_declarators(v_declarators(v@)),
        r.1 == wrap_in_declarators(v_declarators(v@)),
    decreases v_declarators(v@), 1int,
{
    let ghost v0 = v@;
    let ghost orig = v_declarators(v0);
    let mut v = v;
    let popped = v.pop();
    match popped {
        Option::None => {
            proof {
                assert(orig =~= Seq::<DeclaratorView>::empty());
                assert(rw_declarators(orig) =~= orig);
            }
            (v, false)
        },
        Option::Some(last) => {
            proof {
                lemma_v_declarators(v0);
                lemma_v_declarators(v@);
                assert(v_declarators(v@) =~= orig.subrange(0, orig.len() - 1));
                assert(v_declarator(last) == orig[orig.len() - 1]);
            }
            let (l2, f1) = fold_declarator(last);
            let (rest2, f2) = fold_declarators(v);
            let mut out = rest2;
            out.push(l2);
            proof {
                assert(out@.subrange(0, out@.len() - 1) =~= rest2@);
                assert(v_declarators(out@) == v_declarators(rest2@).push(v_declarator(l2)));
                assert(v_declarators(out@) == rw_declarators(orig));
            }
            (out, f1 || f2)
        },
    }
}

/// Rewrite of one declarator: only the initializer changes.
pub fn fold_declarator(d: VarDeclarator) -> (r: (VarDeclarator, bool))
    ensures
        v_declarator(r.0) == rw_declarator(v_declarator(d)),
        r.1 == wrap_in_declarator(v_declarator(d)),
    decreases v_declarator(d), 1int,
{
    let ghost dv = v_declarator(d);
    let VarDeclarator { name, init } = d;
    match init {
        Option::Some(e) => {
            proof {
                assert(v_opt_expr(Option::Some(e)) == Option::Some(v_expr(e)));
                assert(dv == DeclaratorView { name: name@, init: Option::Some(v_expr(e)) });
                assert(rw_opt_expr(Option::Some(v_expr(e))) == Option::Some(rw_expr(v_expr(e))));
            }
            let (e2, fl) = fold_expr(e);
            let r = VarDeclarator { name, init: Option::Some(e2) };
            proof {
                assert(v_opt_expr(Option::Some(e2)) == Option::Some(v_expr(e2)));
                assert(v_declarator(r) == DeclaratorView {
                    name: name@,
                    init: Option::Some(v_expr(e2)),
                });
            }
            (r, fl)
        },
        Option::None => {
            let r = VarDeclarator { name, init: Option::None };
            proof {
                assert(v_opt_expr(Option::None) == Option::None::<ExprView>);
                assert(dv == DeclaratorView { name: name@, init: Option::None });
                assert(rw_opt_expr(Option::None) == Option::None::<ExprView>);
                assert(v_declarator(r) == dv);
            }
            (r, false)
        },
    }
}

/// Rewrite of one module item: imports and unknown items pass through.
pub fn fold_item(it: ModuleItem) -> (r: (ModuleItem, bool))
    ensures
        v_item(r.0) == rw_item(v_item(it)),
        r.1 == wrap_in_item(v_item(it)),
    decreases v_item(it), 1int,
{
    let ghost iv = v_item(it);
    match it {
        ModuleItem::Import(d) => {
            let r = ModuleItem::Import(d);
            proof {
                assert(v_item(r) == iv);
                assert(rw_item(iv) == iv);
            }
            (r, false)
        },
        ModuleItem::Stmt(s) => {
            proof {
                assert(iv == ItemView::Stmt(v_stmt(s)));
            }
            let (s2, fl) = fold_stmt(s);
            let r = ModuleItem::Stmt(s2);
            proof {
                assert(v_item(r) == ItemView::Stmt(v_stmt(s2)));
            }
            (r, fl)
        },
        ModuleItem::Other => {
            (ModuleItem::Other, false)
        },
    }
}

/// Rewrite of the module item list, elementwise.
pub fn fold_items(v: Vec<ModuleItem>) -> (r: (Vec<ModuleItem>, bool))
    ensures
        v_items(r.0@) == rw_items(v_items(v@)),
        r.1 == wrap_in_items(v_items(v@)),
    decreases v_items(v@), 1int,
{
    let ghost v0 = v@;
    let ghost orig = v_items(v0);
    let mut v = v;
    let popped = v.pop();
    match popped {
        Option::None => {
            proof {
                assert(orig =~= Seq::<ItemView>::empty());
                assert(rw_items(orig) =~= orig);
            }
            (v, false)
        },
        Option::Some(last) => {
            proof {
                lemma_v_items(v0);
                lemma_v_items(v@);
                assert(v_items(v@) =~= orig.subrange(0, orig.len() - 1));
                assert(v_item(last) == orig[orig.len() - 1]);
            }
            let (l2, f1) = fold_item(last);
            let (rest2, f2) = fold_items(v);
            let mut out = rest2;
            out.push(l2);
            proof {
                assert(out@.subrange(0, out@.len() - 1) =~= rest2@);
                assert(v_items(out@) == v_items(rest2@).push(v_item(l2)));
                assert(v_items(out@) == rw_items(orig));
            }
            (out, f1 || f2)
        },
    }
}

/// Whether one item is an import declaration binding the fixed observer
/// identifier.
#[verifier::loop_isolation(false)]
pub fn item_has_observer_import(it: &ModuleItem) -> (r: bool)
    ensures
        r == item_imports_observer(v_item(*it)),
{
    match it {
        ModuleItem::Import(d) => {
            let ghost sv = v_specifiers(d.specifiers@);
            proof {
                assert(sv == Seq::new(
                    d.specifiers@.len(),
                    |j: int| v_specifier(d.specifiers@[j]),
                ));
                assert(sv.len() == d.specifiers@.len());
                assert(v_item(*it) == ItemView::Import { specifiers: sv, src: d.src@ });
            }
            let mut i: usize = 0;
            while i < d.specifiers.len()
                invariant
                    i <= d.specifiers.len(),
                    forall|j: int| 0 <= j < i ==> !specifier_binds_observer(#[trigger] sv[j]),
                decreases d.specifiers.len() - i,
            {
                let hit = match &d.specifiers[i] {
                    ImportSpecifier::Named { local } => {
                        proof {
                            assert(sv[i as int] == SpecifierView::Named { local: local@ });
                        }
                        is_observer_local_name(local.as_str())
                    },
                    ImportSpecifier::Other => {
                        proof {
                            assert(sv[i as int] == SpecifierView::Other);
                        }
                        false
                    },
                };
                if hit {
                    proof {
                        assert(specifier_binds_observer(sv[i as int]));
                        assert((i as int) < sv.len());
                        let spx = v_item(*it)->Import_specifiers;
                        assert(spx == sv);
                        assert(specifier_binds_observer(spx[i as int]));
                        assert(item_imports_observer(v_item(*it)));
                    }
                    return true;
                }
                i += 1;
            }
            false
        },
        ModuleItem::Stmt(s) => false,
        ModuleItem::Other => false,
    }
}

/// Whether the module already binds the observer identifier through an
/// import declaration.
#[verifier::loop_isolation(false)]
pub fn module_has_observer_import(items: &Vec<ModuleItem>) -> (r: bool)
    ensures
        r == has_observer_import(v_items(items@)),
{
    let ghost iv = v_items(items@);
    proof {
        lemma_v_items(items@);
    }
    let mut i: usize = 0;
    while i < items.len()
        invariant
            i <= items.len(),
            forall|j: int| 0 <= j < i ==> !item_imports_observer(#[trigger] iv[j]),
        decreases items.len() - i,
    {
        if item_has_observer_import(&items[i]) {
            proof {
                assert(item_imports_observer(iv[i as int]));
            }
            return true;
        }
        i += 1;
    }
    false
}

/// Builds the observer import declaration for the configured package.
pub fn create_observer_import(package_name: &String) -> (it: ModuleItem)
    ensures
        v_item(it) == observer_import_item(package_name@),
{
    let mut specifiers: Vec<ImportSpecifier> = Vec::new();
    specifiers.push(ImportSpecifier::Named { local: observer_ident_string() });
    let src = package_name.clone();
    let it = ModuleItem::Import(ImportDecl { specifiers, src });
    proof {
        assert(v_specifier(specifiers@[0]) == SpecifierView::Named { local: observer_local() });
        assert(v_specifiers(specifiers@) =~= seq![
            SpecifierView::Named { local: observer_local() },
        ]);
        assert(v_item(it) == ItemView::Import {
            specifiers: v_specifiers(specifiers@),
            src: package_name@,
        });
    }
    it
}

} // verus!
