//! The laws of the pass. `wrap_free` says that a tree holds no wrappable
//! candidate outside already-wrapped calls; the rewrite always produces a
//! wrap-free tree, and a wrap-free tree is a fixed point of the rewrite.
//! From these follow idempotence of the whole transform, respect for
//! manual wraps, and singularity and preservation of the observer import.

use vstd::prelude::*;
use crate::model::{
    ArrowBodyView, DeclView, DeclaratorView, ExprView, FuncView, ItemView, ModuleView,
    SpecifierView, StmtView,
};
use crate::ast::VarDeclKind;
use crate::semantics::{
    count_observer_imports, has_observer_import, is_observer_call, item_imports_observer,
    lemma_count_observer_imports, manual_observer, node_qualifies, observer_import_item,
    observer_local, qualifies, rw_arrow_body, rw_decl, rw_declarator, rw_declarators, rw_expr,
    rw_expr_children, rw_exprs, rw_func, rw_item, rw_items, rw_module, rw_opt_stmts, rw_stmt,
    rw_stmts, wrap, wrap_in_arrow_body, wrap_in_decl, wrap_in_declarator, wrap_in_declarators,
    wrap_in_expr, wrap_in_expr_children, wrap_in_exprs, wrap_in_func, wrap_in_item,
    wrap_in_items, wrap_in_opt_expr, wrap_in_stmt, wrap_in_stmts,
};

verus! {

/// No wrappable candidate is reachable in this expression: an
/// already-wrapped call guards its whole subtree, and otherwise the node
/// itself must not qualify and all children must be free as well.
pub open spec fn wrap_free_expr(e: ExprView) -> bool
    decreases e, 1int,
{
    if is_observer_call(e) {
        true
    } else {
        !node_qualifies(e) && wrap_free_expr_children(e)
    }
}

/// All children of this expression are free of wrappable candidates.
pub open spec fn wrap_free_expr_children(e: ExprView) -> bool
    decreases e, 0int,
{
    match e {
        ExprView::Ident { name } => true,
        ExprView::Call { callee, args } => wrap_free_expr(*callee) && wrap_free_exprs(args),
        ExprView::Func { name, func } => wrap_free_func(func),
        ExprView::Arrow { params, body } => wrap_free_arrow_body(body),
        ExprView::Paren { inner } => wrap_free_expr(*inner),
        ExprView::JsxElement { children } => wrap_free_exprs(children),
        ExprView::JsxFragment { children } => wrap_free_exprs(children),
        ExprView::Other { children } => wrap_free_exprs(children),
    }
}

/// Every element of the list is free of wrappable candidates.
pub open spec fn wrap_free_exprs(s: Seq<ExprView>) -> bool
    decreases s, 1int,
{
    if s.len() == 0 {
        true
    } else {
        wrap_free_exprs(s.subrange(0, s.len() - 1)) && wrap_free_expr(s[s.len() - 1])
    }
}

/// A function's body, if any, is free of wrappable candidates.
pub open spec fn wrap_free_func(f: FuncView) -> bool
    decreases f, 1int,
{
    match f.body {
        Option::Some(b) => wrap_free_stmts(b),
        Option::None => true,
    }
}

/// An arrow body is free of wrappable candidates.
pub open spec fn wrap_free_arrow_body(b: ArrowBodyView) -> bool
    decreases b, 1int,
{
    match b {
        ArrowBodyView::Block { stmts } => wrap_free_stmts(stmts),
        ArrowBodyView::Expr(e) => wrap_free_expr(*e),
    }
}

/// Every statement of the list is free of wrappable candidates.
pub open spec fn wrap_free_stmts(s: Seq<StmtView>) -> bool
    decreases s, 1int,
{
    if s.len() == 0 {
        true
    } else {
        wrap_free_stmts(s.subrange(0, s.len() - 1)) && wrap_free_stmt(s[s.len() - 1])
    }
}

/// A statement is free of wrappable candidates.
pub open spec fn wrap_free_stmt(s: StmtView) -> bool
    decreases s, 1int,
{
    match s {
        StmtView::Decl(d) => wrap_free_decl(d),
        StmtView::Return { arg } => wrap_free_opt_expr(arg),
        StmtView::Expr { expr } => wrap_free_expr(expr),
        StmtView::If { test, cons, alt } => wrap_free_expr(test) && wrap_free_stmts(cons)
            && wrap_free_opt_alt(alt),
        StmtView::Other => true,
    }
}

/// An optional expression is free of wrappable candidates.
pub open spec fn wrap_free_opt_expr(o: Option<ExprView>) -> bool
    decreases o, 1int,
{
    match o {
        Option::Some(e) => wrap_free_expr(e),
        Option::None => true,
    }
}

/// An optional alternate block is free of wrappable candidates.
pub open spec fn wrap_free_opt_alt(o: Option<Seq<StmtView>>) -> bool
    decreases o, 1int,
{
    match o {
        Option::Some(b) => wrap_free_stmts(b),
        Option::None => true,
    }
}

/// A declaration is free of wrappable candidates: a declared function must
/// not qualify, and everything below must be free.
pub open spec fn wrap_free_decl(d: DeclView) -> bool
    decreases d, 1int,
{
    match d {
        DeclView::Func { name, func } => match func.body {
            Option::Some(b) => !qualifies(b) && wrap_free_stmts(b),
            Option::None => true,
        },
        DeclView::Var { kind, decls } => wrap_free_declarators(decls),
        DeclView::Other => true,
    }
}

/// Every declarator of the list is free of wrappable candidates.
pub open spec fn wrap_free_declarators(s: Seq<DeclaratorView>) -> bool
    decreases s, 1int,
{
    if s.len() == 0 {
        true
    } else {
        wrap_free_declarators(s.subrange(0, s.len() - 1))
            && wrap_free_declarator(s[s.len() - 1])
    }
}

/// One declarator is free of wrappable candidates.
pub open spec fn wrap_free_declarator(d: DeclaratorView) -> bool
    decreases d, 1int,
{
    wrap_free_opt_expr(d.init)
}

/// One module item is free of wrappable candidates.
pub open spec fn wrap_free_item(it: ItemView) -> bool
    decreases it, 1int,
{
    match it {
        ItemView::Import { specifiers, src } => true,
        ItemView::Stmt(s) => wrap_free_stmt(s),
        ItemView::Other => true,
    }
}

/// Every item of the list is free of wrappable candidates.
pub open spec fn wrap_free_items(s: Seq<ItemView>) -> bool
    decreases s, 1int,
{
    if s.len() == 0 {
        true
    } else {
        wrap_free_items(s.subrange(0, s.len() - 1)) && wrap_free_item(s[s.len() - 1])
    }
}

/// The rewrite of an expression is wrap-free.
pub proof fn lemma_rw_expr_wrap_free(e: ExprView)
    ensures
        wrap_free_expr(rw_expr(e)),
    decreases e, 1int,
{
    if !is_observer_call(e) {
        lemma_rw_expr_children_wrap_free(e);
    }
}

/// The rewrite of an expression's children leaves all children wrap-free.
pub proof fn lemma_rw_expr_children_wrap_free(e: ExprView)
    ensures
        wrap_free_expr_children(rw_expr_children(e)),
    decreases e, 0int,
{
    match e {
        ExprView::Ident { name } => {},
        ExprView::Call { callee, args } => {
            lemma_rw_expr_wrap_free(*callee);
            lemma_rw_exprs_wrap_free(args);
        },
        ExprView::Func { name, func } => {
            lemma_rw_func_wrap_free(func);
        },
        ExprView::Arrow { params, body } => {
            lemma_rw_arrow_body_wrap_free(body);
        },
        ExprView::Paren { inner } => {
            lemma_rw_expr_wrap_free(*inner);
        },
        ExprView::JsxElement { children } => {
            lemma_rw_exprs_wrap_free(children);
        },
        ExprView::JsxFragment { children } => {
            lemma_rw_exprs_wrap_free(children);
        },
        ExprView::Other { children } => {
            lemma_rw_exprs_wrap_free(children);
        },
    }
}

/// The rewrite of an expression list is elementwise wrap-free.
pub proof fn lemma_rw_exprs_wrap_free(s: Seq<ExprView>)
    ensures
        wrap_free_exprs(rw_exprs(s)),
    decreases s, 1int,
{
    if s.len() > 0 {
        let rest = s.subrange(0, s.len() - 1);
        lemma_rw_exprs_wrap_free(rest);
        lemma_rw_expr_wrap_free(s[s.len() - 1]);
        let r = rw_exprs(s);
        assert(r.subrange(0, r.len() - 1) =~= rw_exprs(rest));
    }
}

/// The rewrite of a function is wrap-free.
pub proof fn lemma_rw_func_wrap_free(f: FuncView)
    ensures
        wrap_free_func(rw_func(f)),
    decreases f, 1int,
{
    match f.body {
        Option::Some(b) => {
            lemma_rw_stmts_wrap_free(b);
        },
        Option::None => {},
    }
}

/// The rewrite of an arrow body is wrap-free.
pub proof fn lemma_rw_arrow_body_wrap_free(b: ArrowBodyView)
    ensures
        wrap_free_arrow_body(rw_arrow_body(b)),
    decreases b, 1int,
{
    match b {
        ArrowBodyView::Block { stmts } => {
            lemma_rw_stmts_wrap_free(stmts);
        },
        ArrowBodyView::Expr(e) => {
            lemma_rw_expr_wrap_free(*e);
        },
    }
}

/// The rewrite of a statement list is elementwise wrap-free.
pub proof fn lemma_rw_stmts_wrap_free(s: Seq<StmtView>)
    ensures
        wrap_free_stmts(rw_stmts(s)),
    decreases s, 1int,
{
    if s.len() > 0 {
        let rest = s.subrange(0, s.len() - 1);
        lemma_rw_stmts_wrap_free(rest);
        lemma_rw_stmt_wrap_free(s[s.len() - 1]);
        let r = rw_stmts(s);
        assert(r.subrange(0, r.len() - 1) =~= rw_stmts(rest));
    }
}

/// The rewrite of a statement is wrap-free.
pub proof fn lemma_rw_stmt_wrap_free(s: StmtView)
    ensures
        wrap_free_stmt(rw_stmt(s)),
    decreases s, 1int,
{
    match s {
        StmtView::Decl(d) => {
            lemma_rw_decl_wrap_free(d);
        },
        StmtView::Return { arg } => {
            match arg {
                Option::Some(e) => {
                    lemma_rw_expr_wrap_free(e);
                },
                Option::None => {},
            }
        },
        StmtView::Expr { expr } => {
            lemma_rw_expr_wrap_free(expr);
        },
        StmtView::If { test, cons, alt } => {
            lemma_rw_expr_wrap_free(test);
            lemma_rw_stmts_wrap_free(cons);
            match alt {
                Option::Some(b) => {
                    lemma_rw_stmts_wrap_free(b);
                },
                Option::None => {},
            }
        },
        StmtView::Other => {},
    }
}

/// The rewrite of a declaration is wrap-free.
pub proof fn lemma_rw_decl_wrap_free(d: DeclView)
    ensures
        wrap_free_decl(rw_decl(d)),
    decreases d, 1int,
{
    match d {
        DeclView::Func { name, func } => {
            match func.body {
                Option::Some(b) => {
                    lemma_rw_stmts_wrap_free(b);
                    let b2 = rw_stmts(b);
                    if qualifies(b2) {
                        let w = wrap(
                            ExprView::Func {
                                name: Option::Some(name),
                                func: FuncView { params: func.params, body: Option::Some(b2) },
                            },
                        );
                        assert(is_observer_call(w));
                        assert(wrap_free_expr(w));
                        assert(wrap_free_opt_expr(Option::Some(w)));
                        let dd = DeclaratorView { name: name, init: Option::Some(w) };
                        assert(wrap_free_declarator(dd));
                        let ds = seq![dd];
                        assert(ds.subrange(0, 0) =~= Seq::<DeclaratorView>::empty());
                        assert(wrap_free_declarators(ds.subrange(0, 0)));
                        assert(ds[0] == dd);
                        assert(wrap_free_declarators(ds));
                        assert(rw_decl(d) == DeclView::Var { kind: VarDeclKind::Const, decls: ds });
                    }
                },
                Option::None => {},
            }
        },
        DeclView::Var { kind, decls } => {
            lemma_rw_declarators_wrap_free(decls);
        },
        DeclView::Other => {},
    }
}

/// The rewrite of one declarator is wrap-free.
pub proof fn lemma_rw_declarator_wrap_free(d: DeclaratorView)
    ensures
        wrap_free_declarator(rw_declarator(d)),
    decreases d, 1int,
{
    match d.init {
        Option::Some(e) => {
            lemma_rw_expr_wrap_free(e);
            assert(rw_declarator(d) == DeclaratorView {
                name: d.name,
                init: Option::Some(rw_expr(e)),
            });
            assert(wrap_free_opt_expr(Option::Some(rw_expr(e))));
        },
        Option::None => {
            assert(rw_declarator(d) == d);
            assert(wrap_free_opt_expr(d.init));
        },
    }
}

/// The rewrite of a declarator list is elementwise wrap-free.
pub proof fn lemma_rw_declarators_wrap_free(s: Seq<DeclaratorView>)
    ensures
        wrap_free_declarators(rw_declarators(s)),
    decreases s, 1int,
{
    if s.len() > 0 {
        let rest = s.subrange(0, s.len() - 1);
        lemma_rw_declarators_wrap_free(rest);
        lemma_rw_declarator_wrap_free(s[s.len() - 1]);
        let r = rw_declarators(s);
        assert(r.subrange(0, r.len() - 1) =~= rw_declarators(rest));
    }
}

/// The rewrite of one module item is wrap-free.
pub proof fn lemma_rw_item_wrap_free(it: ItemView)
    ensures
        wrap_free_item(rw_item(it)),
    decreases it, 1int,
{
    match it {
        ItemView::Stmt(s) => {
            lemma_rw_stmt_wrap_free(s);
        },
        _ => {},
    }
}

/// The rewrite of a module item list is elementwise wrap-free.
pub proof fn lemma_rw_items_wrap_free(s: Seq<ItemView>)
    ensures
        wrap_free_items(rw_items(s)),
    decreases s, 1int,
{
    if s.len() > 0 {
        let rest = s.subrange(0, s.len() - 1);
        lemma_rw_items_wrap_free(rest);
        lemma_rw_item_wrap_free(s[s.len() - 1]);
        let r = rw_items(s);
        assert(r.subrange(0, r.len() - 1) =~= rw_items(rest));
    }
}

/// A wrap-free expression is a fixed point of the rewrite, and rewriting
/// it wraps nothing.
pub proof fn lemma_wrap_free_expr_fixed(e: ExprView)
    requires
        wrap_free_expr(e),
    ensures
        rw_expr(e) == e,
        !wrap_in_expr(e),
    decreases e, 1int,
{
    if !is_observer_call(e) {
        lemma_wrap_free_expr_children_fixed(e);
    }
}

/// A wrap-free expression's children are fixed under the child rewrite.
pub proof fn lemma_wrap_free_expr_children_fixed(e: ExprView)
    requires
        wrap_free_expr_children(e),
    ensures
        rw_expr_children(e) == e,
        !wrap_in_expr_children(e),
    decreases e, 0int,
{
    match e {
        ExprView::Ident { name } => {},
        ExprView::Call { callee, args } => {
            lemma_wrap_free_expr_fixed(*callee);
            lemma_wrap_free_exprs_fixed(args);
        },
        ExprView::Func { name, func } => {
            lemma_wrap_free_func_fixed(func);
        },
        ExprView::Arrow { params, body } => {
            lemma_wrap_free_arrow_body_fixed(body);
        },
        ExprView::Paren { inner } => {
            lemma_wrap_free_expr_fixed(*inner);
        },
        ExprView::JsxElement { children } => {
            lemma_wrap_free_exprs_fixed(children);
        },
        ExprView::JsxFragment { children } => {
            lemma_wrap_free_exprs_fixed(children);
        },
        ExprView::Other { children } => {
            lemma_wrap_free_exprs_fixed(children);
        },
    }
}

/// A wrap-free expression list is fixed under the rewrite.
pub proof fn lemma_wrap_free_exprs_fixed(s: Seq<ExprView>)
    requires
        wrap_free_exprs(s),
    ensures
        rw_exprs(s) == s,
        !wrap_in_exprs(s),
    decreases s, 1int,
{
    if s.len() > 0 {
        let rest = s.subrange(0, s.len() - 1);
        lemma_wrap_free_exprs_fixed(rest);
        lemma_wrap_free_expr_fixed(s[s.len() - 1]);
        assert(rw_exprs(s) =~= s);
    }
}

/// A wrap-free function is fixed under the rewrite.
pub proof fn lemma_wrap_free_func_fixed(f: FuncView)
    requires
        wrap_free_func(f),
    ensures
        rw_func(f) == f,
        !wrap_in_func(f),
    decreases f, 1int,
{
    match f.body {
        Option::Some(b) => {
            lemma_wrap_free_stmts_fixed(b);
        },
        Option::None => {},
    }
}

/// A wrap-free arrow body is fixed under the rewrite.
pub proof fn lemma_wrap_free_arrow_body_fixed(b: ArrowBodyView)
    requires
        wrap_free_arrow_body(b),
    ensures
        rw_arrow_body(b) == b,
        !wrap_in_arrow_body(b),
    decreases b, 1int,
{
    match b {
        ArrowBodyView::Block { stmts } => {
            lemma_wrap_free_stmts_fixed(stmts);
        },
        ArrowBodyView::Expr(e) => {
            lemma_wrap_free_expr_fixed(*e);
        },
    }
}

/// A wrap-free statement list is fixed under the rewrite.
pub proof fn lemma_wrap_free_stmts_fixed(s: Seq<StmtView>)
    requires
        wrap_free_stmts(s),
    ensures
        rw_stmts(s) == s,
        !wrap_in_stmts(s),
    decreases s, 1int,
{
    if s.len() > 0 {
        let rest = s.subrange(0, s.len() - 1);
        lemma_wrap_free_stmts_fixed(rest);
        lemma_wrap_free_stmt_fixed(s[s.len() - 1]);
        assert(rw_stmts(s) =~= s);
    }
}

/// A wrap-free statement is fixed under the rewrite.
pub proof fn lemma_wrap_free_stmt_fixed(s: StmtView)
    requires
        wrap_free_stmt(s),
    ensures
        rw_stmt(s) == s,
        !wrap_in_stmt(s),
    decreases s, 1int,
{
    match s {
        StmtView::Decl(d) => {
            lemma_wrap_free_decl_fixed(d);
        },
        StmtView::Return { arg } => {
            match arg {
                Option::Some(e) => {
                    lemma_wrap_free_expr_fixed(e);
                },
                Option::None => {},
            }
        },
        StmtView::Expr { expr } => {
            lemma_wrap_free_expr_fixed(expr);
        },
        StmtView::If { test, cons, alt } => {
            lemma_wrap_free_expr_fixed(test);
            lemma_wrap_free_stmts_fixed(cons);
            match alt {
                Option::Some(b) => {
                    lemma_wrap_free_stmts_fixed(b);
                },
                Option::None => {},
            }
        },
        StmtView::Other => {},
    }
}

/// A wrap-free declaration is fixed under the rewrite.
pub proof fn lemma_wrap_free_decl_fixed(d: DeclView)
    requires
        wrap_free_decl(d),
    ensures
        rw_decl(d) == d,
        !wrap_in_decl(d),
    decreases d, 1int,
{
    match d {
        DeclView::Func { name, func } => {
            match func.body {
                Option::Some(b) => {
                    lemma_wrap_free_stmts_fixed(b);
                },
                Option::None => {},
            }
        },
        DeclView::Var { kind, decls } => {
            lemma_wrap_free_declarators_fixed(decls);
        },
        DeclView::Other => {},
    }
}

/// A wrap-free declarator is fixed under the rewrite.
pub proof fn lemma_wrap_free_declarator_fixed(d: DeclaratorView)
    requires
        wrap_free_declarator(d),
    ensures
        rw_declarator(d) == d,
        !wrap_in_declarator(d),
    decreases d, 1int,
{
    assert(wrap_free_opt_expr(d.init));
    match d.init {
        Option::Some(e) => {
            assert(wrap_free_expr(e));
            lemma_wrap_free_expr_fixed(e);
            assert(rw_declarator(d) == DeclaratorView { name: d.name, init: Option::Some(rw_expr(e)) });
            assert(!wrap_in_opt_expr(d.init));
        },
        Option::None => {
            assert(rw_declarator(d) == d);
            assert(!wrap_in_opt_expr(d.init));
        },
    }
}

/// A wrap-free declarator list is fixed under the rewrite.
pub proof fn lemma_wrap_free_declarators_fixed(s: Seq<DeclaratorView>)
    requires
        wrap_free_declarators(s),
    ensures
        rw_declarators(s) == s,
        !wrap_in_declarators(s),
    decreases s, 1int,
{
    if s.len() > 0 {
        let rest = s.subrange(0, s.len() - 1);
        lemma_wrap_free_declarators_fixed(rest);
        lemma_wrap_free_declarator_fixed(s[s.len() - 1]);
        assert(rw_declarators(s) =~= s);
    }
}

/// A wrap-free module item is fixed under the rewrite.
pub proof fn lemma_wrap_free_item_fixed(it: ItemView)
    requires
        wrap_free_item(it),
    ensures
        rw_item(it) == it,
        !wrap_in_item(it),
    decreases it, 1int,
{
    match it {
        ItemView::Stmt(s) => {
            lemma_wrap_free_stmt_fixed(s);
        },
        _ => {},
    }
}

/// A wrap-free module item list is fixed under the rewrite.
pub proof fn lemma_wrap_free_items_fixed(s: Seq<ItemView>)
    requires
        wrap_free_items(s),
    ensures
        rw_items(s) == s,
        !wrap_in_items(s),
    decreases s, 1int,
{
    if s.len() > 0 {
        let rest = s.subrange(0, s.len() - 1);
        lemma_wrap_free_items_fixed(rest);
        lemma_wrap_free_item_fixed(s[s.len() - 1]);
        assert(rw_items(s) =~= s);
    }
}

/// A list is wrap-free exactly when each element is.
pub proof fn lemma_wrap_free_items_elementwise(s: Seq<ItemView>)
    ensures
        wrap_free_items(s) <==> forall|i: int|
            0 <= i < s.len() ==> wrap_free_item(#[trigger] s[i]),
    decreases s.len(),
{
    if s.len() > 0 {
        let rest = s.subrange(0, s.len() - 1);
        lemma_wrap_free_items_elementwise(rest);
        assert(forall|i: int| 0 <= i < rest.len() ==> rest[i] == s[i]);
    }
}

/// Rewriting a module item neither creates nor removes an observer import.
pub proof fn lemma_rw_item_preserves_import(it: ItemView)
    ensures
        item_imports_observer(rw_item(it)) == item_imports_observer(it),
{
}

/// Rewriting the item list preserves the number of observer imports.
pub proof fn lemma_rw_items_preserve_imports(s: Seq<ItemView>)
    ensures
        count_observer_imports(rw_items(s)) == count_observer_imports(s),
    decreases s.len(),
{
    if s.len() > 0 {
        let rest = s.subrange(0, s.len() - 1);
        lemma_rw_items_preserve_imports(rest);
        lemma_rw_item_preserves_import(s[s.len() - 1]);
        let r = rw_items(s);
        assert(r.subrange(0, r.len() - 1) =~= rw_items(rest));
    }
}

/// Prepending one item adds its own contribution to the import count.
pub proof fn lemma_count_prepend(x: ItemView, s: Seq<ItemView>)
    ensures
        count_observer_imports(seq![x] + s) == count_observer_imports(s) + (
        if item_imports_observer(x) {
            1nat
        } else {
            0nat
        }),
    decreases s.len(),
{
    let t = seq![x] + s;
    if s.len() == 0 {
        assert(t.subrange(0, 0) =~= Seq::<ItemView>::empty());
        assert(count_observer_imports(t.subrange(0, 0)) == 0);
        assert(t[0] == x);
    } else {
        let rest = s.subrange(0, s.len() - 1);
        lemma_count_prepend(x, rest);
        assert(t.subrange(0, t.len() - 1) =~= seq![x] + rest);
        assert(t[t.len() - 1] == s[s.len() - 1]);
    }
}

/// Rewriting the item list keeps an observer import present or absent.
pub proof fn lemma_rw_items_preserve_has_import(s: Seq<ItemView>)
    ensures
        has_observer_import(rw_items(s)) == has_observer_import(s),
{
    lemma_rw_items_preserve_imports(s);
    lemma_count_observer_imports(s);
    lemma_count_observer_imports(rw_items(s));
}

/// Idempotence of the transform: running the pass a second time changes
/// nothing, because everything wrappable is already guarded by the fixed
/// observer identifier.
pub proof fn lemma_transform_idempotent(m: ModuleView, pkg: Seq<char>)
    ensures
        rw_module(rw_module(m, pkg), pkg) == rw_module(m, pkg),
{
    let items1 = rw_items(m.body);
    let out = rw_module(m, pkg);
    lemma_rw_items_wrap_free(m.body);
    lemma_wrap_free_items_elementwise(items1);
    if wrap_in_items(m.body) && !has_observer_import(items1) {
        let imp = observer_import_item(pkg);
        assert(wrap_free_item(imp));
        assert(out.body == seq![imp] + items1);
        assert(forall|i: int| 0 <= i < out.body.len() ==> wrap_free_item(#[trigger] out.body[i]))
            by {
            assert(out.body[0] == imp);
            assert(forall|i: int|
                1 <= i < out.body.len() ==> #[trigger] out.body[i] == items1[i - 1]);
        }
        lemma_wrap_free_items_elementwise(out.body);
        lemma_wrap_free_items_fixed(out.body);
    } else {
        assert(out.body == items1);
        lemma_wrap_free_items_fixed(out.body);
    }
}

/// A manual wrap is respected: an expression that is already a call of
/// `observer` or of the fixed binding is returned unchanged, its whole
/// subtree untouched, and it causes no wrap of its own.
pub proof fn lemma_manual_wrap_respected(e: ExprView)
    requires
        is_observer_call(e),
    ensures
        rw_expr(e) == e,
        !wrap_in_expr(e),
{
}

/// Import singularity: when a wrap occurs in a module that held at most
/// one observer import, the output holds exactly one.
pub proof fn lemma_import_singularity(m: ModuleView, pkg: Seq<char>)
    requires
        wrap_in_items(m.body),
        count_observer_imports(m.body) <= 1,
    ensures
        count_observer_imports(rw_module(m, pkg).body) == 1,
{
    let items1 = rw_items(m.body);
    lemma_rw_items_preserve_imports(m.body);
    lemma_count_observer_imports(m.body);
    lemma_count_observer_imports(items1);
    if !has_observer_import(items1) {
        let imp = observer_import_item(pkg);
        assert(imp->Import_specifiers[0] == SpecifierView::Named { local: observer_local() });
        assert(item_imports_observer(imp));
        lemma_count_prepend(imp, items1);
    }
}

/// Import preservation: when the module already binds the observer
/// identifier through an import, none is added; the rewritten items are
/// the whole output and the import count is unchanged.
pub proof fn lemma_import_preservation(m: ModuleView, pkg: Seq<char>)
    requires
        has_observer_import(m.body),
    ensures
        rw_module(m, pkg).body == rw_items(m.body),
        count_observer_imports(rw_module(m, pkg).body) == count_observer_imports(m.body),
{
    lemma_rw_items_preserve_has_import(m.body);
    lemma_rw_items_preserve_imports(m.body);
}

/// A module with no wrappable candidate is returned wholly unchanged: in
/// particular no import is injected. This is the general form of the rule
/// that nothing is wrapped without qualification.
pub proof fn lemma_unqualified_module_unchanged(m: ModuleView, pkg: Seq<char>)
    requires
        wrap_free_items(m.body),
    ensures
        rw_module(m, pkg) == m,
{
    lemma_wrap_free_items_fixed(m.body);
}

/// Nested candidates are independent: inside an outer function that only
/// returns the result of handing a qualifying arrow to some callee, the
/// arrow alone is wrapped; the outer function and the callee stay as they
/// are, and the outer function is not wrapped.
pub proof fn lemma_nested_candidate_independence(
    outer_name: Option<Seq<char>>,
    outer_params: Seq<Seq<char>>,
    cal: ExprView,
    inner_params: Seq<Seq<char>>,
    inner_body: Seq<StmtView>,
)
    requires
        wrap_free_expr(cal),
        !(cal matches ExprView::Ident { name }
            && (name == observer_local() || name == manual_observer())),
        wrap_free_stmts(inner_body),
        qualifies(inner_body),
    ensures
        ({
            let inner = ExprView::Arrow {
                params: inner_params,
                body: ArrowBodyView::Block { stmts: inner_body },
            };
            let call = ExprView::Call { callee: Box::new(cal), args: seq![inner] };
            let ret = StmtView::Return { arg: Option::Some(call) };
            let outer = ExprView::Func {
                name: outer_name,
                func: FuncView { params: outer_params, body: Option::Some(seq![ret]) },
            };
            let wrapped_call = ExprView::Call { callee: Box::new(cal), args: seq![wrap(inner)] };
            rw_expr(outer) == ExprView::Func {
                name: outer_name,
                func: FuncView {
                    params: outer_params,
                    body: Option::Some(
                        seq![StmtView::Return { arg: Option::Some(wrapped_call) }],
                    ),
                },
            }
        }),
{
    let inner = ExprView::Arrow {
        params: inner_params,
        body: ArrowBodyView::Block { stmts: inner_body },
    };
    let call = ExprView::Call { callee: Box::new(cal), args: seq![inner] };
    let ret = StmtView::Return { arg: Option::Some(call) };
    let outer = ExprView::Func {
        name: outer_name,
        func: FuncView { params: outer_params, body: Option::Some(seq![ret]) },
    };

    // The inner arrow is wrapped: its block body is already rewritten to
    // itself, and it qualifies.
    lemma_wrap_free_stmts_fixed(inner_body);
    assert(rw_arrow_body(ArrowBodyView::Block { stmts: inner_body })
        == ArrowBodyView::Block { stmts: inner_body });
    assert(!is_observer_call(inner));
    assert(rw_expr_children(inner) == inner);
    assert(node_qualifies(inner));
    assert(rw_expr(inner) == wrap(inner));

    // The call around it keeps its callee and gains the wrapped argument.
    assert(!is_observer_call(call));
    lemma_wrap_free_expr_fixed(cal);
    assert(seq![inner].subrange(0, 0) =~= Seq::<ExprView>::empty());
    assert(rw_exprs(seq![inner].subrange(0, 0)) =~= Seq::<ExprView>::empty());
    assert(seq![inner][0] == inner);
    assert(rw_exprs(seq![inner]) =~= seq![wrap(inner)]);
    let wrapped_call = ExprView::Call { callee: Box::new(cal), args: seq![wrap(inner)] };
    assert(rw_expr_children(call) == wrapped_call);
    assert(!node_qualifies(wrapped_call));
    assert(rw_expr(call) == wrapped_call);

    // The outer function is rewritten statement by statement and does not
    // itself qualify: its only top-level statement is a return of a call.
    let ret2 = StmtView::Return { arg: Option::Some(wrapped_call) };
    assert(rw_stmt(ret) == ret2);
    assert(seq![ret].subrange(0, 0) =~= Seq::<StmtView>::empty());
    assert(rw_stmts(seq![ret].subrange(0, 0)) =~= Seq::<StmtView>::empty());
    assert(seq![ret][0] == ret);
    assert(rw_stmts(seq![ret]) =~= seq![ret2]);
    let body2 = seq![ret2];
    assert(!is_observer_call(outer));
    assert(rw_opt_stmts(Option::Some(seq![ret])) == Option::Some(rw_stmts(seq![ret])));
    assert(rw_func(FuncView { params: outer_params, body: Option::Some(seq![ret]) })
        == FuncView { params: outer_params, body: Option::Some(body2) });
    let c = rw_expr_children(outer);
    assert(c == ExprView::Func {
        name: outer_name,
        func: FuncView { params: outer_params, body: Option::Some(body2) },
    });
    assert(!crate::semantics::body_binds_hook(body2)) by {
        assert(forall|i: int|
            0 <= i < body2.len() ==> !crate::semantics::stmt_binds_hook(#[trigger] body2[i]));
    }
    assert(!node_qualifies(c));
    assert(rw_expr(outer) == c);
}

/// The shallow scan stops at nested blocks: a conditional statement never
/// counts as binding a store hook and never counts as a UI return,
/// whatever its branches hold, so a hook call placed inside a nested `if`
/// cannot qualify the enclosing function.
pub proof fn lemma_shallow_scan_ignores_nested_blocks(
    test: ExprView,
    cons: Seq<StmtView>,
    alt: Option<Seq<StmtView>>,
)
    ensures
        !crate::semantics::stmt_binds_hook(StmtView::If { test, cons, alt }),
        !crate::semantics::stmt_returns_ui(StmtView::If { test, cons, alt }),
{
}

} // verus!

