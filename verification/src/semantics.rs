//! What the pass does, as functions over the model: the classifier that
//! decides whether a function body qualifies for wrapping, the bottom-up
//! rewrite of every node, the flag that records whether any wrap occurred,
//! and the end-of-module import injection.

use vstd::prelude::*;
use crate::model::{
    ArrowBodyView, DeclView, DeclaratorView, ExprView, FuncView, ItemView, ModuleView,
    SpecifierView, StmtView,
};
use crate::ast::VarDeclKind;

verus! {

/// The local name of the observer binding the pass introduces.
pub open spec fn observer_local() -> Seq<char> {
    seq!['_', '_', 'o', 'b', 's', 'e', 'r', 'v', 'e', 'r']
}

/// The identifier name that marks a manual, hand-written wrap.
pub open spec fn manual_observer() -> Seq<char> {
    seq!['o', 'b', 's', 'e', 'r', 'v', 'e', 'r']
}

/// A store-hook name: starts with `use` and ends with `Store`.
pub open spec fn is_hook_name(name: Seq<char>) -> bool {
    &&& name.len() >= 3
    &&& name[0] == 'u'
    &&& name[1] == 's'
    &&& name[2] == 'e'
    &&& name.len() >= 5
    &&& name[name.len() - 5] == 'S'
    &&& name[name.len() - 4] == 't'
    &&& name[name.len() - 3] == 'o'
    &&& name[name.len() - 2] == 'r'
    &&& name[name.len() - 1] == 'e'
}

/// A direct call of a store hook: the callee is an identifier whose name
/// matches the hook pattern. Any other shape is not a hook call.
pub open spec fn is_hook_call(e: ExprView) -> bool {
    match e {
        ExprView::Call { callee, args } => match *callee {
            ExprView::Ident { name } => is_hook_name(name),
            _ => false,
        },
        _ => false,
    }
}

/// One declarator binds a store hook: its initializer is a direct hook call.
pub open spec fn declarator_binds_hook(d: DeclaratorView) -> bool {
    match d.init {
        Option::Some(e) => is_hook_call(e),
        Option::None => false,
    }
}

/// One statement binds a store hook: it is a variable declaration with at
/// least one hook-binding declarator. The scan is shallow by design: it
/// never descends into nested blocks.
pub open spec fn stmt_binds_hook(s: StmtView) -> bool {
    match s {
        StmtView::Decl(DeclView::Var { kind, decls }) => exists|i: int|
            0 <= i < decls.len() && declarator_binds_hook(#[trigger] decls[i]),
        _ => false,
    }
}

/// A body uses a store hook: some statement of its top-level list binds one.
pub open spec fn body_binds_hook(b: Seq<StmtView>) -> bool {
    exists|i: int| 0 <= i < b.len() && stmt_binds_hook(#[trigger] b[i])
}

/// A UI literal: an element or fragment, under any number of parentheses.
pub open spec fn is_ui_literal(e: ExprView) -> bool
    decreases e,
{
    match e {
        ExprView::JsxElement { children } => true,
        ExprView::JsxFragment { children } => true,
        ExprView::Paren { inner } => is_ui_literal(*inner),
        _ => false,
    }
}

/// One statement returns a UI literal.
pub open spec fn stmt_returns_ui(s: StmtView) -> bool {
    match s {
        StmtView::Return { arg: Option::Some(e) } => is_ui_literal(e),
        _ => false,
    }
}

/// A body produces UI: some statement of its top-level list returns a UI
/// literal. Returns nested inside conditionals are not inspected.
pub open spec fn body_returns_ui(b: Seq<StmtView>) -> bool {
    exists|i: int| 0 <= i < b.len() && stmt_returns_ui(#[trigger] b[i])
}

/// The classifier: a body qualifies when it both uses a store hook and
/// returns a UI literal at its top level.
pub open spec fn qualifies(b: Seq<StmtView>) -> bool {
    body_binds_hook(b) && body_returns_ui(b)
}

/// An expression node that is a candidate for wrapping: a function
/// expression with a block body that qualifies, or an arrow expression
/// with a block body that qualifies. Arrows with a bare expression body
/// and functions without a body are never candidates.
pub open spec fn node_qualifies(e: ExprView) -> bool {
    match e {
        ExprView::Func { name, func } => match func.body {
            Option::Some(b) => qualifies(b),
            Option::None => false,
        },
        ExprView::Arrow { params, body } => match body {
            ArrowBodyView::Block { stmts } => qualifies(stmts),
            ArrowBodyView::Expr(_) => false,
        },
        _ => false,
    }
}

/// An expression already wrapped by hand or by this pass: a call whose
/// callee is an identifier named `observer` or the fixed local binding.
pub open spec fn is_observer_call(e: ExprView) -> bool {
    match e {
        ExprView::Call { callee, args } => match *callee {
            ExprView::Ident { name } => name == observer_local() || name == manual_observer(),
            _ => false,
        },
        _ => false,
    }
}

/// The wrapped form: a call of the fixed observer binding whose sole
/// argument is the original expression.
pub open spec fn wrap(e: ExprView) -> ExprView {
    ExprView::Call {
        callee: Box::new(ExprView::Ident { name: observer_local() }),
        args: seq![e],
    }
}

/// Rewrite of an expression: an already-wrapped call is returned unchanged
/// with no recursion into it; otherwise the children are rewritten first
/// and the node is then wrapped exactly when it qualifies.
pub open spec fn rw_expr(e: ExprView) -> ExprView
    decreases e, 1int,
{
    if is_observer_call(e) {
        e
    } else {
        let c = rw_expr_children(e);
        if node_qualifies(c) {
            wrap(c)
        } else {
            c
        }
    }
}

/// Rewrite of an expression's children, the node itself untouched.
pub open spec fn rw_expr_children(e: ExprView) -> ExprView
    decreases e, 0int,
{
    match e {
        ExprView::Ident { name } => e,
        ExprView::Call { callee, args } => ExprView::Call {
            callee: Box::new(rw_expr(*callee)),
            args: rw_exprs(args),
        },
        ExprView::Func { name, func } => ExprView::Func { name, func: rw_func(func) },
        ExprView::Arrow { params, body } => ExprView::Arrow {
            params,
            body: rw_arrow_body(body),
        },
        ExprView::Paren { inner } => ExprView::Paren { inner: Box::new(rw_expr(*inner)) },
        ExprView::JsxElement { children } => ExprView::JsxElement {
            children: rw_exprs(children),
        },
        ExprView::JsxFragment { children } => ExprView::JsxFragment {
            children: rw_exprs(children),
        },
        ExprView::Other { children } => ExprView::Other { children: rw_exprs(children) },
    }
}

/// Rewrite of an expression list, elementwise.
pub open spec fn rw_exprs(s: Seq<ExprView>) -> Seq<ExprView>
    decreases s, 1int,
{
    if s.len() == 0 {
        Seq::empty()
    } else {
        rw_exprs(s.subrange(0, s.len() - 1)).push(rw_expr(s[s.len() - 1]))
    }
}

/// Rewrite of a function: its block body, if any, is rewritten.
pub open spec fn rw_func(f: FuncView) -> FuncView
    decreases f, 1int,
{
    FuncView { params: f.params, body: rw_opt_stmts(f.body) }
}

/// Rewrite of an arrow body.
pub open spec fn rw_arrow_body(b: ArrowBodyView) -> ArrowBodyView
    decreases b, 1int,
{
    match b {
        ArrowBodyView::Block { stmts } => ArrowBodyView::Block { stmts: rw_stmts(stmts) },
        ArrowBodyView::Expr(e) => ArrowBodyView::Expr(Box::new(rw_expr(*e))),
    }
}

/// Rewrite of an optional statement block.
pub open spec fn rw_opt_stmts(o: Option<Seq<StmtView>>) -> Option<Seq<StmtView>>
    decreases o, 1int,
{
    match o {
        Option::Some(b) => Option::Some(rw_stmts(b)),
        Option::None => Option::None,
    }
}

/// Rewrite of a statement list, elementwise.
pub open spec fn rw_stmts(s: Seq<StmtView>) -> Seq<StmtView>
    decreases s, 1int,
{
    if s.len() == 0 {
        Seq::empty()
    } else {
        rw_stmts(s.subrange(0, s.len() - 1)).push(rw_stmt(s[s.len() - 1]))
    }
}

/// Rewrite of a statement.
pub open spec fn rw_stmt(s: StmtView) -> StmtView
    decreases s, 1int,
{
    match s {
        StmtView::Decl(d) => StmtView::Decl(rw_decl(d)),
        StmtView::Return { arg } => StmtView::Return { arg: rw_opt_expr(arg) },
        StmtView::Expr { expr } => StmtView::Expr { expr: rw_expr(expr) },
        StmtView::If { test, cons, alt } => StmtView::If {
            test: rw_expr(test),
            cons: rw_stmts(cons),
            alt: rw_opt_alt(alt),
        },
        StmtView::Other => s,
    }
}

/// Rewrite of an optional expression.
pub open spec fn rw_opt_expr(o: Option<ExprView>) -> Option<ExprView>
    decreases o, 1int,
{
    match o {
        Option::Some(e) => Option::Some(rw_expr(e)),
        Option::None => Option::None,
    }
}

/// Rewrite of an optional alternate block.
pub open spec fn rw_opt_alt(o: Option<Seq<StmtView>>) -> Option<Seq<StmtView>>
    decreases o, 1int,
{
    match o {
        Option::Some(b) => Option::Some(rw_stmts(b)),
        Option::None => Option::None,
    }
}

/// Rewrite of a declaration. A qualifying named function declaration
/// becomes a constant binding of the same name whose initializer is the
/// wrapped form of the equivalent named function expression; the function
/// keeps its identifier. Variable declarations have each initializer
/// rewritten in place; binding names and the declaration kind are kept.
pub open spec fn rw_decl(d: DeclView) -> DeclView
    decreases d, 1int,
{
    match d {
        DeclView::Func { name, func } => match func.body {
            Option::Some(b) => {
                let b2 = rw_stmts(b);
                if qualifies(b2) {
                    DeclView::Var {
                        kind: VarDeclKind::Const,
                        decls: seq![
                            DeclaratorView {
                                name: name,
                                init: Option::Some(
                                    wrap(
                                        ExprView::Func {
                                            name: Option::Some(name),
                                            func: FuncView {
                                                params: func.params,
                                                body: Option::Some(b2),
                                            },
                                        },
                                    ),
                                ),
                            },
                        ],
                    }
                } else {
                    DeclView::Func {
                        name,
                        func: FuncView { params: func.params, body: Option::Some(b2) },
                    }
                }
            },
            Option::None => d,
        },
        DeclView::Var { kind, decls } => DeclView::Var { kind, decls: rw_declarators(decls) },
        DeclView::Other => d,
    }
}

/// Rewrite of a declarator list, elementwise.
pub open spec fn rw_declarators(s: Seq<DeclaratorView>) -> Seq<DeclaratorView>
    decreases s, 1int,
{
    if s.len() == 0 {
        Seq::empty()
    } else {
        rw_declarators(s.subrange(0, s.len() - 1)).push(rw_declarator(s[s.len() - 1]))
    }
}

/// Rewrite of one declarator: only the initializer changes.
pub open spec fn rw_declarator(d: DeclaratorView) -> DeclaratorView
    decreases d, 1int,
{
    DeclaratorView { name: d.name, init: rw_opt_expr(d.init) }
}

/// Rewrite of one module item. Import declarations are never touched.
pub open spec fn rw_item(it: ItemView) -> ItemView
    decreases it, 1int,
{
    match it {
        ItemView::Import { specifiers, src } => it,
        ItemView::Stmt(s) => ItemView::Stmt(rw_stmt(s)),
        ItemView::Other => it,
    }
}

/// Rewrite of a module item list, elementwise.
pub open spec fn rw_items(s: Seq<ItemView>) -> Seq<ItemView>
    decreases s, 1int,
{
    if s.len() == 0 {
        Seq::empty()
    } else {
        rw_items(s.subrange(0, s.len() - 1)).push(rw_item(s[s.len() - 1]))
    }
}

/// Whether rewriting this expression wraps a node anywhere in it.
pub open spec fn wrap_in_expr(e: ExprView) -> bool
    decreases e, 1int,
{
    if is_observer_call(e) {
        false
    } else {
        node_qualifies(rw_expr_children(e)) || wrap_in_expr_children(e)
    }
}

/// Whether rewriting this expression's children wraps a node in one of them.
pub open spec fn wrap_in_expr_children(e: ExprView) -> bool
    decreases e, 0int,
{
    match e {
        ExprView::Ident { name } => false,
        ExprView::Call { callee, args } => wrap_in_expr(*callee) || wrap_in_exprs(args),
        ExprView::Func { name, func } => wrap_in_func(func),
        ExprView::Arrow { params, body } => wrap_in_arrow_body(body),
        ExprView::Paren { inner } => wrap_in_expr(*inner),
        ExprView::JsxElement { children } => wrap_in_exprs(children),
        ExprView::JsxFragment { children } => wrap_in_exprs(children),
        ExprView::Other { children } => wrap_in_exprs(children),
    }
}

/// Whether rewriting an expression list wraps a node in some element.
pub open spec fn wrap_in_exprs(s: Seq<ExprView>) -> bool
    decreases s, 1int,
{
    if s.len() == 0 {
        false
    } else {
        wrap_in_exprs(s.subrange(0, s.len() - 1)) || wrap_in_expr(s[s.len() - 1])
    }
}

/// Whether rewriting a function's body wraps a node in it.
pub open spec fn wrap_in_func(f: FuncView) -> bool
    decreases f, 1int,
{
    match f.body {
        Option::Some(b) => wrap_in_stmts(b),
        Option::None => false,
    }
}

/// Whether rewriting an arrow body wraps a node in it.
pub open spec fn wrap_in_arrow_body(b: ArrowBodyView) -> bool
    decreases b, 1int,
{
    match b {
        ArrowBodyView::Block { stmts } => wrap_in_stmts(stmts),
        ArrowBodyView::Expr(e) => wrap_in_expr(*e),
    }
}

/// Whether rewriting a statement list wraps a node in some element.
pub open spec fn wrap_in_stmts(s: Seq<StmtView>) -> bool
    decreases s, 1int,
{
    if s.len() == 0 {
        false
    } else {
        wrap_in_stmts(s.subrange(0, s.len() - 1)) || wrap_in_stmt(s[s.len() - 1])
    }
}

/// Whether rewriting a statement wraps a node in it.
pub open spec fn wrap_in_stmt(s: StmtView) -> bool
    decreases s, 1int,
{
    match s {
        StmtView::Decl(d) => wrap_in_decl(d),
        StmtView::Return { arg } => wrap_in_opt_expr(arg),
        StmtView::Expr { expr } => wrap_in_expr(expr),
        StmtView::If { test, cons, alt } => wrap_in_expr(test) || wrap_in_stmts(cons)
            || wrap_in_opt_alt(alt),
        StmtView::Other => false,
    }
}

/// Whether rewriting an optional expression wraps a node in it.
pub open spec fn wrap_in_opt_expr(o: Option<ExprView>) -> bool
    decreases o, 1int,
{
    match o {
        Option::Some(e) => wrap_in_expr(e),
        Option::None => false,
    }
}

/// Whether rewriting an optional alternate block wraps a node in it.
pub open spec fn wrap_in_opt_alt(o: Option<Seq<StmtView>>) -> bool
    decreases o, 1int,
{
    match o {
        Option::Some(b) => wrap_in_stmts(b),
        Option::None => false,
    }
}

/// Whether rewriting a declaration wraps a node in it: either the
/// declared function itself qualifies after its body is rewritten, or a
/// wrap happens somewhere below.
pub open spec fn wrap_in_decl(d: DeclView) -> bool
    decreases d, 1int,
{
    match d {
        DeclView::Func { name, func } => match func.body {
            Option::Some(b) => qualifies(rw_stmts(b)) || wrap_in_stmts(b),
            Option::None => false,
        },
        DeclView::Var { kind, decls } => wrap_in_declarators(decls),
        DeclView::Other => false,
    }
}

/// Whether rewriting a declarator list wraps a node in some element.
pub open spec fn wrap_in_declarators(s: Seq<DeclaratorView>) -> bool
    decreases s, 1int,
{
    if s.len() == 0 {
        false
    } else {
        wrap_in_declarators(s.subrange(0, s.len() - 1))
            || wrap_in_declarator(s[s.len() - 1])
    }
}

/// Whether rewriting one declarator wraps a node in its initializer.
pub open spec fn wrap_in_declarator(d: DeclaratorView) -> bool
    decreases d, 1int,
{
    wrap_in_opt_expr(d.init)
}

/// Whether rewriting one module item wraps a node in it.
pub open spec fn wrap_in_item(it: ItemView) -> bool
    decreases it, 1int,
{
    match it {
        ItemView::Import { specifiers, src } => false,
        ItemView::Stmt(s) => wrap_in_stmt(s),
        ItemView::Other => false,
    }
}

/// Whether rewriting a module item list wraps a node in some element.
pub open spec fn wrap_in_items(s: Seq<ItemView>) -> bool
    decreases s, 1int,
{
    if s.len() == 0 {
        false
    } else {
        wrap_in_items(s.subrange(0, s.len() - 1)) || wrap_in_item(s[s.len() - 1])
    }
}

/// One specifier binds the fixed observer identifier.
pub open spec fn specifier_binds_observer(sp: SpecifierView) -> bool {
    match sp {
        SpecifierView::Named { local } => local == observer_local(),
        SpecifierView::Other => false,
    }
}

/// One module item is an import declaration with a named specifier whose
/// local binding is the fixed observer identifier, from any source path.
pub open spec fn item_imports_observer(it: ItemView) -> bool {
    match it {
        ItemView::Import { specifiers, src } => exists|i: int|
            0 <= i < specifiers.len() && specifier_binds_observer(#[trigger] specifiers[i]),
        _ => false,
    }
}

/// The module already binds the observer identifier through some import.
pub open spec fn has_observer_import(items: Seq<ItemView>) -> bool {
    exists|i: int| 0 <= i < items.len() && item_imports_observer(#[trigger] items[i])
}

/// How many items import the observer binding.
pub open spec fn count_observer_imports(items: Seq<ItemView>) -> nat
    decreases items,
{
    if items.len() == 0 {
        0
    } else {
        count_observer_imports(items.subrange(0, items.len() - 1)) + (
        if item_imports_observer(items[items.len() - 1]) {
            1nat
        } else {
            0nat
        })
    }
}

/// The synthesized import declaration: a named import of the fixed
/// observer identifier from the configured package.
pub open spec fn observer_import_item(pkg: Seq<char>) -> ItemView {
    ItemView::Import {
        specifiers: seq![SpecifierView::Named { local: observer_local() }],
        src: pkg,
    }
}

/// Rewrite of a whole module: every item is rewritten bottom-up; then,
/// exactly when at least one wrap occurred and no import already binds
/// the observer identifier, the synthesized import declaration is
/// prepended, the order of every other item preserved.
pub open spec fn rw_module(m: ModuleView, pkg: Seq<char>) -> ModuleView {
    let items = rw_items(m.body);
    if wrap_in_items(m.body) && !has_observer_import(items) {
        ModuleView { body: seq![observer_import_item(pkg)] + items }
    } else {
        ModuleView { body: items }
    }
}

/// The observer-import count is positive exactly when some item imports
/// the observer binding.
pub proof fn lemma_count_observer_imports(items: Seq<ItemView>)
    ensures
        count_observer_imports(items) > 0 <==> has_observer_import(items),
        count_observer_imports(items) <= items.len(),
    decreases items.len(),
{
    if items.len() > 0 {
        let rest = items.subrange(0, items.len() - 1);
        lemma_count_observer_imports(rest);
        if item_imports_observer(items[items.len() - 1]) {
        } else if has_observer_import(rest) {
            let i = choose|i: int|
                0 <= i < rest.len() && item_imports_observer(#[trigger] rest[i]);
            assert(items[i] == rest[i]);
        } else if has_observer_import(items) {
            let i = choose|i: int|
                0 <= i < items.len() && item_imports_observer(#[trigger] items[i]);
            assert(i < items.len() - 1 && rest[i] == items[i]);
        }
    }
}

} // verus!

