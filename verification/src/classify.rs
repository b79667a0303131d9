//! The executable classifier: name checks for store hooks and the
//! observer binding, the shallow scan of a body for a hook-binding
//! variable declaration, and the scan for a top-level UI return.

use vstd::prelude::*;
use vstd::string::StrSliceExecFns;
use crate::ast::{ArrowBody, Decl, Expr, Stmt, VarDeclarator};
use crate::model::{
    lemma_v_declarators, lemma_v_stmts, v_arrow_body, v_decl, v_declarator, v_declarators,
    v_expr, v_func, v_opt_expr, v_opt_stmts, v_params, v_stmt, v_stmts, ArrowBodyView,
    DeclView, ExprView, FuncView, StmtView,
};
use crate::semantics::{
    body_binds_hook, body_returns_ui, declarator_binds_hook, is_hook_call, is_hook_name,
    is_observer_call, is_ui_literal, manual_observer, node_qualifies, observer_local, qualifies,
    stmt_binds_hook, stmt_returns_ui,
};

verus! {

/// Character-for-character equality of two string slices.
pub fn str_eq(a: &str, b: &str) -> (r: bool)
    ensures
        r == (a@ == b@),
{
    let alen = a.unicode_len();
    let blen = b.unicode_len();
    if alen != blen {
        return false;
    }
    let mut i: usize = 0;
    while i < alen
        invariant
            i <= alen,
            alen == a@.len(),
            alen == b@.len(),
            forall|j: int| 0 <= j < i ==> a@[j] == b@[j],
        decreases alen - i,
    {
        if a.get_char(i) != b.get_char(i) {
            return false;
        }
        i += 1;
    }
    proof {
        assert(a@ =~= b@);
    }
    true
}

/// Whether a name is the fixed local observer binding.
pub fn is_observer_local_name(name: &str) -> (r: bool)
    ensures
        r == (name@ == observer_local()),
{
    proof {
        reveal_strlit("__observer");
        assert("__observer"@ =~= observer_local());
    }
    str_eq(name, "__observer")
}

/// Whether a name marks an existing wrap: `observer`, by hand, or the
/// fixed local binding, from an earlier run of the pass.
pub fn is_observer_name(name: &str) -> (r: bool)
    ensures
        r == (name@ == observer_local() || name@ == manual_observer()),
{
    proof {
        reveal_strlit("observer");
        assert("observer"@ =~= manual_observer());
    }
    if is_observer_local_name(name) {
        true
    } else {
        str_eq(name, "observer")
    }
}

/// Whether a name matches the store-hook pattern: it starts with `use`
/// and ends with `Store`.
pub fn is_store_hook_name(name: &str) -> (r: bool)
    ensures
        r == is_hook_name(name@),
{
    let n = name.unicode_len();
    if n < 5 {
        return false;
    }
    let r = name.get_char(0) == 'u' && name.get_char(1) == 's' && name.get_char(2) == 'e'
        && name.get_char(n - 5) == 'S' && name.get_char(n - 4) == 't' && name.get_char(n - 3)
        == 'o' && name.get_char(n - 2) == 'r' && name.get_char(n - 1) == 'e';
    r
}

/// Whether an expression is a direct call of a store hook.
pub fn is_store_hook(e: &Expr) -> (r: bool)
    ensures
        r == is_hook_call(v_expr(*e)),
{
    match e {
        Expr::Call { callee, args } => match &**callee {
            Expr::Ident { name } => {
                proof {
                    assert(v_expr(**callee) == ExprView::Ident { name: name@ });
                }
                is_store_hook_name(name.as_str())
            },
            _ => {
                proof {
                    assert(!(v_expr(**callee) is Ident));
                }
                false
            },
        },
        _ => false,
    }
}

/// Whether one declarator binds the result of a direct store-hook call.
pub fn declarator_has_hook(d: &VarDeclarator) -> (r: bool)
    ensures
        r == declarator_binds_hook(v_declarator(*d)),
{
    match &d.init {
        Option::Some(e) => {
            proof {
                assert(v_opt_expr(d.init) == Option::Some(v_expr(*e)));
            }
            is_store_hook(e)
        },
        Option::None => {
            proof {
                assert(v_opt_expr(d.init) == Option::None::<ExprView>);
            }
            false
        },
    }
}

/// Whether one statement is a variable declaration binding a store hook.
#[verifier::rlimit(50)]
#[verifier::loop_isolation(false)]
pub fn stmt_has_hook(s: &Stmt) -> (r: bool)
    ensures
        r == stmt_binds_hook(v_stmt(*s)),
{
    match s {
        Stmt::Decl(Decl::Var(v)) => {
            let ghost ds = v_declarators(v.decls@);
            proof {
                lemma_v_declarators(v.decls@);
                assert(v_decl(Decl::Var(*v)) == DeclView::Var { kind: v.kind, decls: ds });
            }
            let mut i: usize = 0;
            while i < v.decls.len()
                invariant
                    i <= v.decls.len(),
                    ds == v_declarators(v.decls@),
                    ds.len() == v.decls@.len(),
                    forall|j: int| 0 <= j < ds.len() ==> ds[j] == v_declarator(v.decls@[j]),
                    forall|j: int| 0 <= j < i ==> !declarator_binds_hook(#[trigger] ds[j]),
                decreases v.decls.len() - i,
            {
                if declarator_has_hook(&v.decls[i]) {
                    proof {
                        assert(declarator_binds_hook(ds[i as int]));
                        assert(v_stmt(*s) == StmtView::Decl(v_decl(Decl::Var(*v))));
                        assert(stmt_binds_hook(v_stmt(*s)));
                    }
                    return true;
                }
                i += 1;
            }
            proof {
                assert(v_stmt(*s) == StmtView::Decl(v_decl(Decl::Var(*v))));
                assert(!stmt_binds_hook(v_stmt(*s)));
            }
            false
        },
        Stmt::Decl(d) => {
            proof {
                assert(!(v_decl(*d) is Var));
            }
            false
        },
        _ => false,
    }
}

/// The shallow store-hook scan: some statement directly in the body's
/// top-level list binds a store hook. Nested blocks are not entered.
pub fn contains_store_hook(body: &Vec<Stmt>) -> (r: bool)
    ensures
        r == body_binds_hook(v_stmts(body@)),
{
    let ghost bs = v_stmts(body@);
    proof {
        lemma_v_stmts(body@);
    }
    let mut i: usize = 0;
    while i < body.len()
        invariant
            i <= body.len(),
            bs == v_stmts(body@),
            bs.len() == body@.len(),
            forall|j: int| 0 <= j < bs.len() ==> bs[j] == v_stmt(body@[j]),
            forall|j: int| 0 <= j < i ==> !stmt_binds_hook(#[trigger] bs[j]),
        decreases body.len() - i,
    {
        if stmt_has_hook(&body[i]) {
            proof {
                assert(stmt_binds_hook(bs[i as int]));
            }
            return true;
        }
        i += 1;
    }
    false
}

/// Whether an expression is a UI literal, through any parentheses.
pub fn is_jsx_element(e: &Expr) -> (r: bool)
    ensures
        r == is_ui_literal(v_expr(*e)),
    decreases *e,
{
    match e {
        Expr::JsxElement { children } => true,
        Expr::JsxFragment { children } => true,
        Expr::Paren { inner } => {
            proof {
                assert(v_expr(*e) == ExprView::Paren { inner: Box::new(v_expr(**inner)) });
            }
            is_jsx_element(inner)
        },
        _ => false,
    }
}

/// The UI-return scan: some statement directly in the body's top-level
/// list returns a UI literal. Returns inside conditionals are not seen.
pub fn contains_jsx(body: &Vec<Stmt>) -> (r: bool)
    ensures
        r == body_returns_ui(v_stmts(body@)),
{
    let ghost bs = v_stmts(body@);
    proof {
        lemma_v_stmts(body@);
    }
    let mut i: usize = 0;
    while i < body.len()
        invariant
            i <= body.len(),
            bs == v_stmts(body@),
            bs.len() == body@.len(),
            forall|j: int| 0 <= j < bs.len() ==> bs[j] == v_stmt(body@[j]),
            forall|j: int| 0 <= j < i ==> !stmt_returns_ui(#[trigger] bs[j]),
        decreases body.len() - i,
    {
        let hit = match &body[i] {
            Stmt::Return { arg: Option::Some(e) } => {
                proof {
                    assert(v_opt_expr(Option::Some(*e)) == Option::Some(v_expr(*e)));
                    assert(bs[i as int] == StmtView::Return {
                        arg: Option::Some(v_expr(*e)),
                    });
                }
                is_jsx_element(e)
            },
            Stmt::Return { arg: Option::None } => {
                proof {
                    assert(v_opt_expr(Option::None) == Option::None::<ExprView>);
                }
                false
            },
            _ => false,
        };
        if hit {
            return true;
        }
        i += 1;
    }
    false
}

/// The classifier's policy: a body qualifies for wrapping when it both
/// binds a store hook and returns a UI literal at its top level.
pub fn should_transform_function(body: &Vec<Stmt>) -> (r: bool)
    ensures
        r == qualifies(v_stmts(body@)),
{
    contains_store_hook(body) && contains_jsx(body)
}

/// Whether an expression node is a wrappable candidate: a function or
/// arrow expression whose block body qualifies.
pub fn is_candidate(e: &Expr) -> (r: bool)
    ensures
        r == node_qualifies(v_expr(*e)),
{
    match e {
        Expr::Func { name, func } => match &func.body {
            Option::Some(b) => {
                proof {
                    assert(v_opt_stmts(func.body) == Option::Some(v_stmts(b@)));
                    assert(v_func(*func) == FuncView {
                        params: v_params(func.params@),
                        body: Option::Some(v_stmts(b@)),
                    });
                }
                should_transform_function(b)
            },
            Option::None => {
                proof {
                    assert(v_opt_stmts(func.body) == Option::None::<Seq<StmtView>>);
                    assert(v_func(*func) == FuncView {
                        params: v_params(func.params@),
                        body: Option::None,
                    });
                }
                false
            },
        },
        Expr::Arrow { params, body } => match body {
            ArrowBody::Block { stmts } => {
                proof {
                    assert(v_arrow_body(*body) == ArrowBodyView::Block {
                        stmts: v_stmts(stmts@),
                    });
                }
                should_transform_function(stmts)
            },
            ArrowBody::Expr { expr } => {
                proof {
                    assert(v_arrow_body(*body) is Expr);
                }
                false
            },
        },
        _ => false,
    }
}

/// Whether an expression is already a wrap: a call of an identifier named
/// `observer` or of the fixed local binding.
pub fn is_already_observed(e: &Expr) -> (r: bool)
    ensures
        r == is_observer_call(v_expr(*e)),
{
    match e {
        Expr::Call { callee, args } => match &**callee {
            Expr::Ident { name } => {
                proof {
                    assert(v_expr(**callee) == ExprView::Ident { name: name@ });
                }
                is_observer_name(name.as_str())
            },
            _ => {
                proof {
                    assert(!(v_expr(**callee) is Ident));
                }
                false
            },
        },
        _ => false,
    }
}

} // verus!
