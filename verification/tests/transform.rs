use react_store_observer::ast::{
    ArrowBody, Decl, Expr, Function, ImportDecl, ImportSpecifier, Module, ModuleItem, Stmt,
    VarDecl, VarDeclKind, VarDeclarator,
};
use react_store_observer::classify::is_store_hook_name;
use react_store_observer::react_store_observer;

const PKG: &str = "@impact-react/signals";

fn ident(name: &str) -> Expr {
    Expr::Ident { name: name.to_string() }
}

fn call(callee: Expr, args: Vec<Expr>) -> Expr {
    Expr::Call { callee: Box::new(callee), args }
}

fn hook_decl(binding: &str, hook: &str) -> Stmt {
    Stmt::Decl(Decl::Var(VarDecl {
        kind: VarDeclKind::Const,
        decls: vec![VarDeclarator {
            name: binding.to_string(),
            init: Some(call(ident(hook), vec![])),
        }],
    }))
}

fn jsx_return() -> Stmt {
    Stmt::Return { arg: Some(Expr::JsxElement { children: vec![] }) }
}

fn component_body() -> Vec<Stmt> {
    vec![hook_decl("s", "useCartStore"), jsx_return()]
}

fn cart_fn_decl() -> ModuleItem {
    ModuleItem::Stmt(Stmt::Decl(Decl::Func {
        name: "Cart".to_string(),
        func: Function { params: vec![], body: Some(component_body()) },
    }))
}

fn wrapped(e: Expr) -> Expr {
    Expr::Call {
        callee: Box::new(Expr::Ident { name: "__observer".to_string() }),
        args: vec![e],
    }
}

fn observer_import(src: &str) -> ModuleItem {
    ModuleItem::Import(ImportDecl {
        specifiers: vec![ImportSpecifier::Named { local: "__observer".to_string() }],
        src: src.to_string(),
    })
}

fn run(m: Module) -> Module {
    react_store_observer(PKG.to_string()).transform(m)
}

#[test]
fn function_declaration_becomes_wrapped_const() {
    let out = run(Module { body: vec![cart_fn_decl()] });
    let expected = Module {
        body: vec![
            observer_import(PKG),
            ModuleItem::Stmt(Stmt::Decl(Decl::Var(VarDecl {
                kind: VarDeclKind::Const,
                decls: vec![VarDeclarator {
                    name: "Cart".to_string(),
                    init: Some(wrapped(Expr::Func {
                        name: Some("Cart".to_string()),
                        func: Function { params: vec![], body: Some(component_body()) },
                    })),
                }],
            }))),
        ],
    };
    assert_eq!(out, expected);
}

#[test]
fn transform_is_idempotent() {
    let once = run(Module { body: vec![cart_fn_decl()] });
    let once_again = run(Module { body: vec![cart_fn_decl()] });
    let twice = run(once);
    assert_eq!(twice, once_again);
}

#[test]
fn manually_observed_component_is_untouched() {
    assert_eq!(
        run(Module { body: vec![manual_item()] }),
        Module { body: vec![manual_item()] }
    );
}

fn manual_item() -> ModuleItem {
    ModuleItem::Stmt(Stmt::Decl(Decl::Var(VarDecl {
        kind: VarDeclKind::Const,
        decls: vec![VarDeclarator {
            name: "Cart".to_string(),
            init: Some(call(
                ident("observer"),
                vec![Expr::Func {
                    name: None,
                    func: Function { params: vec![], body: Some(component_body()) },
                }],
            )),
        }],
    })))
}

#[test]
fn one_import_for_many_wraps() {
    let second = ModuleItem::Stmt(Stmt::Decl(Decl::Func {
        name: "User".to_string(),
        func: Function {
            params: vec![],
            body: Some(vec![hook_decl("u", "useUserStore"), jsx_return()]),
        },
    }));
    let out = run(Module { body: vec![cart_fn_decl(), second] });
    let imports = out
        .body
        .iter()
        .filter(|it| match it {
            ModuleItem::Import(d) => d
                .specifiers
                .iter()
                .any(|sp| matches!(sp, ImportSpecifier::Named { local } if local == "__observer")),
            _ => false,
        })
        .count();
    assert_eq!(imports, 1);
    assert_eq!(out.body[0], observer_import(PKG));
    assert_eq!(out.body.len(), 3);
}

#[test]
fn existing_observer_import_is_kept() {
    let out = run(Module { body: vec![observer_import("another-package"), cart_fn_decl()] });
    assert_eq!(out.body.len(), 2);
    assert_eq!(out.body[0], observer_import("another-package"));
    match &out.body[1] {
        ModuleItem::Stmt(Stmt::Decl(Decl::Var(v))) => {
            assert_eq!(v.kind, VarDeclKind::Const);
            assert_eq!(v.decls[0].name, "Cart");
        }
        other => panic!("expected a const binding, got {:?}", other),
    }
}

#[test]
fn hook_without_ui_return_is_unchanged() {
    let build = || {
        Module {
            body: vec![ModuleItem::Stmt(Stmt::Decl(Decl::Func {
                name: "totals".to_string(),
                func: Function {
                    params: vec![],
                    body: Some(vec![
                        hook_decl("s", "useCartStore"),
                        Stmt::Return { arg: Some(ident("s")) },
                    ]),
                },
            }))],
        }
    };
    assert_eq!(run(build()), build());
}

#[test]
fn ui_return_without_hook_is_unchanged() {
    let build = || {
        Module {
            body: vec![ModuleItem::Stmt(Stmt::Decl(Decl::Func {
                name: "Banner".to_string(),
                func: Function { params: vec![], body: Some(vec![jsx_return()]) },
            }))],
        }
    };
    assert_eq!(run(build()), build());
}

#[test]
fn nested_arrow_callback_is_wrapped_alone() {
    let inner = || Expr::Arrow {
        params: vec!["p".to_string()],
        body: ArrowBody::Block {
            stmts: vec![hook_decl("s", "useCartStore"), jsx_return()],
        },
    };
    let outer = |arg: Expr| {
        ModuleItem::Stmt(Stmt::Decl(Decl::Func {
            name: "makeView".to_string(),
            func: Function {
                params: vec![],
                body: Some(vec![Stmt::Return {
                    arg: Some(call(ident("renderWith"), vec![arg])),
                }]),
            },
        }))
    };
    let out = run(Module { body: vec![outer(inner())] });
    let expected = Module { body: vec![observer_import(PKG), outer(wrapped(inner()))] };
    assert_eq!(out, expected);
}

#[test]
fn hook_inside_nested_if_is_not_detected() {
    let build = || {
        Module {
            body: vec![ModuleItem::Stmt(Stmt::Decl(Decl::Func {
                name: "Maybe".to_string(),
                func: Function {
                    params: vec![],
                    body: Some(vec![
                        Stmt::If {
                            test: ident("flag"),
                            cons: vec![hook_decl("s", "useCartStore")],
                            alt: None,
                        },
                        jsx_return(),
                    ]),
                },
            }))],
        }
    };
    assert_eq!(run(build()), build());
}

#[test]
fn arrow_with_expression_body_is_not_wrapped() {
    let build = || {
        Module {
            body: vec![ModuleItem::Stmt(Stmt::Decl(Decl::Var(VarDecl {
                kind: VarDeclKind::Const,
                decls: vec![VarDeclarator {
                    name: "Chip".to_string(),
                    init: Some(Expr::Arrow {
                        params: vec![],
                        body: ArrowBody::Expr {
                            expr: Box::new(Expr::JsxElement { children: vec![] }),
                        },
                    }),
                }],
            })))],
        }
    };
    assert_eq!(run(build()), build());
}

#[test]
fn empty_module_is_unchanged() {
    assert_eq!(run(Module { body: vec![] }), Module { body: vec![] });
}

#[test]
fn default_config_produces_empty_source_path() {
    let pass = react_store_observer(String::new());
    let out = pass.transform(Module { body: vec![cart_fn_decl()] });
    assert_eq!(out.body[0], observer_import(""));
}

#[test]
fn let_binding_with_arrow_initializer_is_wrapped_in_place() {
    let arrow = || Expr::Arrow {
        params: vec![],
        body: ArrowBody::Block {
            stmts: vec![hook_decl("u", "useUserStore"), jsx_return()],
        },
    };
    let item = |init: Expr| {
        ModuleItem::Stmt(Stmt::Decl(Decl::Var(VarDecl {
            kind: VarDeclKind::Let,
            decls: vec![VarDeclarator { name: "View".to_string(), init: Some(init) }],
        })))
    };
    let out = run(Module { body: vec![item(arrow())] });
    let expected = Module { body: vec![observer_import(PKG), item(wrapped(arrow()))] };
    assert_eq!(out, expected);
}

#[test]
fn function_declaration_without_body_is_unchanged() {
    let build = || {
        Module {
            body: vec![ModuleItem::Stmt(Stmt::Decl(Decl::Func {
                name: "declared".to_string(),
                func: Function { params: vec![], body: None },
            }))],
        }
    };
    assert_eq!(run(build()), build());
}

#[test]
fn hook_name_pattern_is_prefix_and_suffix() {
    assert!(is_store_hook_name("useCartStore"));
    assert!(is_store_hook_name("useUserStore"));
    assert!(is_store_hook_name("useStore"));
    assert!(!is_store_hook_name("useCart"));
    assert!(!is_store_hook_name("getCartStore"));
    assert!(!is_store_hook_name("Store"));
    assert!(!is_store_hook_name(""));
}

#[test]
fn already_wrapped_output_name_is_respected() {
    let pre_wrapped = || {
        Module {
            body: vec![ModuleItem::Stmt(Stmt::Decl(Decl::Var(VarDecl {
                kind: VarDeclKind::Const,
                decls: vec![VarDeclarator {
                    name: "Cart".to_string(),
                    init: Some(wrapped(Expr::Func {
                        name: Some("Cart".to_string()),
                        func: Function { params: vec![], body: Some(component_body()) },
                    })),
                }],
            })))],
        }
    };
    assert_eq!(run(pre_wrapped()), pre_wrapped());
}
