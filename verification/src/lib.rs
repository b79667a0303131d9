//! A source-to-source rewriting pass over a JavaScript-like module syntax
//! tree: function definitions that read reactive "store" state through a
//! `useXStore` hook call and return a UI literal are wrapped in a call to a
//! fixed observer binding, and a single import declaration for that binding
//! is prepended to the module when at least one wrap occurred.
//!
//! Classifier policy: a function qualifies only when both checks hold — it
//! binds a store hook at the top level of its body, and it returns a UI
//! literal there. A policy that wraps on hook use alone is a known design
//! alternative; this library deliberately implements the conjunction.

use vstd::prelude::*;

pub mod ast;
pub mod model;
pub mod semantics;
pub mod classify;
pub mod rewrite;
pub mod laws;

use crate::ast::Module;
use crate::model::{lemma_v_items, v_items, ModuleView};
use crate::rewrite::{create_observer_import, fold_items, module_has_observer_import};
use crate::semantics::{observer_import_item, rw_module};

verus! {

/// Configuration of one pass instance: the package path the observer
/// binding is imported from.
pub struct Config {
    pub package_name: String,
}

impl Default for Config {
    /// A missing configuration degrades to an empty package name rather
    /// than failing construction.
    fn default() -> (c: Config)
        ensures
            c.package_name@ == Seq::<char>::empty(),
    {
        Config { package_name: String::new() }
    }
}

/// One pass instance: the configuration and the transform it drives. One
/// instance serves one module; the wrap flag lives in the traversal
/// itself, so an instance carries no state between runs.
pub struct StoreObserver {
    pub config: Config,
}

/// Builds the pass from the configured package name.
pub fn react_store_observer(package_name: String) -> (p: StoreObserver)
    ensures
        p.config.package_name@ == package_name@,
{
    StoreObserver { config: Config { package_name } }
}

impl StoreObserver {
    /// The whole pass over one module: every item is rewritten bottom-up,
    /// and exactly when at least one wrap occurred and no import already
    /// binds the observer identifier, one import declaration for it is
    /// prepended; everything else keeps its order.
    pub fn transform(&self, module: Module) -> (r: Module)
        ensures
            r@ == rw_module(module@, self.config.package_name@),
    {
        let ghost m0 = v_items(module.body@);
        let (mut items, wrapped) = fold_items(module.body);
        if wrapped && !module_has_observer_import(&items) {
            let imp = create_observer_import(&self.config.package_name);
            let ghost before = items@;
            items.insert(0, imp);
            proof {
                assert(items@ =~= seq![imp] + before);
                lemma_v_items(items@);
                lemma_v_items(before);
                assert(v_items(items@) =~= seq![
                    observer_import_item(self.config.package_name@),
                ] + v_items(before));
            }
        }
        let r = Module { body: items };
        proof {
            assert(r@ == ModuleView { body: v_items(items@) });
            assert(module@ == ModuleView { body: m0 });
        }
        r
    }
}

} // verus!
