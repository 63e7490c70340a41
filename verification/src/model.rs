//! The mathematical model of one traversal: what one declaration does
//! to the ledger and which symbol it surfaces, folded over a file's
//! declarations and over the traversed files. The engine's contracts
//! pin its results to these functions, and the stated laws are proved
//! of them.
use vstd::prelude::*;
use crate::ExportPolicy;
use crate::front::{decl_name, exported, fields_of, params_of, ctype_model, Decl, NodeKind,
    SourceFile};
use crate::ir::{cat_all, stream_is_empty, FnModel, StructModel, Symbol, SymbolModel,
    TranslationUnit, VarModel};
use crate::ledger::LedgerModel;
use crate::paths::{base_name, is_c_source};

verus! {

/// The function model a function declaration surfaces.
pub open spec fn fn_model_of(d: Decl) -> FnModel {
    FnModel { name: decl_name(d), ctype: ctype_model(d.ctype), parameters: params_of(d.children@) }
}

/// The struct model a struct declaration surfaces.
pub open spec fn struct_model_of(d: Decl) -> StructModel {
    StructModel { name: decl_name(d), ctype: ctype_model(d.ctype), fields: fields_of(d.children@) }
}

/// The variable model a variable declaration surfaces.
pub open spec fn var_model_of(d: Decl) -> VarModel {
    VarModel { name: decl_name(d), ctype: ctype_model(d.ctype) }
}

/// What visiting one top-level declaration yields: the surfaced symbol,
/// if any, and the ledger afterwards.
///
/// A function or variable is skipped when its name was surfaced before;
/// otherwise it is surfaced exactly when exported, and only then is its
/// name recorded. A struct is skipped only when a definition with
/// fields was surfaced before; otherwise it is surfaced — forward
/// declarations included — and whether this occurrence carried fields
/// replaces the ledger's answer for its name. Other kinds are ignored.
pub open spec fn decl_step(l: LedgerModel, p: ExportPolicy, d: Decl) -> (Option<SymbolModel>,
    LedgerModel) {
    match d.kind {
        NodeKind::Function => {
            if l.names.contains(decl_name(d)) {
                (None, l)
            } else if exported(p, d) {
                (
                    Some(SymbolModel::Function(fn_model_of(d))),
                    LedgerModel { names: l.names.insert(decl_name(d)), ..l },
                )
            } else {
                (None, l)
            }
        },
        NodeKind::Variable => {
            if l.names.contains(decl_name(d)) {
                (None, l)
            } else if exported(p, d) {
                (
                    Some(SymbolModel::Variable(var_model_of(d))),
                    LedgerModel { names: l.names.insert(decl_name(d)), ..l },
                )
            } else {
                (None, l)
            }
        },
        NodeKind::Struct => {
            if l.structs.contains_key(decl_name(d)) && l.structs[decl_name(d)] {
                (None, l)
            } else {
                (
                    Some(SymbolModel::Struct(struct_model_of(d))),
                    LedgerModel {
                        structs: l.structs.insert(decl_name(d), fields_of(d.children@).len() > 0),
                        ..l
                    },
                )
            }
        },
        _ => (None, l),
    }
}

/// A surfaced symbol as a sequence of zero or one elements.
pub open spec fn opt_seq(s: Option<SymbolModel>) -> Seq<SymbolModel> {
    match s {
        Some(x) => seq![x],
        None => Seq::<SymbolModel>::empty(),
    }
}

/// Visiting a file's declarations in source order: the surfaced symbols
/// and the ledger afterwards.
pub open spec fn decls_step(l: LedgerModel, p: ExportPolicy, ds: Seq<Decl>) -> (Seq<SymbolModel>,
    LedgerModel)
    decreases ds.len(),
{
    if ds.len() == 0 {
        (Seq::<SymbolModel>::empty(), l)
    } else {
        let prior = decls_step(l, p, ds.drop_last());
        let step = decl_step(prior.1, p, ds.last());
        (prior.0 + opt_seq(step.0), step.1)
    }
}

/// What one unit owes: the file's base name and the symbols surfaced
/// while visiting the file.
pub ghost struct UnitPlan {
    pub name: Seq<char>,
    pub symbols: Seq<SymbolModel>,
}

/// Visiting a sequence of files in discovery order: one unit plan per
/// file with the recognized extension, other files ignored, with the
/// ledger threaded through.
pub open spec fn files_step(l: LedgerModel, p: ExportPolicy, fs: Seq<SourceFile>) -> (Seq<UnitPlan>,
    LedgerModel)
    decreases fs.len(),
{
    if fs.len() == 0 {
        (Seq::<UnitPlan>::empty(), l)
    } else {
        let prior = files_step(l, p, fs.drop_last());
        let f = fs.last();
        if is_c_source(f.path@) {
            let stepped = decls_step(prior.1, p, f.decls@);
            (prior.0.push(UnitPlan { name: base_name(f.path@), symbols: stepped.0 }), stepped.1)
        } else {
            prior
        }
    }
}

/// The fragments among the generator's answers, in order.
pub open spec fn somes_of(rs: Seq<Option<proc_macro2::TokenStream>>) -> Seq<
    proc_macro2::TokenStream,
>
    decreases rs.len(),
{
    if rs.len() == 0 {
        Seq::<proc_macro2::TokenStream>::empty()
    } else {
        somes_of(rs.drop_last()) + match rs.last() {
            Some(t) => seq![t],
            None => Seq::<proc_macro2::TokenStream>::empty(),
        }
    }
}

/// A built unit realizes its plan: it carries the planned name, and its
/// tokens concatenate, in order, fragments the generator returned for
/// symbols with exactly the planned models.
pub open spec fn unit_matches<Gen: Fn(Symbol) -> Option<proc_macro2::TokenStream>>(
    plan: UnitPlan,
    unit: TranslationUnit,
    gen: Gen,
) -> bool {
    &&& unit@.name == plan.name
    &&& exists|syms: Seq<Symbol>, rets: Seq<Option<proc_macro2::TokenStream>>|
        #![trigger syms.len(), rets.len()]
        {
            &&& syms.len() == plan.symbols.len()
            &&& rets.len() == plan.symbols.len()
            &&& (forall|j: int| 0 <= j < syms.len() ==> (#[trigger] syms[j])@ == plan.symbols[j])
            &&& (forall|j: int|
                0 <= j < syms.len() ==> call_ensures(gen, (syms[j],), #[trigger] rets[j]))
            &&& (somes_of(rets).len() == 0 ==> stream_is_empty(unit@.tokens))
            &&& (somes_of(rets).len() > 0 ==> unit@.tokens == cat_all(somes_of(rets)))
        }
}

/// Built units realize a sequence of plans, one to one, in order.
pub open spec fn units_follow_plan<Gen: Fn(Symbol) -> Option<proc_macro2::TokenStream>>(
    us: Seq<TranslationUnit>,
    plans: Seq<UnitPlan>,
    gen: Gen,
) -> bool {
    &&& us.len() == plans.len()
    &&& forall|i: int| 0 <= i < us.len() ==> unit_matches(plans[i], #[trigger] us[i], gen)
}

/// What classifying one declaration guarantees: the ledger moved as the
/// model says; nothing came back when nothing was surfaced; and when a
/// symbol was surfaced, the answer is one the generator may give for a
/// symbol with exactly that model.
pub open spec fn classify_post<Gen: Fn(Symbol) -> Option<proc_macro2::TokenStream>>(
    l0: LedgerModel,
    l1: LedgerModel,
    p: ExportPolicy,
    d: Decl,
    gen: Gen,
    r: Option<proc_macro2::TokenStream>,
) -> bool {
    &&& l1 == decl_step(l0, p, d).1
    &&& (decl_step(l0, p, d).0 is None ==> r is None)
    &&& match decl_step(l0, p, d).0 {
        Some(m) => exists|s: Symbol| s@ == m && call_ensures(gen, (s,), r),
        None => true,
    }
}

} // verus!
