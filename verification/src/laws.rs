//! The stated laws of the traversal, proved of the model the engine's
//! contracts pin its results to: one unit per C source file; an
//! exported function or variable name surfaced exactly once per
//! traversal; the struct forward-declaration merge policy; and
//! determinism of the surfaced structure.
use vstd::prelude::*;
use crate::ExportPolicy;
use crate::front::{decl_name, exported, fields_of, Decl, NodeKind, SourceFile};
use crate::ir::{Symbol, SymbolModel, TranslationUnit, VarModel};
use crate::ledger::{empty_ledger, LedgerModel};
use crate::model::{decl_step, decls_step, files_step, units_follow_plan, UnitPlan};
use crate::paths::{base_name, is_c_source};

verus! {

/// The files a traversal processes: those with the recognized
/// extension, in discovery order.
pub open spec fn c_sources(fs: Seq<SourceFile>) -> Seq<SourceFile>
    decreases fs.len(),
{
    if fs.len() == 0 {
        Seq::<SourceFile>::empty()
    } else if is_c_source(fs.last().path@) {
        c_sources(fs.drop_last()).push(fs.last())
    } else {
        c_sources(fs.drop_last())
    }
}

/// The declarations a traversal visits: those of the processed files,
/// concatenated in visitation order.
pub open spec fn kept_decls(fs: Seq<SourceFile>) -> Seq<Decl>
    decreases fs.len(),
{
    if fs.len() == 0 {
        Seq::<Decl>::empty()
    } else if is_c_source(fs.last().path@) {
        kept_decls(fs.drop_last()) + fs.last().decls@
    } else {
        kept_decls(fs.drop_last())
    }
}

/// Every symbol a traversal surfaces, in order, across its units.
pub open spec fn surfaced_symbols(plans: Seq<UnitPlan>) -> Seq<SymbolModel>
    decreases plans.len(),
{
    if plans.len() == 0 {
        Seq::<SymbolModel>::empty()
    } else {
        surfaced_symbols(plans.drop_last()) + plans.last().symbols
    }
}

/// Visiting two declaration runs in sequence surfaces the two runs'
/// symbols in sequence, with the ledger carried from the first into
/// the second.
pub proof fn lemma_decls_step_concat(
    l: LedgerModel,
    p: ExportPolicy,
    ds1: Seq<Decl>,
    ds2: Seq<Decl>,
)
    ensures
        decls_step(l, p, ds1 + ds2).0 == decls_step(l, p, ds1).0 + decls_step(
            decls_step(l, p, ds1).1,
            p,
            ds2,
        ).0,
        decls_step(l, p, ds1 + ds2).1 == decls_step(decls_step(l, p, ds1).1, p, ds2).1,
    decreases ds2.len(),
{
    if ds2.len() == 0 {
        assert(ds1 + ds2 =~= ds1);
        assert(decls_step(l, p, ds1).0 + decls_step(decls_step(l, p, ds1).1, p, ds2).0
            =~= decls_step(l, p, ds1).0);
    } else {
        lemma_decls_step_concat(l, p, ds1, ds2.drop_last());
        assert((ds1 + ds2).drop_last() =~= ds1 + ds2.drop_last());
        assert((ds1 + ds2).last() == ds2.last());
        let mid = decls_step(l, p, ds1).1;
        assert(decls_step(l, p, ds1 + ds2).0 =~= decls_step(l, p, ds1).0 + decls_step(
            mid,
            p,
            ds2,
        ).0);
    }
}

/// A traversal's surfaced symbols are exactly those of visiting every
/// processed file's declarations in one run.
pub proof fn lemma_files_flatten(l: LedgerModel, p: ExportPolicy, fs: Seq<SourceFile>)
    ensures
        surfaced_symbols(files_step(l, p, fs).0) == decls_step(l, p, kept_decls(fs)).0,
        files_step(l, p, fs).1 == decls_step(l, p, kept_decls(fs)).1,
    decreases fs.len(),
{
    if fs.len() == 0 {
    } else {
        lemma_files_flatten(l, p, fs.drop_last());
        let f = fs.last();
        let prior = files_step(l, p, fs.drop_last());
        if is_c_source(f.path@) {
            lemma_decls_step_concat(l, p, kept_decls(fs.drop_last()), f.decls@);
            let plan = UnitPlan {
                name: base_name(f.path@),
                symbols: decls_step(prior.1, p, f.decls@).0,
            };
            assert(prior.0.push(plan).drop_last() =~= prior.0);
            assert(surfaced_symbols(files_step(l, p, fs).0) =~= decls_step(
                l,
                p,
                kept_decls(fs),
            ).0);
        }
    }
}

/// For every file under the scanned root with the recognized extension
/// exactly one unit is planned, in discovery order, and its name is
/// that file's base name.
pub proof fn lemma_one_unit_per_source_file(l: LedgerModel, p: ExportPolicy, fs: Seq<SourceFile>)
    ensures
        files_step(l, p, fs).0.len() == c_sources(fs).len(),
        forall|i: int|
            0 <= i < c_sources(fs).len() ==> (#[trigger] files_step(l, p, fs).0[i]).name
                == base_name(c_sources(fs)[i].path@),
    decreases fs.len(),
{
    if fs.len() == 0 {
    } else {
        lemma_one_unit_per_source_file(l, p, fs.drop_last());
    }
}

/// A traversal's output holds exactly one unit per file with the
/// recognized extension, in discovery order, and each unit's name is
/// its file's base name.
pub proof fn lemma_units_one_per_source_file<Gen: Fn(Symbol) -> Option<proc_macro2::TokenStream>>(
    p: ExportPolicy,
    fs: Seq<SourceFile>,
    us: Seq<TranslationUnit>,
    gen: Gen,
)
    requires
        units_follow_plan(us, files_step(empty_ledger(), p, fs).0, gen),
    ensures
        us.len() == c_sources(fs).len(),
        forall|i: int|
            0 <= i < us.len() ==> (#[trigger] us[i])@.name == base_name(c_sources(fs)[i].path@),
{
    lemma_one_unit_per_source_file(empty_ledger(), p, fs);
}

/// Whether a surfaced symbol is a function or a variable.
pub open spec fn sym_is_fn_or_var(s: SymbolModel) -> bool {
    s is Function || s is Variable
}

/// A surfaced symbol's name.
pub open spec fn sym_name(s: SymbolModel) -> Seq<char> {
    match s {
        SymbolModel::Function(f) => f.name,
        SymbolModel::Struct(t) => t.name,
        SymbolModel::Variable(v) => v.name,
    }
}

/// How many function or variable symbols named `n` a symbol run holds.
pub open spec fn fn_var_count(syms: Seq<SymbolModel>, n: Seq<char>) -> nat
    decreases syms.len(),
{
    if syms.len() == 0 {
        0
    } else {
        fn_var_count(syms.drop_last(), n) + if sym_is_fn_or_var(syms.last()) && sym_name(
            syms.last(),
        ) == n {
            1nat
        } else {
            0nat
        }
    }
}

/// A declaration that, met with a fresh name, surfaces a function or
/// variable symbol named `n`: a function or variable declaration named
/// `n` that the policy classifies as exported.
pub open spec fn decl_surfaces_name(p: ExportPolicy, d: Decl, n: Seq<char>) -> bool {
    (d.kind == NodeKind::Function || d.kind == NodeKind::Variable) && decl_name(d) == n && exported(
        p,
        d,
    )
}

/// Whether any declaration of the run would surface `n`.
pub open spec fn any_decl_surfaces_name(p: ExportPolicy, ds: Seq<Decl>, n: Seq<char>) -> bool {
    exists|i: int| 0 <= i < ds.len() && #[trigger] decl_surfaces_name(p, ds[i], n)
}

proof fn lemma_any_surfaces_split(p: ExportPolicy, ds: Seq<Decl>, n: Seq<char>)
    requires
        ds.len() > 0,
    ensures
        any_decl_surfaces_name(p, ds, n) <==> (any_decl_surfaces_name(p, ds.drop_last(), n)
            || decl_surfaces_name(p, ds.last(), n)),
{
    if any_decl_surfaces_name(p, ds, n) {
        let i = choose|i: int| 0 <= i < ds.len() && #[trigger] decl_surfaces_name(p, ds[i], n);
        if i < ds.len() - 1 {
            assert(ds.drop_last()[i] == ds[i]);
            assert(decl_surfaces_name(p, ds.drop_last()[i], n));
        }
    }
    if any_decl_surfaces_name(p, ds.drop_last(), n) {
        let i = choose|i: int|
            0 <= i < ds.drop_last().len() && #[trigger] decl_surfaces_name(p, ds.drop_last()[i], n);
        assert(ds[i] == ds.drop_last()[i]);
        assert(decl_surfaces_name(p, ds[i], n));
    }
    if decl_surfaces_name(p, ds.last(), n) {
        assert(decl_surfaces_name(p, ds[ds.len() - 1], n));
    }
}

/// Over one declaration run from a ledger that has not seen `n`: a
/// function or variable symbol named `n` is surfaced exactly once when
/// some exported function or variable declaration carries that name,
/// never otherwise — however often the declaration is repeated — and
/// the ledger remembers `n` exactly in the first case.
pub proof fn lemma_fn_var_once_decls(l: LedgerModel, p: ExportPolicy, ds: Seq<Decl>, n: Seq<char>)
    requires
        !l.names.contains(n),
    ensures
        fn_var_count(decls_step(l, p, ds).0, n) == if any_decl_surfaces_name(p, ds, n) {
            1nat
        } else {
            0nat
        },
        decls_step(l, p, ds).1.names.contains(n) <==> any_decl_surfaces_name(p, ds, n),
    decreases ds.len(),
{
    if ds.len() == 0 {
    } else {
        let ds0 = ds.drop_last();
        let d = ds.last();
        lemma_fn_var_once_decls(l, p, ds0, n);
        lemma_any_surfaces_split(p, ds, n);
        let prior = decls_step(l, p, ds0);
        let step = decl_step(prior.1, p, d);
        match step.0 {
            Some(m) => {
                assert((prior.0 + seq![m]).drop_last() =~= prior.0);
                assert(fn_var_count(decls_step(l, p, ds).0, n) == fn_var_count(prior.0, n) + if
                sym_is_fn_or_var(m) && sym_name(m) == n {
                    1nat
                } else {
                    0nat
                });
            },
            None => {
                assert(prior.0 + crate::model::opt_seq(step.0) =~= prior.0);
            },
        }
    }
}

/// A function or variable name that some exported declaration carries
/// is surfaced to the generator exactly once per traversal, regardless
/// of how many declarations repeat it and of how the declarations are
/// spread over the files.
pub proof fn lemma_exported_name_surfaced_once(p: ExportPolicy, fs: Seq<SourceFile>, n: Seq<char>)
    requires
        any_decl_surfaces_name(p, kept_decls(fs), n),
    ensures
        fn_var_count(surfaced_symbols(files_step(empty_ledger(), p, fs).0), n) == 1,
{
    lemma_files_flatten(empty_ledger(), p, fs);
    lemma_fn_var_once_decls(empty_ledger(), p, kept_decls(fs), n);
}

/// The field lists of the struct declarations named `n` a run holds,
/// in order: one entry per occurrence, empty for a forward
/// declaration.
pub open spec fn struct_occurrences(ds: Seq<Decl>, n: Seq<char>) -> Seq<Seq<VarModel>>
    decreases ds.len(),
{
    if ds.len() == 0 {
        Seq::<Seq<VarModel>>::empty()
    } else if ds.last().kind == NodeKind::Struct && decl_name(ds.last()) == n {
        struct_occurrences(ds.drop_last(), n).push(fields_of(ds.last().children@))
    } else {
        struct_occurrences(ds.drop_last(), n)
    }
}

/// The field lists of the struct symbols named `n` a symbol run holds,
/// in order.
pub open spec fn surfaced_struct_fields(syms: Seq<SymbolModel>, n: Seq<char>) -> Seq<Seq<VarModel>>
    decreases syms.len(),
{
    if syms.len() == 0 {
        Seq::<Seq<VarModel>>::empty()
    } else {
        let rest = surfaced_struct_fields(syms.drop_last(), n);
        match syms.last() {
            SymbolModel::Struct(t) => if t.name == n {
                rest.push(t.fields)
            } else {
                rest
            },
            _ => rest,
        }
    }
}

/// Whether some occurrence carries fields, that is, defines the
/// struct.
pub open spec fn has_defining(occ: Seq<Seq<VarModel>>) -> bool {
    exists|i: int| 0 <= i < occ.len() && (#[trigger] occ[i]).len() > 0
}

/// The occurrences the merge policy lets through: every one up to and
/// including the first that carries fields; all of them when none
/// does.
pub open spec fn merge_cut(occ: Seq<Seq<VarModel>>) -> Seq<Seq<VarModel>>
    decreases occ.len(),
{
    if occ.len() == 0 {
        Seq::<Seq<VarModel>>::empty()
    } else if has_defining(occ.drop_last()) {
        merge_cut(occ.drop_last())
    } else {
        merge_cut(occ.drop_last()).push(occ.last())
    }
}

/// Whether the ledger remembers a surfaced definition with fields for
/// this struct name.
pub open spec fn struct_known_defined(l: LedgerModel, n: Seq<char>) -> bool {
    l.structs.contains_key(n) && l.structs[n]
}

proof fn lemma_has_defining_split(occ: Seq<Seq<VarModel>>)
    requires
        occ.len() > 0,
    ensures
        has_defining(occ) <==> (has_defining(occ.drop_last()) || occ.last().len() > 0),
{
    if has_defining(occ) {
        let i = choose|i: int| 0 <= i < occ.len() && (#[trigger] occ[i]).len() > 0;
        if i < occ.len() - 1 {
            assert(occ.drop_last()[i] == occ[i]);
            assert(occ.drop_last()[i].len() > 0);
        }
    }
    if has_defining(occ.drop_last()) {
        let i = choose|i: int| 0 <= i < occ.drop_last().len() && (#[trigger] occ.drop_last()[i]).len() > 0;
        assert(occ[i] == occ.drop_last()[i]);
        assert(occ[i].len() > 0);
    }
    if occ.last().len() > 0 {
        assert(occ[occ.len() - 1].len() > 0);
    }
}

/// The struct forward-declaration merge policy, over one declaration
/// run. From a ledger that already remembers a definition of `n`, no
/// struct named `n` is surfaced again. From one that does not, the
/// occurrences surfaced are exactly every one up to and including the
/// first that carries fields — all of them when none does — and the
/// ledger afterwards remembers a definition exactly when one occurred.
pub proof fn lemma_struct_merge_decls(l: LedgerModel, p: ExportPolicy, ds: Seq<Decl>, n: Seq<char>)
    ensures
        struct_known_defined(l, n) ==> surfaced_struct_fields(decls_step(l, p, ds).0, n) == Seq::<
            Seq<VarModel>,
        >::empty() && struct_known_defined(decls_step(l, p, ds).1, n),
        !struct_known_defined(l, n) ==> surfaced_struct_fields(decls_step(l, p, ds).0, n)
            == merge_cut(struct_occurrences(ds, n)) && (struct_known_defined(
            decls_step(l, p, ds).1,
            n,
        ) <==> has_defining(struct_occurrences(ds, n))),
    decreases ds.len(),
{
    if ds.len() == 0 {
    } else {
        let ds0 = ds.drop_last();
        let d = ds.last();
        lemma_struct_merge_decls(l, p, ds0, n);
        let prior = decls_step(l, p, ds0);
        let step = decl_step(prior.1, p, d);
        let occ0 = struct_occurrences(ds0, n);
        let occ = struct_occurrences(ds, n);
        if d.kind == NodeKind::Struct && decl_name(d) == n {
            assert(occ.drop_last() =~= occ0);
            lemma_has_defining_split(occ);
        } else {
            assert(occ =~= occ0);
        }
        match step.0 {
            Some(m) => {
                assert((prior.0 + seq![m]).drop_last() =~= prior.0);
                assert(decls_step(l, p, ds).0.last() == m);
            },
            None => {
                assert(prior.0 + crate::model::opt_seq(step.0) =~= prior.0);
            },
        }
    }
}

/// A struct declared only once, as a forward declaration that is never
/// defined, is surfaced exactly once, with an empty field list.
pub proof fn lemma_forward_only_struct(p: ExportPolicy, fs: Seq<SourceFile>, n: Seq<char>)
    requires
        struct_occurrences(kept_decls(fs), n) == seq![Seq::<VarModel>::empty()],
    ensures
        surfaced_struct_fields(surfaced_symbols(files_step(empty_ledger(), p, fs).0), n) == seq![
            Seq::<VarModel>::empty(),
        ],
{
    lemma_files_flatten(empty_ledger(), p, fs);
    lemma_struct_merge_decls(empty_ledger(), p, kept_decls(fs), n);
    let occ = struct_occurrences(kept_decls(fs), n);
    let none = Seq::<Seq<VarModel>>::empty();
    assert(occ.drop_last() =~= none);
    assert(merge_cut(none) == none);
    assert(!has_defining(none));
    assert(merge_cut(occ) == merge_cut(none).push(occ.last()));
    assert(merge_cut(occ) =~= seq![Seq::<VarModel>::empty()]);
}

/// A struct forward-declared and later fully defined — in the same
/// file or a different one — is surfaced twice: first with the empty
/// field list, then with the complete one, in that order.
pub proof fn lemma_forward_then_defined_struct(
    p: ExportPolicy,
    fs: Seq<SourceFile>,
    n: Seq<char>,
    fields: Seq<VarModel>,
)
    requires
        struct_occurrences(kept_decls(fs), n) == seq![Seq::<VarModel>::empty(), fields],
        fields.len() > 0,
    ensures
        surfaced_struct_fields(surfaced_symbols(files_step(empty_ledger(), p, fs).0), n) == seq![
            Seq::<VarModel>::empty(),
            fields,
        ],
{
    lemma_files_flatten(empty_ledger(), p, fs);
    lemma_struct_merge_decls(empty_ledger(), p, kept_decls(fs), n);
    let occ = struct_occurrences(kept_decls(fs), n);
    let none = Seq::<Seq<VarModel>>::empty();
    let first = seq![Seq::<VarModel>::empty()];
    assert(occ.drop_last() =~= first);
    assert(!has_defining(first));
    assert(first.drop_last() =~= none);
    assert(merge_cut(none) == none);
    assert(!has_defining(none));
    assert(merge_cut(first) == merge_cut(none).push(first.last()));
    assert(merge_cut(occ) == merge_cut(first).push(occ.last()));
    assert(merge_cut(occ) =~= seq![Seq::<VarModel>::empty(), fields]);
}

/// A struct fully defined and later forward-declared again is surfaced
/// exactly once: only the definition reaches the generator.
pub proof fn lemma_defined_then_forward_struct(
    p: ExportPolicy,
    fs: Seq<SourceFile>,
    n: Seq<char>,
    fields: Seq<VarModel>,
)
    requires
        struct_occurrences(kept_decls(fs), n) == seq![fields, Seq::<VarModel>::empty()],
        fields.len() > 0,
    ensures
        surfaced_struct_fields(surfaced_symbols(files_step(empty_ledger(), p, fs).0), n) == seq![
            fields,
        ],
{
    lemma_files_flatten(empty_ledger(), p, fs);
    lemma_struct_merge_decls(empty_ledger(), p, kept_decls(fs), n);
    let occ = struct_occurrences(kept_decls(fs), n);
    let none = Seq::<Seq<VarModel>>::empty();
    let first = seq![fields];
    assert(occ.drop_last() =~= first);
    assert(first[0].len() > 0);
    assert(has_defining(first));
    assert(first.drop_last() =~= none);
    assert(merge_cut(none) == none);
    assert(!has_defining(none));
    assert(merge_cut(first) == merge_cut(none).push(first.last()));
    assert(merge_cut(occ) == merge_cut(first));
    assert(merge_cut(occ) =~= seq![fields]);
}

/// Given the same export policy and the same files in the same
/// discovery order, two independent traversals produce structurally
/// identical output: the same unit names over one shared plan, whose
/// surfaced symbol models are fixed by policy and files alone; only
/// the fragments differ, as the two generators' answers do.
pub proof fn lemma_traversal_deterministic<G1, G2>(
    p: ExportPolicy,
    fs: Seq<SourceFile>,
    us1: Seq<TranslationUnit>,
    us2: Seq<TranslationUnit>,
    g1: G1,
    g2: G2,
) where
    G1: Fn(Symbol) -> Option<proc_macro2::TokenStream>,
    G2: Fn(Symbol) -> Option<proc_macro2::TokenStream>,

    requires
        units_follow_plan(us1, files_step(empty_ledger(), p, fs).0, g1),
        units_follow_plan(us2, files_step(empty_ledger(), p, fs).0, g2),
    ensures
        us1.len() == us2.len(),
        forall|i: int| 0 <= i < us1.len() ==> (#[trigger] us1[i])@.name == us2[i]@.name,
{
}

} // verus!
