//! A C-header symbol extraction and code-generation driver.
//!
//! The engine classifies the top-level declarations of parsed C
//! translation units, keeps a per-traversal ledger so each exported
//! function or variable name is surfaced once and struct forward
//! declarations merge with their definitions, hands each surfaced
//! symbol to a caller-supplied generator, and assembles the returned
//! fragments into one output unit per source file.
use vstd::prelude::*;
use vstd::string::StringExecFns;

pub mod front;
pub mod ir;
pub mod laws;
pub mod ledger;
pub mod model;
pub mod paths;

use crate::front::{decl_wf, file_wf, Decl, NodeKind, SourceFile, Visibility};
use crate::ir::{vars_view, CType, FnParameter, FnSignature, StructField, Symbol, SymbolModel,
    TranslationUnit, Variable};
use crate::ledger::{empty_ledger, Ledger};
use crate::model::{classify_post, decl_step, decls_step, files_step, fn_model_of, somes_of,
    struct_model_of, unit_matches, units_follow_plan, var_model_of, UnitPlan};
use crate::paths::{base_name, has_c_extension};

verus! {

/// Drives extraction: holds the compiler flags handed to the front end
/// and the export policy picked for the target platform.
pub struct Generator {
    arguments: Vec<String>,
    policy: ExportPolicy,
}

/// How a declaration's public visibility is judged: by default binding
/// visibility (ELF and Mach-O style targets), or by an explicit export
/// attribute on the declaration (PE/COFF style targets).
#[derive(Clone, Copy, PartialEq, Eq, Structural, Debug)]
pub enum ExportPolicy {
    VisibilityDefault,
    DllExportAttribute,
}

/// Mathematical value of a generator: the accumulated flag texts, in
/// order, and the export policy in force.
pub ghost struct GeneratorModel {
    pub arguments: Seq<Seq<char>>,
    pub policy: ExportPolicy,
}

/// The views of the flag strings a generator has accumulated.
pub open spec fn args_view(args: Seq<String>) -> Seq<Seq<char>> {
    args.map_values(|s: String| s@)
}

impl View for Generator {
    type V = GeneratorModel;

    closed spec fn view(&self) -> GeneratorModel {
        GeneratorModel { arguments: args_view(self.arguments@), policy: self.policy }
    }
}

impl Generator {
    /// A generator with no flags, judging exports by binding visibility.
    pub fn new() -> (r: Generator)
        ensures
            r@.arguments.len() == 0,
            r@.policy == ExportPolicy::VisibilityDefault,
    {
        Generator { arguments: Vec::new(), policy: ExportPolicy::VisibilityDefault }
    }

    /// The flags accumulated so far, passed verbatim to the front end.
    pub fn arguments(&self) -> (r: &Vec<String>)
        ensures
            args_view(r@) == self@.arguments,
    {
        &self.arguments
    }

    /// The export policy in force.
    pub fn policy(&self) -> (r: ExportPolicy)
        ensures
            r == self@.policy,
    {
        self.policy
    }

    /// Swap the export policy, so the visibility probe matches the
    /// target platform.
    pub fn export_policy(&mut self, policy: ExportPolicy) -> (r: &mut Self)
        ensures
            r@.arguments == old(self)@.arguments,
            r@.policy == policy,
            *final(self) == *final(r),
    {
        self.policy = policy;
        self
    }

    /// Add one raw compiler flag.
    pub fn c_flag(&mut self, flag: String) -> (r: &mut Self)
        ensures
            r@.arguments == old(self)@.arguments.push(flag@),
            r@.policy == old(self)@.policy,
            *final(self) == *final(r),
    {
        proof {
            lemma_args_view_push(self.arguments@, flag);
        }
        self.arguments.push(flag);
        self
    }

    /// Add several raw compiler flags, in order.
    pub fn c_flags(&mut self, flags: &Vec<String>) -> (r: &mut Self)
        ensures
            r@.arguments == old(self)@.arguments + args_view(flags@),
            r@.policy == old(self)@.policy,
            *final(self) == *final(r),
    {
        let mut i: usize = 0;
        while i < flags.len()
            invariant
                i <= flags.len(),
                self@.policy == old(self)@.policy,
                self@.arguments == old(self)@.arguments + args_view(flags@.take(i as int)),
            decreases flags.len() - i,
        {
            proof {
                lemma_args_view_push(self.arguments@, flags@[i as int]);
            }
            self.arguments.push(flags[i].clone());
            proof {
                assert(args_view(flags@.take(i + 1)) =~= args_view(flags@.take(i as int)).push(
                    flags@[i as int]@,
                ));
                assert(self@.arguments =~= old(self)@.arguments + args_view(flags@.take(i + 1)));
            }
            i = i + 1;
        }
        proof {
            assert(flags@.take(flags@.len() as int) =~= flags@);
        }
        self
    }

    /// Add an include directory: the flag `-I<dir>`.
    pub fn include_directory(&mut self, dir: &str) -> (r: &mut Self)
        ensures
            r@.arguments == old(self)@.arguments.push("-I"@ + dir@),
            r@.policy == old(self)@.policy,
            *final(self) == *final(r),
    {
        let flag = String::from_str("-I").concat(dir);
        self.c_flag(flag)
    }

    /// Add a system include directory: the flag `-isystem <dir>`.
    pub fn system_include_directory(&mut self, dir: &str) -> (r: &mut Self)
        ensures
            r@.arguments == old(self)@.arguments.push("-isystem "@ + dir@),
            r@.policy == old(self)@.policy,
            *final(self) == *final(r),
    {
        let flag = String::from_str("-isystem ").concat(dir);
        self.c_flag(flag)
    }

    /// Define a macro with no value: the flag `-D<macro>`.
    pub fn define(&mut self, c_macro: &str) -> (r: &mut Self)
        ensures
            r@.arguments == old(self)@.arguments.push("-D"@ + c_macro@),
            r@.policy == old(self)@.policy,
            *final(self) == *final(r),
    {
        let flag = String::from_str("-D").concat(c_macro);
        self.c_flag(flag)
    }

    /// Define a macro with a value: the flag `-D<macro>=<value>`.
    pub fn define_value(&mut self, c_macro: &str, macro_value: &str) -> (r: &mut Self)
        ensures
            r@.arguments == old(self)@.arguments.push("-D"@ + c_macro@ + "="@ + macro_value@),
            r@.policy == old(self)@.policy,
            *final(self) == *final(r),
    {
        let flag = String::from_str("-D").concat(c_macro).concat("=").concat(macro_value);
        self.c_flag(flag)
    }

    /// Drop every accumulated flag.
    pub fn clear_arguments(&mut self) -> (r: &mut Self)
        ensures
            r@.arguments.len() == 0,
            r@.policy == old(self)@.policy,
            *final(self) == *final(r),
    {
        self.arguments.clear();
        self
    }
}

impl Generator {
    /// Whether the export policy in force classifies this declaration
    /// as part of the public ABI.
    fn is_exported(&self, decl: &Decl) -> (r: bool)
        ensures
            r == crate::front::exported(self@.policy, *decl),
    {
        match self.policy {
            ExportPolicy::VisibilityDefault => match &decl.visibility {
                Some(v) => *v == Visibility::Default,
                None => false,
            },
            ExportPolicy::DllExportAttribute => {
                let mut i: usize = 0;
                while i < decl.children.len()
                    invariant
                        i <= decl.children@.len(),
                        self@.policy == ExportPolicy::DllExportAttribute,
                        forall|k: int|
                            0 <= k < i ==> (#[trigger] decl.children@[k]).kind
                                != NodeKind::DllExport,
                    decreases decl.children@.len() - i,
                {
                    if decl.children[i].kind == NodeKind::DllExport {
                        proof {
                            let w = i as int;
                            assert(0 <= w < decl.children@.len() && decl.children@[w].kind
                                == NodeKind::DllExport);
                        }
                        return true;
                    }
                    i = i + 1;
                }
                false
            },
        }
    }

    /// Visit one function declaration: skip it when its name was
    /// surfaced or it is not exported; otherwise record the name,
    /// build the signature with its parameters in declaration order,
    /// and hand it to the generator.
    fn generate_fn<Gen>(&self, ledger: &mut Ledger, decl: &Decl, user_gen: &Gen) -> (r: Option<
        proc_macro2::TokenStream,
    >) where Gen: Fn(Symbol) -> Option<proc_macro2::TokenStream>
        requires
            decl.kind == NodeKind::Function,
            decl_wf(*decl),
            forall|s: Symbol| call_requires(*user_gen, (s,)),
        ensures
            classify_post(old(ledger)@, final(ledger)@, self@.policy, *decl, *user_gen, r),
    {
        let fn_name: &String = match &decl.name {
            Some(n) => n,
            None => unreached(),
        };
        if ledger.contains_name(fn_name) {
            return None;
        }
        let is_exported = self.is_exported(decl);
        let mut parameters: Vec<FnParameter> = Vec::new();
        let mut i: usize = 0;
        while i < decl.children.len()
            invariant
                i <= decl.children@.len(),
                decl.kind == NodeKind::Function,
                decl_wf(*decl),
                vars_view(parameters@) == crate::front::params_of(decl.children@.take(i as int)),
            decreases decl.children@.len() - i,
        {
            let child = &decl.children[i];
            if child.kind == NodeKind::Parameter {
                proof {
                    assert(decl.children@[i as int].ctype is Some);
                }
                let prm_name: String = match &child.name {
                    Some(n) => n.clone(),
                    None => String::new(),
                };
                let prm_type: CType = match &child.ctype {
                    Some(c) => c.clone(),
                    None => unreached(),
                };
                parameters.push(Variable::new(prm_name, prm_type));
            }
            proof {
                let pre = decl.children@.take(i + 1);
                assert(pre.drop_last() =~= decl.children@.take(i as int));
                assert(pre.last() == decl.children@[i as int]);
                assert(vars_view(parameters@) =~= crate::front::params_of(pre));
            }
            i = i + 1;
        }
        proof {
            assert(decl.children@.take(decl.children@.len() as int) =~= decl.children@);
        }
        if is_exported {
            ledger.record_name(fn_name.clone());
            let fn_type: CType = match &decl.ctype {
                Some(c) => c.clone(),
                None => unreached(),
            };
            let signature = FnSignature::new(fn_name.clone(), fn_type, parameters);
            let symbol = Symbol::Function(signature);
            let ghost witness = symbol;
            proof {
                assert(witness@ == SymbolModel::Function(fn_model_of(*decl)));
            }
            let res = user_gen(symbol);
            proof {
                assert(call_ensures(*user_gen, (witness,), res));
            }
            res
        } else {
            None
        }
    }

    /// Visit one struct declaration: skip it when a definition with
    /// fields was already surfaced for its name; otherwise collect its
    /// fields in declaration order, record whether this occurrence
    /// carried any, and hand the struct — forward declarations
    /// included — to the generator.
    fn generate_struct<Gen>(&self, ledger: &mut Ledger, decl: &Decl, user_gen: &Gen) -> (r: Option<
        proc_macro2::TokenStream,
    >) where Gen: Fn(Symbol) -> Option<proc_macro2::TokenStream>
        requires
            decl.kind == NodeKind::Struct,
            decl_wf(*decl),
            forall|s: Symbol| call_requires(*user_gen, (s,)),
        ensures
            classify_post(old(ledger)@, final(ledger)@, self@.policy, *decl, *user_gen, r),
    {
        let struct_name: &String = match &decl.name {
            Some(n) => n,
            None => unreached(),
        };
        if ledger.struct_defined(struct_name) {
            return None;
        }
        let mut fields: Vec<StructField> = Vec::new();
        let mut i: usize = 0;
        while i < decl.children.len()
            invariant
                i <= decl.children@.len(),
                decl.kind == NodeKind::Struct,
                decl_wf(*decl),
                vars_view(fields@) == crate::front::fields_of(decl.children@.take(i as int)),
            decreases decl.children@.len() - i,
        {
            let child = &decl.children[i];
            if child.kind == NodeKind::Field {
                proof {
                    assert(decl.children@[i as int].name is Some);
                    assert(decl.children@[i as int].ctype is Some);
                }
                let fld_name: String = match &child.name {
                    Some(n) => n.clone(),
                    None => unreached(),
                };
                let fld_type: CType = match &child.ctype {
                    Some(c) => c.clone(),
                    None => unreached(),
                };
                fields.push(Variable::new(fld_name, fld_type));
            }
            proof {
                let pre = decl.children@.take(i + 1);
                assert(pre.drop_last() =~= decl.children@.take(i as int));
                assert(pre.last() == decl.children@[i as int]);
                assert(vars_view(fields@) =~= crate::front::fields_of(pre));
            }
            i = i + 1;
        }
        proof {
            assert(decl.children@.take(decl.children@.len() as int) =~= decl.children@);
        }
        ledger.record_struct(struct_name.clone(), fields.len() > 0);
        let struct_type: CType = match &decl.ctype {
            Some(c) => c.clone(),
            None => unreached(),
        };
        let struct_obj = crate::ir::Struct::new(struct_name.clone(), struct_type, fields);
        let symbol = Symbol::Struct(struct_obj);
        let ghost witness = symbol;
        proof {
            assert(witness@ == SymbolModel::Struct(struct_model_of(*decl)));
        }
        let res = user_gen(symbol);
        proof {
            assert(call_ensures(*user_gen, (witness,), res));
        }
        res
    }

    /// Visit one variable declaration: skip it when its name was
    /// surfaced or it is not exported; otherwise record the name and
    /// hand the variable to the generator.
    fn generate_var<Gen>(&self, ledger: &mut Ledger, decl: &Decl, user_gen: &Gen) -> (r: Option<
        proc_macro2::TokenStream,
    >) where Gen: Fn(Symbol) -> Option<proc_macro2::TokenStream>
        requires
            decl.kind == NodeKind::Variable,
            decl_wf(*decl),
            forall|s: Symbol| call_requires(*user_gen, (s,)),
        ensures
            classify_post(old(ledger)@, final(ledger)@, self@.policy, *decl, *user_gen, r),
    {
        let var_name: &String = match &decl.name {
            Some(n) => n,
            None => unreached(),
        };
        if ledger.contains_name(var_name) {
            return None;
        }
        let is_exported = self.is_exported(decl);
        if is_exported {
            ledger.record_name(var_name.clone());
            let var_type: CType = match &decl.ctype {
                Some(c) => c.clone(),
                None => unreached(),
            };
            let var = Variable::new(var_name.clone(), var_type);
            let symbol = Symbol::Variable(var);
            let ghost witness = symbol;
            proof {
                assert(witness@ == SymbolModel::Variable(var_model_of(*decl)));
            }
            let res = user_gen(symbol);
            proof {
                assert(call_ensures(*user_gen, (witness,), res));
            }
            res
        } else {
            None
        }
    }

    /// Visit one parsed file: classify its top-level declarations in
    /// source order, collect the fragments the generator returns, and
    /// build the file's translation unit — also when no fragment was
    /// produced, since an empty unit records that the file was scanned.
    pub fn generate_for_file<Gen>(
        &self,
        ledger: &mut Ledger,
        file: &SourceFile,
        user_gen: &Gen,
    ) -> (unit: TranslationUnit) where Gen: Fn(Symbol) -> Option<proc_macro2::TokenStream>
        requires
            forall|i: int| 0 <= i < file.decls@.len() ==> decl_wf(#[trigger] file.decls@[i]),
            base_name(file.path@).len() > 0,
            base_name(file.path@) != seq!['.', '.'],
            forall|s: Symbol| call_requires(*user_gen, (s,)),
        ensures
            final(ledger)@ == decls_step(old(ledger)@, self@.policy, file.decls@).1,
            unit_matches(
                (UnitPlan {
                    name: base_name(file.path@),
                    symbols: decls_step(old(ledger)@, self@.policy, file.decls@).0,
                }),
                unit,
                *user_gen,
            ),
    {
        let mut fragments: Vec<proc_macro2::TokenStream> = Vec::new();
        let ghost mut gsyms: Seq<Symbol> = Seq::empty();
        let ghost mut grets: Seq<Option<proc_macro2::TokenStream>> = Seq::empty();
        let mut i: usize = 0;
        proof {
            assert(file.decls@.take(0) =~= Seq::<Decl>::empty());
        }
        while i < file.decls.len()
            invariant
                i <= file.decls@.len(),
                forall|k: int| 0 <= k < file.decls@.len() ==> decl_wf(#[trigger] file.decls@[k]),
                forall|s: Symbol| call_requires(*user_gen, (s,)),
                ledger@ == decls_step(old(ledger)@, self@.policy, file.decls@.take(i as int)).1,
                gsyms.len() == decls_step(
                    old(ledger)@,
                    self@.policy,
                    file.decls@.take(i as int),
                ).0.len(),
                forall|j: int|
                    0 <= j < gsyms.len() ==> (#[trigger] gsyms[j])@ == decls_step(
                        old(ledger)@,
                        self@.policy,
                        file.decls@.take(i as int),
                    ).0[j],
                grets.len() == gsyms.len(),
                forall|j: int|
                    0 <= j < gsyms.len() ==> call_ensures(
                        *user_gen,
                        (gsyms[j],),
                        #[trigger] grets[j],
                    ),
                fragments@ == somes_of(grets),
            decreases file.decls@.len() - i,
        {
            let ghost l_before = ledger@;
            let ghost syms_before = decls_step(
                old(ledger)@,
                self@.policy,
                file.decls@.take(i as int),
            ).0;
            let d = &file.decls[i];
            let opt: Option<proc_macro2::TokenStream> = match d.kind {
                NodeKind::Function => self.generate_fn(ledger, d, user_gen),
                NodeKind::Struct => self.generate_struct(ledger, d, user_gen),
                NodeKind::Variable => self.generate_var(ledger, d, user_gen),
                _ => None,
            };
            let ghost answer = opt;
            let ghost fragments0 = fragments@;
            let ghost gsyms0 = gsyms;
            let ghost grets0 = grets;
            match opt {
                Some(t) => fragments.push(t),
                None => {},
            }
            proof {
                assert(classify_post(l_before, ledger@, self@.policy, *d, *user_gen, answer));
                let pre = file.decls@.take(i + 1);
                assert(pre.drop_last() =~= file.decls@.take(i as int));
                assert(pre.last() == file.decls@[i as int]);
                let step = decl_step(l_before, self@.policy, *d);
                if step.0 is Some {
                    let s = choose|s: Symbol|
                        s@ == step.0.unwrap() && call_ensures(*user_gen, (s,), answer);
                    gsyms = gsyms0.push(s);
                    grets = grets0.push(answer);
                    assert(grets.drop_last() =~= grets0);
                    assert(decls_step(old(ledger)@, self@.policy, pre).0 =~= syms_before.push(
                        step.0.unwrap(),
                    ));
                    match answer {
                        Some(t) => {
                            assert(somes_of(grets) == somes_of(grets0) + seq![t]);
                            assert(fragments@ =~= fragments0.push(t));
                            assert(fragments@ =~= somes_of(grets));
                        },
                        None => {
                            assert(somes_of(grets) =~= somes_of(grets0));
                        },
                    }
                } else {
                    assert(answer is None);
                    assert(decls_step(old(ledger)@, self@.policy, pre).0 =~= syms_before);
                }
            }
            i = i + 1;
        }
        proof {
            assert(file.decls@.take(file.decls@.len() as int) =~= file.decls@);
        }
        let unit = TranslationUnit::new(file.path.as_str(), fragments);
        proof {
            let plan = UnitPlan {
                name: base_name(file.path@),
                symbols: decls_step(old(ledger)@, self@.policy, file.decls@).0,
            };
            assert(gsyms.len() == plan.symbols.len() && grets.len() == plan.symbols.len() && (
            forall|j: int| 0 <= j < gsyms.len() ==> (#[trigger] gsyms[j])@ == plan.symbols[j]) && (
            forall|j: int|
                0 <= j < gsyms.len() ==> call_ensures(*user_gen, (gsyms[j],), #[trigger] grets[j])));
            assert(unit_matches(plan, unit, *user_gen));
        }
        unit
    }

    /// Visit the given files in order: one translation unit per file
    /// with the recognized C source extension, other files ignored,
    /// with the ledger threaded through the whole traversal.
    pub fn generate_units_helper<Gen>(
        &self,
        ledger: &mut Ledger,
        files: &Vec<SourceFile>,
        user_gen: &Gen,
    ) -> (units: Vec<TranslationUnit>) where Gen: Fn(Symbol) -> Option<proc_macro2::TokenStream>
        requires
            forall|i: int| 0 <= i < files@.len() ==> file_wf(#[trigger] files@[i]),
            forall|s: Symbol| call_requires(*user_gen, (s,)),
        ensures
            final(ledger)@ == files_step(old(ledger)@, self@.policy, files@).1,
            units_follow_plan(units@, files_step(old(ledger)@, self@.policy, files@).0, *user_gen),
    {
        let mut units: Vec<TranslationUnit> = Vec::new();
        let mut i: usize = 0;
        proof {
            assert(files@.take(0) =~= Seq::<SourceFile>::empty());
        }
        while i < files.len()
            invariant
                i <= files@.len(),
                forall|k: int| 0 <= k < files@.len() ==> file_wf(#[trigger] files@[k]),
                forall|s: Symbol| call_requires(*user_gen, (s,)),
                ledger@ == files_step(old(ledger)@, self@.policy, files@.take(i as int)).1,
                units_follow_plan(
                    units@,
                    files_step(old(ledger)@, self@.policy, files@.take(i as int)).0,
                    *user_gen,
                ),
            decreases files@.len() - i,
        {
            proof {
                let pre = files@.take(i + 1);
                assert(pre.drop_last() =~= files@.take(i as int));
                assert(pre.last() == files@[i as int]);
            }
            let f = &files[i];
            if has_c_extension(f.path.as_str()) {
                let unit = self.generate_for_file(ledger, f, user_gen);
                units.push(unit);
            }
            i = i + 1;
        }
        proof {
            assert(files@.take(files@.len() as int) =~= files@);
        }
        units
    }

    /// Run one traversal over the given files, with a ledger of its
    /// own created for the call and discarded with it: hand each
    /// surfaced symbol to `user_gen` and return one translation unit
    /// per C source file, in discovery order.
    pub fn generate<Gen>(&self, files: &Vec<SourceFile>, user_gen: &Gen) -> (units: Vec<
        TranslationUnit,
    >) where Gen: Fn(Symbol) -> Option<proc_macro2::TokenStream>
        requires
            forall|i: int| 0 <= i < files@.len() ==> file_wf(#[trigger] files@[i]),
            forall|s: Symbol| call_requires(*user_gen, (s,)),
        ensures
            units_follow_plan(units@, files_step(empty_ledger(), self@.policy, files@).0, *user_gen),
    {
        let mut ledger = Ledger::new();
        self.generate_units_helper(&mut ledger, files, user_gen)
    }
}

proof fn lemma_args_view_push(args: Seq<String>, s: String)
    ensures
        args_view(args.push(s)) == args_view(args).push(s@),
{
    assert(args_view(args.push(s)) =~= args_view(args).push(s@));
}

} // verus!
