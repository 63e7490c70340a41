//! The intermediate representation handed to the user's generator:
//! functions, structs and variables with their semantic type handles,
//! and the per-file translation unit that collects the generated
//! fragments.
use vstd::prelude::*;

verus! {

/// Mathematical value of a semantic type handle: the type's display
/// text and, for function types, the result type's display text.
pub ghost struct CTypeModel {
    pub display: Seq<char>,
    pub result: Option<Seq<char>>,
}

/// A semantic type handle drawn from the front end: the type's display
/// text and, for function types, the result type's display text.
pub struct CType {
    display: String,
    result: Option<String>,
}

impl View for CType {
    type V = CTypeModel;

    closed spec fn view(&self) -> CTypeModel {
        CTypeModel {
            display: self.display@,
            result: match self.result {
                Some(s) => Some(s@),
                None => None,
            },
        }
    }
}

impl CType {
    /// A handle with the given display text; `result` carries the
    /// result type's display text when the handle is a function type.
    pub fn new(display: String, result: Option<String>) -> (r: CType)
        ensures
            r@.display == display@,
            (r@.result is Some <==> result is Some),
            result matches Some(s) ==> r@.result == Some(s@),
    {
        CType { display, result }
    }

    /// The type's display text.
    pub fn get_display_name(&self) -> (r: &str)
        ensures
            r@ == self@.display,
    {
        self.display.as_str()
    }

    /// The display text of the result type, present only on function
    /// types.
    pub fn get_result_type(&self) -> (r: Option<CType>)
        ensures
            (r is Some <==> self@.result is Some),
            r matches Some(t) ==> t@.display == self@.result.unwrap() && t@.result is None,
    {
        match &self.result {
            Some(s) => Some(CType { display: s.clone(), result: None }),
            None => None,
        }
    }
}

impl Clone for CType {
    fn clone(&self) -> (r: Self)
        ensures
            r == *self,
    {
        CType {
            display: self.display.clone(),
            result: match &self.result {
                Some(s) => Some(s.clone()),
                None => None,
            },
        }
    }
}

/// Mathematical value of a named entity with a type: a variable, a
/// function parameter or a struct field.
pub ghost struct VarModel {
    pub name: Seq<char>,
    pub ctype: CTypeModel,
}

/// An exported global variable; also a function parameter or a struct
/// field, which carry the same shape.
pub struct Variable {
    name: String,
    ctype: CType,
}

/// A struct field: a name and a type.
pub type StructField = Variable;

/// A function parameter: a name (empty when unnamed) and a type.
pub type FnParameter = Variable;

impl View for Variable {
    type V = VarModel;

    closed spec fn view(&self) -> VarModel {
        VarModel { name: self.name@, ctype: self.ctype@ }
    }
}

impl Variable {
    pub fn new(name: String, ctype: CType) -> (r: Variable)
        ensures
            r@.name == name@,
            r@.ctype == ctype@,
    {
        Variable { name, ctype }
    }

    /// The entity's name; empty for an unnamed parameter.
    pub fn name(&self) -> (r: &str)
        ensures
            r@ == self@.name,
    {
        self.name.as_str()
    }

    /// The entity's semantic type handle.
    pub fn ctype(&self) -> (r: &CType)
        ensures
            r@ == self@.ctype,
    {
        &self.ctype
    }
}

/// Mathematical value of a function signature.
pub ghost struct FnModel {
    pub name: Seq<char>,
    pub ctype: CTypeModel,
    pub parameters: Seq<VarModel>,
}

/// The views of a parameter or field list.
pub open spec fn vars_view(vars: Seq<Variable>) -> Seq<VarModel> {
    vars.map_values(|v: Variable| v@)
}

/// An exported function: its name, its function type and its
/// parameters in declaration order.
pub struct FnSignature {
    name: String,
    ctype: CType,
    parameters: Vec<FnParameter>,
}

impl View for FnSignature {
    type V = FnModel;

    closed spec fn view(&self) -> FnModel {
        FnModel { name: self.name@, ctype: self.ctype@, parameters: vars_view(self.parameters@) }
    }
}

impl FnSignature {
    pub fn new(name: String, ctype: CType, parameters: Vec<FnParameter>) -> (r: FnSignature)
        ensures
            r@.name == name@,
            r@.ctype == ctype@,
            r@.parameters == vars_view(parameters@),
    {
        FnSignature { name, ctype, parameters }
    }

    /// The function's name.
    pub fn name(&self) -> (r: &str)
        ensures
            r@ == self@.name,
    {
        self.name.as_str()
    }

    /// The function's own semantic type handle.
    pub fn ctype(&self) -> (r: &CType)
        ensures
            r@ == self@.ctype,
    {
        &self.ctype
    }

    /// The parameters, in declaration order.
    pub fn parameters(&self) -> (r: &Vec<FnParameter>)
        ensures
            vars_view(r@) == self@.parameters,
    {
        &self.parameters
    }

    /// The result type, derived from the function's type handle. A
    /// function type always yields one; anything else is a broken
    /// front-end contract, which the caller rules out.
    pub fn result_type(&self) -> (r: CType)
        requires
            self@.ctype.result is Some,
        ensures
            r@.display == self@.ctype.result.unwrap(),
            r@.result is None,
    {
        match self.ctype.get_result_type() {
            Some(t) => t,
            None => unreached(),
        }
    }
}

/// Mathematical value of a struct declaration's surfaced form.
pub ghost struct StructModel {
    pub name: Seq<char>,
    pub ctype: CTypeModel,
    pub fields: Seq<VarModel>,
}

/// A struct: its name, its semantic type handle and its fields in
/// declaration order. An empty field list denotes a forward
/// declaration or an empty aggregate.
pub struct Struct {
    name: String,
    ctype: CType,
    fields: Vec<StructField>,
}

impl View for Struct {
    type V = StructModel;

    closed spec fn view(&self) -> StructModel {
        StructModel { name: self.name@, ctype: self.ctype@, fields: vars_view(self.fields@) }
    }
}

impl Struct {
    pub fn new(name: String, ctype: CType, fields: Vec<StructField>) -> (r: Struct)
        ensures
            r@.name == name@,
            r@.ctype == ctype@,
            r@.fields == vars_view(fields@),
    {
        Struct { name, ctype, fields }
    }

    /// The struct's name.
    pub fn name(&self) -> (r: &str)
        ensures
            r@ == self@.name,
    {
        self.name.as_str()
    }

    /// The struct's semantic type handle.
    pub fn ctype(&self) -> (r: &CType)
        ensures
            r@ == self@.ctype,
    {
        &self.ctype
    }

    /// The fields, in declaration order; empty for a forward
    /// declaration.
    pub fn fields(&self) -> (r: &Vec<StructField>)
        ensures
            vars_view(r@) == self@.fields,
    {
        &self.fields
    }
}

/// Mathematical value of a surfaced symbol.
pub ghost enum SymbolModel {
    Function(FnModel),
    Struct(StructModel),
    Variable(VarModel),
}

/// One surfaced symbol, handed to the user's generator.
pub enum Symbol {
    Function(FnSignature),
    Struct(Struct),
    Variable(Variable),
}

impl View for Symbol {
    type V = SymbolModel;

    open spec fn view(&self) -> SymbolModel {
        match self {
            Symbol::Function(f) => SymbolModel::Function(f@),
            Symbol::Struct(s) => SymbolModel::Struct(s@),
            Symbol::Variable(v) => SymbolModel::Variable(v@),
        }
    }
}

/// proc_macro2's token stream: the fragment type the user's generator
/// returns, declared so contracts can speak of its values.
#[verifier::external_type_specification]
#[verifier::external_body]
pub struct ExTokenStream(proc_macro2::TokenStream);

/// The token stream holding `a`'s tokens followed by `b`'s.
pub uninterp spec fn stream_cat(
    a: proc_macro2::TokenStream,
    b: proc_macro2::TokenStream,
) -> proc_macro2::TokenStream;

/// Whether a token stream holds no tokens.
pub uninterp spec fn stream_is_empty(t: proc_macro2::TokenStream) -> bool;

/// Relies on proc_macro2::TokenStream::new: it returns a stream with no
/// tokens.
#[verifier::external_body]
fn stream_new() -> (r: proc_macro2::TokenStream)
    ensures
        stream_is_empty(r),
{
    proc_macro2::TokenStream::new()
}

/// Relies on proc_macro2::TokenStream's Extend<TokenStream> impl:
/// extending appends the given stream's tokens after the current ones,
/// in order.
#[verifier::external_body]
fn stream_append(acc: &mut proc_macro2::TokenStream, next: proc_macro2::TokenStream)
    ensures
        *final(acc) == stream_cat(*old(acc), next),
{
    acc.extend(core::iter::once(next));
}

/// The concatenation of a nonempty sequence of token streams, in order.
pub open spec fn cat_all(parts: Seq<proc_macro2::TokenStream>) -> proc_macro2::TokenStream
    recommends
        parts.len() > 0,
    decreases parts.len(),
{
    if parts.len() <= 1 {
        parts[0]
    } else {
        stream_cat(cat_all(parts.drop_last()), parts.last())
    }
}

/// Mathematical value of a translation unit: the source file's base
/// name and the concatenated generated fragments.
pub ghost struct UnitModel {
    pub name: Seq<char>,
    pub tokens: proc_macro2::TokenStream,
}

/// The output for one source file: the file's base name and the
/// concatenation, in visitation order, of the fragments the user's
/// generator returned for the file's surfaced symbols.
pub struct TranslationUnit {
    name: String,
    tokens: proc_macro2::TokenStream,
}

impl View for TranslationUnit {
    type V = UnitModel;

    closed spec fn view(&self) -> UnitModel {
        UnitModel { name: self.name@, tokens: self.tokens }
    }
}

impl TranslationUnit {
    /// Build the unit for `file_name` from the fragments collected for
    /// it, concatenated in order. The file name must have a base name,
    /// and not the parent-directory one, or the front end's contract
    /// was broken.
    pub fn new(file_name: &str, tokens: Vec<proc_macro2::TokenStream>) -> (r: TranslationUnit)
        requires
            crate::paths::base_name(file_name@).len() > 0,
            crate::paths::base_name(file_name@) != seq!['.', '.'],
        ensures
            r@.name == crate::paths::base_name(file_name@),
            tokens@.len() == 0 ==> stream_is_empty(r@.tokens),
            tokens@.len() > 0 ==> r@.tokens == cat_all(tokens@),
    {
        let name = crate::paths::base_name_of(file_name);
        let ghost all = tokens@;
        let mut parts = tokens;
        if parts.len() == 0 {
            TranslationUnit { name, tokens: stream_new() }
        } else {
            let mut acc = parts.remove(0);
            proof {
                assert(all.take(1).len() == 1);
                assert(all.take(1)[0] == all[0]);
            }
            while parts.len() > 0
                invariant
                    all.len() > 0,
                    parts@.len() <= all.len() - 1,
                    parts@ == all.skip(all.len() - parts@.len()),
                    acc == cat_all(all.take(all.len() - parts@.len())),
                decreases parts.len(),
            {
                let ghost k = all.len() - parts@.len();
                proof {
                    assert(parts@[0] == all.skip(k)[0]);
                    assert(all.skip(k)[0] == all[k]);
                }
                let next = parts.remove(0);
                stream_append(&mut acc, next);
                proof {
                    assert(parts@ =~= all.skip(k + 1));
                    let pre = all.take(k + 1);
                    assert(pre.len() == k + 1 >= 2);
                    assert(pre.drop_last() =~= all.take(k));
                    assert(pre.last() == all[k]);
                    assert(acc == cat_all(all.take(k + 1)));
                }
            }
            proof {
                assert(all.take(all.len() as int) =~= all);
            }
            TranslationUnit { name, tokens: acc }
        }
    }

    /// The source file's base name.
    pub fn name(&self) -> (r: &str)
        ensures
            r@ == self@.name,
    {
        self.name.as_str()
    }

    /// The concatenated generated fragments.
    pub fn tokens(&self) -> (r: &proc_macro2::TokenStream)
        ensures
            *r == self@.tokens,
    {
        &self.tokens
    }
}

} // verus!
