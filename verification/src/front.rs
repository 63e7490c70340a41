//! The abstract C front end: plain-data declaration nodes as the
//! parser reports them, with the queries the engine reads — kind,
//! name, type handle, visibility and children. The engine is written
//! against this shape, so any parser that can fill it drives the same
//! verified extraction.
use vstd::prelude::*;
use crate::ir::{CType, CTypeModel, VarModel};

verus! {

/// The kind the front end reports for a node.
#[derive(Clone, Copy, PartialEq, Eq, Structural)]
pub enum NodeKind {
    Function,
    Struct,
    Variable,
    Parameter,
    Field,
    DllExport,
    Other,
}

/// A declaration's binding visibility, when the front end knows one.
#[derive(Clone, Copy, PartialEq, Eq, Structural)]
pub enum Visibility {
    Default,
    Hidden,
    Protected,
}

/// A child node of a top-level declaration: a parameter of a function,
/// a field of a struct, or an attribute marker.
pub struct Child {
    pub kind: NodeKind,
    pub name: Option<String>,
    pub ctype: Option<CType>,
}

/// One top-level declaration of a translation unit.
pub struct Decl {
    pub kind: NodeKind,
    pub name: Option<String>,
    pub ctype: Option<CType>,
    pub visibility: Option<Visibility>,
    pub children: Vec<Child>,
}

/// One parsed source file: its path and its top-level declarations in
/// source order.
pub struct SourceFile {
    pub path: String,
    pub decls: Vec<Decl>,
}

/// The text of an optional name; empty when absent, as an unnamed
/// parameter defaults to the empty string.
pub open spec fn text_or_empty(o: Option<String>) -> Seq<char> {
    match o {
        Some(s) => s@,
        None => Seq::<char>::empty(),
    }
}

/// A declaration's name text.
pub open spec fn decl_name(d: Decl) -> Seq<char> {
    text_or_empty(d.name)
}

/// The model of an optional type handle, read only where one is
/// present.
pub open spec fn ctype_model(o: Option<CType>) -> CTypeModel {
    match o {
        Some(c) => c@,
        None => arbitrary(),
    }
}

/// The model a parameter child contributes: its name, empty when
/// unnamed, and its type.
pub open spec fn param_model(c: Child) -> VarModel {
    VarModel { name: text_or_empty(c.name), ctype: ctype_model(c.ctype) }
}

/// The model a field child contributes: its name and its type.
pub open spec fn field_model(c: Child) -> VarModel {
    VarModel { name: text_or_empty(c.name), ctype: ctype_model(c.ctype) }
}

/// The parameters among `cs`, in order.
pub open spec fn params_of(cs: Seq<Child>) -> Seq<VarModel>
    decreases cs.len(),
{
    if cs.len() == 0 {
        Seq::<VarModel>::empty()
    } else if cs.last().kind == NodeKind::Parameter {
        params_of(cs.drop_last()).push(param_model(cs.last()))
    } else {
        params_of(cs.drop_last())
    }
}

/// The fields among `cs`, in order.
pub open spec fn fields_of(cs: Seq<Child>) -> Seq<VarModel>
    decreases cs.len(),
{
    if cs.len() == 0 {
        Seq::<VarModel>::empty()
    } else if cs.last().kind == NodeKind::Field {
        fields_of(cs.drop_last()).push(field_model(cs.last()))
    } else {
        fields_of(cs.drop_last())
    }
}

/// Whether the export policy classifies the declaration as part of the
/// public ABI: default binding visibility under `VisibilityDefault`, an
/// explicit export-attribute child under `DllExportAttribute`. A
/// declaration with no visibility information is not exported.
pub open spec fn exported(p: crate::ExportPolicy, d: Decl) -> bool {
    match p {
        crate::ExportPolicy::VisibilityDefault => d.visibility == Some(Visibility::Default),
        crate::ExportPolicy::DllExportAttribute => exists|i: int|
            0 <= i < d.children@.len() && (#[trigger] d.children@[i]).kind == NodeKind::DllExport,
    }
}

/// What the front end owes for one declaration, by its kind: functions,
/// structs and variables carry a name and a type handle; a function's
/// parameters carry type handles; a struct's fields carry names and
/// type handles. A missing one is a broken front-end contract.
pub open spec fn decl_wf(d: Decl) -> bool {
    match d.kind {
        NodeKind::Function => d.name is Some && d.ctype is Some && forall|i: int|
            0 <= i < d.children@.len() && d.children@[i].kind == NodeKind::Parameter
                ==> (#[trigger] d.children@[i]).ctype is Some,
        NodeKind::Struct => d.name is Some && d.ctype is Some && forall|i: int|
            0 <= i < d.children@.len() && d.children@[i].kind == NodeKind::Field
                ==> (#[trigger] d.children@[i]).name is Some && d.children@[i].ctype is Some,
        NodeKind::Variable => d.name is Some && d.ctype is Some,
        _ => true,
    }
}

/// What the front end owes for one parsed file: well-formed
/// declarations wherever the file will be processed as C source.
pub open spec fn file_wf(f: SourceFile) -> bool {
    crate::paths::is_c_source(f.path@) ==> forall|i: int|
        0 <= i < f.decls@.len() ==> decl_wf(#[trigger] f.decls@[i])
}

} // verus!
