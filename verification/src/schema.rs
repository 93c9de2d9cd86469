//! The schema data model: definitions, parameters and type references, as the
//! generator and the analyzer consume them, together with the predicates that
//! both emitters share (built-in types, capability gating).

use vstd::prelude::*;

verus! {

/// Category of a schema definition: a data shape or a callable operation.
#[derive(Clone, Copy, PartialEq, Eq, Structural, Debug)]
pub enum Category {
    /// A data-shape definition, emitted as a structure.
    Types,
    /// A callable-operation definition, emitted as a function.
    Functions,
}

/// A schema type reference. The sequence wrapper of the schema (`vector<T>`,
/// possibly nested) is recorded as the nesting depth around the base name, so
/// `vector<vector<chat>>` has base name `chat` and depth two.
#[derive(Clone, Debug)]
pub struct TypeRef {
    /// The base type name.
    pub name: String,
    /// How many sequence wrappers surround the base name.
    pub vector_depth: u32,
}

/// Mathematical model of a type reference.
pub struct TypeRefV {
    pub name: Seq<char>,
    pub vector_depth: nat,
}

impl View for TypeRef {
    type V = TypeRefV;

    open spec fn view(&self) -> TypeRefV {
        TypeRefV { name: self.name@, vector_depth: self.vector_depth as nat }
    }
}

/// A parameter of a definition: a struct field or an operation argument.
#[derive(Clone, Debug)]
pub struct Parameter {
    /// The schema field name.
    pub name: String,
    /// The referenced type.
    pub ty: TypeRef,
    /// Whether the value may be absent; an optional field never blocks
    /// default-derivability and is emitted behind an explicit wrapper.
    pub optional: bool,
    /// Restricted flag: the field is visible only under the opt-in capability.
    pub bots_only: bool,
    /// Documentation carried through unchanged.
    pub description: String,
}

/// Mathematical model of a parameter.
pub struct ParameterV {
    pub name: Seq<char>,
    pub ty: TypeRefV,
    pub optional: bool,
    pub bots_only: bool,
    pub description: Seq<char>,
}

impl View for Parameter {
    type V = ParameterV;

    open spec fn view(&self) -> ParameterV {
        ParameterV {
            name: self.name@,
            ty: self.ty@,
            optional: self.optional,
            bots_only: self.bots_only,
            description: self.description@,
        }
    }
}

/// A schema definition: one data shape or one callable operation.
#[derive(Clone, Debug)]
pub struct Definition {
    /// The definition's own name (the constructor or method name).
    pub name: String,
    /// Documentation carried through unchanged.
    pub description: String,
    /// The ordered parameters; order is significant and preserved.
    pub params: Vec<Parameter>,
    /// The result type: the self type for a data shape, the return type for an
    /// operation.
    pub ty: TypeRef,
    /// The category this definition belongs to.
    pub category: Category,
    /// Restricted flag: visible only under the opt-in capability.
    pub bots_only: bool,
}

/// Mathematical model of a definition.
pub struct DefinitionV {
    pub name: Seq<char>,
    pub description: Seq<char>,
    pub params: Seq<ParameterV>,
    pub ty: TypeRefV,
    pub category: Category,
    pub bots_only: bool,
}

impl View for Definition {
    type V = DefinitionV;

    open spec fn view(&self) -> DefinitionV {
        DefinitionV {
            name: self.name@,
            description: self.description@,
            params: self.params@.map_values(|p: Parameter| p@),
            ty: self.ty@,
            category: self.category,
            bots_only: self.bots_only,
        }
    }
}

/// The view of a whole definition list.
pub open spec fn defs_view(defs: Seq<Definition>) -> Seq<DefinitionV> {
    defs.map_values(|d: Definition| d@)
}

/// The built-in scalar names and the sentinel no-value type. Definitions whose
/// self type carries one of these names never produce a generated structure.
pub open spec fn is_builtin_name(name: Seq<char>) -> bool {
    ||| name == "Bool"@
    ||| name == "Bytes"@
    ||| name == "Int32"@
    ||| name == "Int53"@
    ||| name == "Int64"@
    ||| name == "Ok"@
}

/// Whether two strings hold the same characters.
pub fn string_eq(a: &String, b: &String) -> (r: bool)
    ensures
        r == (a@ == b@),
{
    *a == *b
}

/// Whether a string holds the same characters as a literal.
pub fn string_eq_str(a: &String, b: &str) -> (r: bool)
    ensures
        r == (a@ == b@),
{
    let owned: String = b.to_owned();
    *a == owned
}

/// Don't generate types for definitions of this type, since they are "core"
/// types and treated differently.
pub fn ignore_type(ty: &TypeRef) -> (r: bool)
    ensures
        r == is_builtin_name(ty@.name),
{
    string_eq_str(&ty.name, "Bool") || string_eq_str(&ty.name, "Bytes") || string_eq_str(
        &ty.name,
        "Int32",
    ) || string_eq_str(&ty.name, "Int53") || string_eq_str(&ty.name, "Int64") || string_eq_str(
        &ty.name,
        "Ok",
    )
}

/// The one restricted-capability predicate both emitters consult for
/// parameters: a restricted field or argument is included only when the
/// capability is enabled.
pub open spec fn param_included(p: ParameterV, gen_bots_only_api: bool) -> bool {
    !p.bots_only || gen_bots_only_api
}

/// The restricted-capability predicate for whole definitions.
pub open spec fn def_included(d: DefinitionV, gen_bots_only_api: bool) -> bool {
    !d.bots_only || gen_bots_only_api
}

} // verus!
