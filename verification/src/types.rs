//! Structure Emitter: one data-structure declaration per qualifying `Type`
//! definition. The emitted text is pinned, character for character, by the
//! spec functions below, so generation is deterministic by construction.

use vstd::prelude::*;
use vstd::string::StringExecFns;

use crate::metadata::{derivable_any, Metadata};
use crate::rustifier::{attr_name, attr_name_of, doc_text, mapped_type, push_doc, qual_name,
    serde_annotation, serde_as};
use crate::schema::{def_included, defs_view, ignore_type, is_builtin_name, param_included,
    Category, Definition, DefinitionV, Parameter, ParameterV};
use crate::GeneratorConfig;

verus! {

/// One emitted structure field: documentation, transport adapter annotation
/// when flagged, the absent-by-default marker for optional fields, and the
/// declaration itself with the mapped type in the optional wrapper.
pub open spec fn field_text(p: ParameterV, shared: bool) -> Seq<char> {
    doc_text(p.description, "        "@) + (match serde_annotation(p.ty) {
        Some(a) => "        #[serde_as(as = \""@ + a + "\")]\n"@,
        None => Seq::<char>::empty(),
    }) + (if p.optional {
        "        #[serde(default)]\n"@
    } else {
        Seq::<char>::empty()
    }) + "        pub "@ + attr_name_of(p.name) + ": "@ + (if p.optional {
        "Option<"@
    } else {
        Seq::<char>::empty()
    }) + mapped_type(p.ty, shared, false) + (if p.optional {
        ">"@
    } else {
        Seq::<char>::empty()
    }) + ",\n"@
}

/// The fields of the first `n` parameters that the capability gate includes.
pub open spec fn fields_text(params: Seq<ParameterV>, bots: bool, shared: bool, n: int) -> Seq<
    char,
>
    decreases n,
{
    if n <= 0 {
        Seq::empty()
    } else {
        fields_text(params, bots, shared, n - 1) + (if param_included(params[n - 1], bots) {
            field_text(params[n - 1], shared)
        } else {
            Seq::<char>::empty()
        })
    }
}

/// Whether any parameter carries the transport adapter annotation, so the
/// structure needs the container-level marker.
pub open spec fn any_serde(params: Seq<ParameterV>) -> bool {
    exists|j: int| 0 <= j < params.len() && serde_annotation((#[trigger] params[j]).ty) is Some
}

/// One emitted structure: documentation, derives (a default-value capability
/// exactly when the type is default-derivable), and the gated fields.
pub open spec fn struct_text(d: DefinitionV, deriv: bool, bots: bool, shared: bool) -> Seq<char> {
    doc_text(d.description, "    "@) + (if any_serde(d.params) {
        "    #[serde_as]\n"@
    } else {
        Seq::<char>::empty()
    }) + "    #[derive(Clone, Debug, "@ + (if deriv {
        "Default, "@
    } else {
        Seq::<char>::empty()
    }) + "PartialEq, Deserialize, Serialize)]\n"@ + "    pub struct "@ + crate::rustifier::pascal_of(
        d.name,
    ) + " {\n"@ + fields_text(d.params, bots, shared, d.params.len() as int) + "    }\n"@
}

/// A definition produces a structure when it is a data shape, not one of the
/// special-cased built-in types, and has at least one field.
pub open spec fn qualifying(d: DefinitionV) -> bool {
    d.category == Category::Types && !is_builtin_name(d.ty.name) && d.params.len() > 0
}

/// The structures of the first `n` definitions that qualify and pass the
/// capability gate.
pub open spec fn structs_text(defs: Seq<DefinitionV>, bots: bool, shared: bool, n: int) -> Seq<
    char,
>
    decreases n,
{
    if n <= 0 {
        Seq::empty()
    } else {
        structs_text(defs, bots, shared, n - 1) + (if qualifying(defs[n - 1]) && def_included(
            defs[n - 1],
            bots,
        ) {
            struct_text(defs[n - 1], derivable_any(defs, defs[n - 1].ty.name), bots, shared)
        } else {
            Seq::<char>::empty()
        })
    }
}

/// The entire types module.
pub open spec fn types_mod_text(defs: Seq<DefinitionV>, bots: bool, shared: bool) -> Seq<char> {
    "#[allow(clippy::all)]\npub mod types {\n    use serde::{Deserialize, Serialize};\n    use serde_with::{serde_as, DisplayFromStr};\n"@
        + (if shared {
        "    use crate::TdString;\n"@
    } else {
        Seq::<char>::empty()
    }) + structs_text(defs, bots, shared, defs.len() as int) + "}\n"@
}

fn has_any_serde(params: &Vec<Parameter>) -> (r: bool)
    ensures
        r == any_serde(params@.map_values(|p: Parameter| p@)),
{
    let ghost pv = params@.map_values(|p: Parameter| p@);
    let mut j: usize = 0;
    while j < params.len()
        invariant
            j <= params@.len(),
            pv == params@.map_values(|p: Parameter| p@),
            pv.len() == params@.len(),
            forall|j2: int| 0 <= j2 < j ==> serde_annotation((#[trigger] pv[j2]).ty) is None,
        decreases params@.len() - j,
    {
        proof {
            assert(pv[j as int] == params@[j as int]@);
        }
        if serde_as(&params[j].ty).is_some() {
            return true;
        }
        j += 1;
    }
    false
}

/// Appends one emitted field.
fn push_field(out: &mut String, p: &Parameter, shared: bool)
    ensures
        final(out)@ == old(out)@ + field_text(p@, shared),
{
    push_doc(out, p.description.as_str(), "        ");
    match serde_as(&p.ty) {
        Some(a) => {
            out.append("        #[serde_as(as = \"");
            out.append(a.as_str());
            out.append("\")]\n");
        },
        None => {},
    }
    if p.optional {
        out.append("        #[serde(default)]\n");
    }
    out.append("        pub ");
    let an = attr_name(&p.name);
    out.append(an.as_str());
    out.append(": ");
    if p.optional {
        out.append("Option<");
    }
    let qn = qual_name(&p.ty, false, shared);
    out.append(qn.as_str());
    if p.optional {
        out.append(">");
    }
    out.append(",\n");
    proof {
        assert(out@ =~= old(out)@ + field_text(p@, shared));
    }
}

/// Defines the structure corresponding to the definition; a definition behind
/// the disabled capability gate emits nothing.
#[verifier::rlimit(60)]
pub fn write_struct(out: &mut String, def: &Definition, metadata: &Metadata, config:
    &GeneratorConfig)
    requires
        metadata.inv(),
    ensures
        final(out)@ == old(out)@ + (if def_included(def@, config.gen_bots_only_api) {
            struct_text(
                def@,
                derivable_any(metadata.defs(), def@.ty.name),
                config.gen_bots_only_api,
                config.use_shared_string,
            )
        } else {
            Seq::<char>::empty()
        }),
{
    if def.bots_only && !config.gen_bots_only_api {
        proof {
            assert(out@ =~= old(out)@ + Seq::<char>::empty());
        }
        return ;
    }
    push_doc(out, def.description.as_str(), "    ");
    if has_any_serde(&def.params) {
        out.append("    #[serde_as]\n");
    }
    out.append("    #[derive(Clone, Debug, ");
    if metadata.can_def_implement_default(def) {
        out.append("Default, ");
    }
    out.append("PartialEq, Deserialize, Serialize)]\n");
    out.append("    pub struct ");
    let tn = crate::rustifier::pascal_case(def.name.as_str());
    out.append(tn.as_str());
    out.append(" {\n");
    let ghost hdr = out@;
    proof {
        assert(hdr =~= old(out)@ + (doc_text(def@.description, "    "@) + (if any_serde(
            def@.params,
        ) {
            "    #[serde_as]\n"@
        } else {
            Seq::<char>::empty()
        }) + "    #[derive(Clone, Debug, "@ + (if derivable_any(metadata.defs(), def@.ty.name) {
            "Default, "@
        } else {
            Seq::<char>::empty()
        }) + "PartialEq, Deserialize, Serialize)]\n"@ + "    pub struct "@
            + crate::rustifier::pascal_of(def@.name) + " {\n"@));
    }
    let ghost pv = def.params@.map_values(|p: Parameter| p@);
    let mut j: usize = 0;
    while j < def.params.len()
        invariant
            j <= def.params@.len(),
            pv == def.params@.map_values(|p: Parameter| p@),
            pv.len() == def.params@.len(),
            out@ == hdr + fields_text(
                pv,
                config.gen_bots_only_api,
                config.use_shared_string,
                j as int,
            ),
        decreases def.params@.len() - j,
    {
        proof {
            assert(pv[j as int] == def.params@[j as int]@);
        }
        if !(def.params[j].bots_only && !config.gen_bots_only_api) {
            push_field(out, &def.params[j], config.use_shared_string);
        }
        proof {
            assert(out@ =~= hdr + fields_text(
                pv,
                config.gen_bots_only_api,
                config.use_shared_string,
                j as int + 1,
            ));
        }
        j += 1;
    }
    out.append("    }\n");
    proof {
        assert(def@.params == pv);
        assert(out@ =~= old(out)@ + struct_text(
            def@,
            derivable_any(metadata.defs(), def@.ty.name),
            config.gen_bots_only_api,
            config.use_shared_string,
        ));
    }
}

/// Write the entire module dedicated to types.
pub fn write_types_mod(out: &mut String, definitions: &Vec<Definition>, metadata: &Metadata,
    config: &GeneratorConfig)
    requires
        metadata.inv(),
        metadata.defs() == defs_view(definitions@),
    ensures
        final(out)@ == old(out)@ + types_mod_text(
            defs_view(definitions@),
            config.gen_bots_only_api,
            config.use_shared_string,
        ),
{
    let ghost dv = defs_view(definitions@);
    out.append(
        "#[allow(clippy::all)]\npub mod types {\n    use serde::{Deserialize, Serialize};\n    use serde_with::{serde_as, DisplayFromStr};\n",
    );
    if config.use_shared_string {
        out.append("    use crate::TdString;\n");
    }
    let ghost base = out@;
    let mut i: usize = 0;
    while i < definitions.len()
        invariant
            i <= definitions@.len(),
            dv == defs_view(definitions@),
            dv.len() == definitions@.len(),
            metadata.inv(),
            metadata.defs() == dv,
            out@ == base + structs_text(
                dv,
                config.gen_bots_only_api,
                config.use_shared_string,
                i as int,
            ),
        decreases definitions@.len() - i,
    {
        proof {
            assert(dv[i as int] == definitions@[i as int]@);
        }
        let d = &definitions[i];
        let is_types = d.category == Category::Types;
        let ign = ignore_type(&d.ty);
        let nonempty = d.params.len() > 0;
        if is_types && !ign && nonempty {
            write_struct(out, d, metadata, config);
        }
        proof {
            assert(out@ =~= base + structs_text(
                dv,
                config.gen_bots_only_api,
                config.use_shared_string,
                i as int + 1,
            ));
        }
        i += 1;
    }
    out.append("}\n");
    proof {
        assert(out@ =~= old(out)@ + types_mod_text(
            dv,
            config.gen_bots_only_api,
            config.use_shared_string,
        ));
    }
}

} // verus!
