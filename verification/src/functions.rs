//! Operation Emitter: one callable operation per `Operation` definition,
//! wired to the correlation engine's dispatch primitive and decoded under the
//! shared error taxonomy. The emitted text is pinned by the spec functions
//! below, and the payload applies exactly the capability gate the Structure
//! Emitter applies.

use vstd::prelude::*;
use vstd::string::StringExecFns;

use crate::rustifier::{attr_name, attr_name_of, doc_body, doc_text, mapped_type, push_doc,
    push_doc_body, qual_name, snake_case, snake_of};
use crate::schema::{def_included, defs_view, param_included, string_eq_str, Category, Definition,
    DefinitionV, Parameter, ParameterV};
use crate::types::{fields_text, field_text};
use crate::GeneratorConfig;

verus! {

/// One argument's documentation line.
pub open spec fn arg_doc_text(p: ParameterV) -> Seq<char> {
    "    /// * `"@ + attr_name_of(p.name) + "` - "@ + doc_body(
        p.description,
        "    "@,
        p.description.len() as int,
    ) + "\n"@
}

/// The documentation lines of the first `n` included parameters.
pub open spec fn arg_docs_text(params: Seq<ParameterV>, bots: bool, n: int) -> Seq<char>
    decreases n,
{
    if n <= 0 {
        Seq::empty()
    } else {
        arg_docs_text(params, bots, n - 1) + (if param_included(params[n - 1], bots) {
            arg_doc_text(params[n - 1])
        } else {
            Seq::<char>::empty()
        })
    }
}

/// One parameter of the emitted call signature, with the optional wrapper.
pub open spec fn sig_param_text(p: ParameterV, shared: bool) -> Seq<char> {
    attr_name_of(p.name) + ": "@ + (if p.optional {
        "Option<"@
    } else {
        Seq::<char>::empty()
    }) + mapped_type(p.ty, shared, true) + (if p.optional {
        ">"@
    } else {
        Seq::<char>::empty()
    }) + ", "@
}

/// The signature parameters of the first `n` included parameters.
pub open spec fn sig_text(params: Seq<ParameterV>, bots: bool, shared: bool, n: int) -> Seq<char>
    decreases n,
{
    if n <= 0 {
        Seq::empty()
    } else {
        sig_text(params, bots, shared, n - 1) + (if param_included(params[n - 1], bots) {
            sig_param_text(params[n - 1], shared)
        } else {
            Seq::<char>::empty()
        })
    }
}

/// One payload entry: the schema field name keyed to the argument's value.
pub open spec fn payload_param_text(p: ParameterV) -> Seq<char> {
    "            \""@ + p.name + "\": "@ + attr_name_of(p.name) + ",\n"@
}

/// The payload entries of the first `n` included parameters.
pub open spec fn payload_text(params: Seq<ParameterV>, bots: bool, n: int) -> Seq<char>
    decreases n,
{
    if n <= 0 {
        Seq::empty()
    } else {
        payload_text(params, bots, n - 1) + (if param_included(params[n - 1], bots) {
            payload_param_text(params[n - 1])
        } else {
            Seq::<char>::empty()
        })
    }
}

/// Whether the operation returns the sentinel no-value type.
pub open spec fn returns_unit(d: DefinitionV) -> bool {
    d.ty.name == "Ok"@ && d.ty.vector_depth == 0
}

/// The decoding tail for a unit-returning operation: only the API-error shape
/// is tried; if it does not match, the operation succeeds with no value.
pub open spec fn unit_tail_text() -> Seq<char> {
    "        if let Ok(api_error) = serde_json::from_str::<crate::types::Error>(&response) {\n            return Err(crate::TdError::Api(api_error));\n        }\n        Ok(())\n"@
}

/// The decoding tail for a value-returning operation: the success type is
/// tried first and wins even over an error-shaped payload; only on failure is
/// the API-error shape tried, and a deserialization error reports the
/// expected type, the raw text and the original failure.
pub open spec fn value_tail_text(expected: Seq<char>) -> Seq<char> {
    "        match serde_json::from_str(&response) {\n            Ok(result) => Ok(result),\n            Err(e) => {\n                if let Ok(api_error) = serde_json::from_str::<crate::types::Error>(&response) {\n                    Err(crate::TdError::Api(api_error))\n                } else {\n                    Err(crate::TdError::Deserialization { expected_type: \""@
        + expected
        + "\", payload: response, error: e })\n                }\n            }\n        }\n"@
}

/// The documentation block and signature opening of one emitted operation.
pub open spec fn fn_head_text(d: DefinitionV, bots: bool) -> Seq<char> {
    doc_text(d.description, "    "@) + "    /// # Arguments\n"@ + arg_docs_text(
        d.params,
        bots,
        d.params.len() as int,
    ) + "    /// * `client_id` - The client id to send the request to\n    #[allow(clippy::too_many_arguments)]\n    pub async fn "@
        + snake_of(d.name) + "("@
}

/// The result type and the payload opening of one emitted operation.
pub open spec fn fn_ret_text(d: DefinitionV, shared: bool) -> Seq<char> {
    "client_id: i32) -> Result<"@ + mapped_type(d.ty, shared, true)
        + ", crate::TdError> {\n        let request = json!({\n            \"@type\": \""@ + d.name
        + "\",\n"@
}

/// The dispatch call and the decoding tail of one emitted operation. A failed
/// decode reports the expected success type under its unqualified mapped
/// name, the very type the decode was attempted against.
pub open spec fn fn_close_text(d: DefinitionV, shared: bool) -> Seq<char> {
    "        });\n        let response = send_request(client_id, request).await;\n"@ + (if
    returns_unit(d) {
        unit_tail_text()
    } else {
        value_tail_text(mapped_type(d.ty, shared, false))
    }) + "    }\n"@
}

/// One emitted operation.
pub open spec fn fn_text(d: DefinitionV, bots: bool, shared: bool) -> Seq<char> {
    fn_head_text(d, bots) + sig_text(d.params, bots, shared, d.params.len() as int) + fn_ret_text(
        d,
        shared,
    ) + payload_text(d.params, bots, d.params.len() as int) + fn_close_text(d, shared)
}

/// The operations of the first `n` definitions in the operation category that
/// pass the capability gate.
pub open spec fn fns_text(defs: Seq<DefinitionV>, bots: bool, shared: bool, n: int) -> Seq<char>
    decreases n,
{
    if n <= 0 {
        Seq::empty()
    } else {
        fns_text(defs, bots, shared, n - 1) + (if defs[n - 1].category == Category::Functions
            && def_included(defs[n - 1], bots) {
            fn_text(defs[n - 1], bots, shared)
        } else {
            Seq::<char>::empty()
        })
    }
}

/// The entire functions module.
pub open spec fn functions_mod_text(defs: Seq<DefinitionV>, bots: bool, shared: bool) -> Seq<
    char,
> {
    "#[allow(clippy::all)]\npub mod functions {\n    use serde_json::json;\n    use crate::send_request;\n"@
        + (if shared {
        "    use crate::TdString;\n"@
    } else {
        Seq::<char>::empty()
    }) + fns_text(defs, bots, shared, defs.len() as int) + "}\n"@
}

/// Defines the callable corresponding to the definition; a definition behind
/// the disabled capability gate emits nothing.
#[verifier::rlimit(100)]
pub fn write_function(out: &mut String, def: &Definition, config: &GeneratorConfig)
    ensures
        final(out)@ == old(out)@ + (if def_included(def@, config.gen_bots_only_api) {
            fn_text(def@, config.gen_bots_only_api, config.use_shared_string)
        } else {
            Seq::<char>::empty()
        }),
{
    if def.bots_only && !config.gen_bots_only_api {
        proof {
            assert(out@ =~= old(out)@ + Seq::<char>::empty());
        }
        return ;
    }
    let ghost bots = config.gen_bots_only_api;
    let ghost shared = config.use_shared_string;
    let ghost pv = def.params@.map_values(|p: Parameter| p@);
    push_doc(out, def.description.as_str(), "    ");
    out.append("    /// # Arguments\n");
    let ghost hdr1 = out@;
    let mut j: usize = 0;
    while j < def.params.len()
        invariant
            j <= def.params@.len(),
            pv == def.params@.map_values(|p: Parameter| p@),
            pv.len() == def.params@.len(),
            out@ == hdr1 + arg_docs_text(pv, bots, j as int),
            bots == config.gen_bots_only_api,
        decreases def.params@.len() - j,
    {
        proof {
            assert(pv[j as int] == def.params@[j as int]@);
        }
        let p = &def.params[j];
        if !(p.bots_only && !config.gen_bots_only_api) {
            out.append("    /// * `");
            let an = attr_name(&p.name);
            out.append(an.as_str());
            out.append("` - ");
            push_doc_body(out, p.description.as_str(), "    ");
            out.append("\n");
        }
        proof {
            assert(out@ =~= hdr1 + arg_docs_text(pv, bots, j as int + 1));
        }
        j += 1;
    }
    out.append(
        "    /// * `client_id` - The client id to send the request to\n    #[allow(clippy::too_many_arguments)]\n    pub async fn ",
    );
    let fname = snake_case(def.name.as_str());
    out.append(fname.as_str());
    out.append("(");
    let ghost hdr2 = out@;
    proof {
        assert(hdr2 =~= old(out)@ + fn_head_text(def@, bots));
    }
    let mut j2: usize = 0;
    while j2 < def.params.len()
        invariant
            j2 <= def.params@.len(),
            pv == def.params@.map_values(|p: Parameter| p@),
            pv.len() == def.params@.len(),
            out@ == hdr2 + sig_text(pv, bots, shared, j2 as int),
            bots == config.gen_bots_only_api,
            shared == config.use_shared_string,
        decreases def.params@.len() - j2,
    {
        proof {
            assert(pv[j2 as int] == def.params@[j2 as int]@);
        }
        let p = &def.params[j2];
        if !(p.bots_only && !config.gen_bots_only_api) {
            let an = attr_name(&p.name);
            out.append(an.as_str());
            out.append(": ");
            if p.optional {
                out.append("Option<");
            }
            let qn = qual_name(&p.ty, true, config.use_shared_string);
            out.append(qn.as_str());
            if p.optional {
                out.append(">");
            }
            out.append(", ");
        }
        proof {
            assert(out@ =~= hdr2 + sig_text(pv, bots, shared, j2 as int + 1));
        }
        j2 += 1;
    }
    out.append("client_id: i32) -> Result<");
    let rt = qual_name(&def.ty, true, config.use_shared_string);
    out.append(rt.as_str());
    out.append(", crate::TdError> {\n        let request = json!({\n            \"@type\": \"");
    out.append(def.name.as_str());
    out.append("\",\n");
    let ghost hdr3 = out@;
    proof {
        assert(hdr3 =~= hdr2 + sig_text(pv, bots, shared, pv.len() as int) + fn_ret_text(
            def@,
            shared,
        ));
    }
    let mut j3: usize = 0;
    while j3 < def.params.len()
        invariant
            j3 <= def.params@.len(),
            pv == def.params@.map_values(|p: Parameter| p@),
            pv.len() == def.params@.len(),
            out@ == hdr3 + payload_text(pv, bots, j3 as int),
            bots == config.gen_bots_only_api,
        decreases def.params@.len() - j3,
    {
        proof {
            assert(pv[j3 as int] == def.params@[j3 as int]@);
        }
        let p = &def.params[j3];
        if !(p.bots_only && !config.gen_bots_only_api) {
            out.append("            \"");
            out.append(p.name.as_str());
            out.append("\": ");
            let an = attr_name(&p.name);
            out.append(an.as_str());
            out.append(",\n");
        }
        proof {
            assert(out@ =~= hdr3 + payload_text(pv, bots, j3 as int + 1));
        }
        j3 += 1;
    }
    let ghost hdr4 = out@;
    proof {
        assert(hdr4 =~= hdr3 + payload_text(pv, bots, pv.len() as int));
    }
    out.append("        });\n        let response = send_request(client_id, request).await;\n");
    if string_eq_str(&def.ty.name, "Ok") && def.ty.vector_depth == 0 {
        out.append(
            "        if let Ok(api_error) = serde_json::from_str::<crate::types::Error>(&response) {\n            return Err(crate::TdError::Api(api_error));\n        }\n        Ok(())\n",
        );
    } else {
        out.append(
            "        match serde_json::from_str(&response) {\n            Ok(result) => Ok(result),\n            Err(e) => {\n                if let Ok(api_error) = serde_json::from_str::<crate::types::Error>(&response) {\n                    Err(crate::TdError::Api(api_error))\n                } else {\n                    Err(crate::TdError::Deserialization { expected_type: \"",
        );
        let tn = qual_name(&def.ty, false, config.use_shared_string);
        out.append(tn.as_str());
        out.append(
            "\", payload: response, error: e })\n                }\n            }\n        }\n",
        );
    }
    out.append("    }\n");
    proof {
        assert(def@.params == pv);
        assert(out@ =~= hdr4 + fn_close_text(def@, shared));
        assert(out@ =~= old(out)@ + fn_text(def@, bots, shared));
    }
}

/// Write the entire module dedicated to functions.
pub fn write_functions_mod(out: &mut String, definitions: &Vec<Definition>, config:
    &GeneratorConfig)
    ensures
        final(out)@ == old(out)@ + functions_mod_text(
            defs_view(definitions@),
            config.gen_bots_only_api,
            config.use_shared_string,
        ),
{
    let ghost dv = defs_view(definitions@);
    out.append(
        "#[allow(clippy::all)]\npub mod functions {\n    use serde_json::json;\n    use crate::send_request;\n",
    );
    if config.use_shared_string {
        out.append("    use crate::TdString;\n");
    }
    let ghost base = out@;
    let mut i: usize = 0;
    while i < definitions.len()
        invariant
            i <= definitions@.len(),
            dv == defs_view(definitions@),
            dv.len() == definitions@.len(),
            out@ == base + fns_text(
                dv,
                config.gen_bots_only_api,
                config.use_shared_string,
                i as int,
            ),
        decreases definitions@.len() - i,
    {
        proof {
            assert(dv[i as int] == definitions@[i as int]@);
        }
        let d = &definitions[i];
        if d.category == Category::Functions {
            write_function(out, d, config);
        }
        proof {
            assert(out@ =~= base + fns_text(
                dv,
                config.gen_bots_only_api,
                config.use_shared_string,
                i as int + 1,
            ));
        }
        i += 1;
    }
    out.append("}\n");
    proof {
        assert(out@ =~= old(out)@ + functions_mod_text(
            dv,
            config.gen_bots_only_api,
            config.use_shared_string,
        ));
    }
}

/// Filtering consistency: under a given capability setting, the Structure
/// Emitter contributes field text for a parameter exactly when the Operation
/// Emitter's payload contributes an entry for it, so a structure and the
/// corresponding wire payload always agree field for field.
pub proof fn lemma_filtering_consistent(
    params: Seq<ParameterV>,
    bots: bool,
    shared: bool,
    j: int,
)
    requires
        0 <= j < params.len(),
    ensures
        (fields_text(params, bots, shared, j + 1) == fields_text(params, bots, shared, j)) <==> !param_included(
            params[j],
            bots,
        ),
        (payload_text(params, bots, j + 1) == payload_text(params, bots, j)) <==> !param_included(
            params[j],
            bots,
        ),
{
    reveal_strlit("/// ");
    reveal_strlit("            \"");
    if param_included(params[j], bots) {
        assert(field_text(params[j], shared).len() > 0);
        assert(payload_param_text(params[j]).len() > 0);
        assert(fields_text(params, bots, shared, j + 1).len() > fields_text(
            params,
            bots,
            shared,
            j,
        ).len());
        assert(payload_text(params, bots, j + 1).len() > payload_text(params, bots, j).len());
    } else {
        assert(fields_text(params, bots, shared, j + 1) =~= fields_text(params, bots, shared, j));
        assert(payload_text(params, bots, j + 1) =~= payload_text(params, bots, j));
    }
}

} // verus!
