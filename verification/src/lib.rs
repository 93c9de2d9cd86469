//! Schema-to-binding generator and request/response correlation runtime for
//! a TDLib-style JSON interface.
//!
//! The generator half turns a list of schema definitions into the text of two
//! Rust modules (data structures and callable operations); the runtime half
//! matches asynchronous responses to pending requests by correlation id and
//! decodes them under a shared error taxonomy.

pub mod client;
pub mod functions;
pub mod json;
pub mod metadata;
pub mod response;
pub mod rustifier;
pub mod schema;
pub mod types;
pub mod validate;

use vstd::prelude::*;

use crate::functions::{functions_mod_text, write_functions_mod};
use crate::metadata::Metadata;
use crate::schema::{defs_view, Definition, DefinitionV};
use crate::types::{types_mod_text, write_types_mod};

verus! {

/// Configuration options for code generation.
#[derive(Clone)]
pub struct GeneratorConfig {
    /// Generate bot-only API functions.
    pub gen_bots_only_api: bool,
    /// Use gpui::SharedString instead of String for string types.
    pub use_shared_string: bool,
}

impl Default for GeneratorConfig {
    fn default() -> (c: GeneratorConfig)
        ensures
            !c.gen_bots_only_api,
            !c.use_shared_string,
    {
        GeneratorConfig { gen_bots_only_api: false, use_shared_string: false }
    }
}

/// Everything one generation run emits: the types module followed by the
/// functions module, a pure function of the definition set and configuration.
pub open spec fn generated_text(defs: Seq<DefinitionV>, bots: bool, shared: bool) -> Seq<char> {
    types_mod_text(defs, bots, shared) + functions_mod_text(defs, bots, shared)
}

/// Generate both modules under the given configuration. The result is pinned
/// to `generated_text`, so output is identical across runs on the same
/// definitions and configuration.
pub fn generate_rust_code_with_config(definitions: &Vec<Definition>, config: &GeneratorConfig)
    -> (r: String)
    ensures
        r@ == generated_text(
            defs_view(definitions@),
            config.gen_bots_only_api,
            config.use_shared_string,
        ),
{
    let metadata = Metadata::new(definitions);
    let mut out = String::new();
    write_types_mod(&mut out, definitions, &metadata, config);
    write_functions_mod(&mut out, definitions, config);
    proof {
        assert(out@ =~= generated_text(
            defs_view(definitions@),
            config.gen_bots_only_api,
            config.use_shared_string,
        ));
    }
    out
}

/// Generate both modules with the default text representation.
pub fn generate_rust_code(definitions: &Vec<Definition>, gen_bots_only_api: bool) -> (r: String)
    ensures
        r@ == generated_text(defs_view(definitions@), gen_bots_only_api, false),
{
    generate_rust_code_with_config(
        definitions,
        &GeneratorConfig { gen_bots_only_api, use_shared_string: false },
    )
}

} // verus!
