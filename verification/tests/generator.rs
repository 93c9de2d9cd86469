use tdlib_rs::metadata::Metadata;
use tdlib_rs::rustifier::{attr_name, pascal_case, qual_name, serde_as, snake_case};
use tdlib_rs::schema::{Category, Definition, Parameter, TypeRef};
use tdlib_rs::{generate_rust_code, generate_rust_code_with_config, GeneratorConfig};

fn ty(name: &str) -> TypeRef {
    TypeRef { name: name.to_string(), vector_depth: 0 }
}

fn vec_ty(name: &str, depth: u32) -> TypeRef {
    TypeRef { name: name.to_string(), vector_depth: depth }
}

fn param(name: &str, t: TypeRef) -> Parameter {
    Parameter {
        name: name.to_string(),
        ty: t,
        optional: false,
        bots_only: false,
        description: format!("The {name}."),
    }
}

fn type_def(name: &str, self_ty: &str, params: Vec<Parameter>) -> Definition {
    Definition {
        name: name.to_string(),
        description: format!("Describes {name}."),
        params,
        ty: ty(self_ty),
        category: Category::Types,
        bots_only: false,
    }
}

fn fn_def(name: &str, ret: &str, params: Vec<Parameter>) -> Definition {
    Definition {
        name: name.to_string(),
        description: format!("Calls {name}."),
        params,
        ty: ty(ret),
        category: Category::Functions,
        bots_only: false,
    }
}

#[test]
fn determinism_same_inputs_same_output() {
    let defs = vec![
        type_def("chat", "Chat", vec![param("id", ty("Int53")), param("title", ty("String"))]),
        fn_def("getChat", "Chat", vec![param("chat_id", ty("Int53"))]),
    ];
    let config = GeneratorConfig { gen_bots_only_api: false, use_shared_string: false };
    let a = generate_rust_code_with_config(&defs, &config);
    let b = generate_rust_code_with_config(&defs, &config);
    assert_eq!(a, b);
    assert!(!a.is_empty());
}

#[test]
fn scenario_a_int64_field_is_derivable() {
    let defs = vec![type_def("getUser", "GetUser", vec![param("id", ty("Int64"))])];
    let metadata = Metadata::new(&defs);
    assert!(metadata.can_def_implement_default(&defs[0]));
}

#[test]
fn self_cycle_not_derivable() {
    let defs = vec![type_def(
        "linkedNode",
        "LinkedNode",
        vec![param("next", ty("LinkedNode"))],
    )];
    let metadata = Metadata::new(&defs);
    assert!(!metadata.can_def_implement_default(&defs[0]));
}

#[test]
fn sole_optional_field_is_derivable() {
    let mut p = param("next", ty("LinkedNode"));
    p.optional = true;
    let defs = vec![type_def("linkedNode", "LinkedNode", vec![p])];
    let metadata = Metadata::new(&defs);
    assert!(metadata.can_def_implement_default(&defs[0]));
}

#[test]
fn zero_fields_is_derivable() {
    let defs = vec![type_def("emptyThing", "EmptyThing", vec![])];
    let metadata = Metadata::new(&defs);
    assert!(metadata.can_def_implement_default(&defs[0]));
}

#[test]
fn mutual_cycle_not_derivable_and_terminates() {
    let defs = vec![
        type_def("alpha", "Alpha", vec![param("b", ty("Beta"))]),
        type_def("beta", "Beta", vec![param("a", ty("Alpha"))]),
    ];
    let metadata = Metadata::new(&defs);
    assert!(!metadata.can_def_implement_default(&defs[0]));
    assert!(!metadata.can_def_implement_default(&defs[1]));
}

#[test]
fn chain_to_scalar_is_derivable() {
    let defs = vec![
        type_def("inner", "Inner", vec![param("n", ty("Int32"))]),
        type_def("outer", "Outer", vec![param("inner", ty("Inner"))]),
    ];
    let metadata = Metadata::new(&defs);
    assert!(metadata.can_def_implement_default(&defs[1]));
}

#[test]
fn vector_field_never_blocks_derivability() {
    let defs = vec![type_def(
        "treeNode",
        "TreeNode",
        vec![param("children", vec_ty("TreeNode", 1))],
    )];
    let metadata = Metadata::new(&defs);
    assert!(metadata.can_def_implement_default(&defs[0]));
}

#[test]
fn mapper_builtins_and_vectors() {
    assert_eq!(qual_name(&ty("Bool"), false, false), "bool");
    assert_eq!(qual_name(&ty("Int32"), false, false), "i32");
    assert_eq!(qual_name(&ty("Int53"), false, false), "i64");
    assert_eq!(qual_name(&ty("Int64"), false, false), "i64");
    assert_eq!(qual_name(&ty("Bytes"), false, false), "String");
    assert_eq!(qual_name(&ty("Ok"), false, false), "()");
    assert_eq!(qual_name(&ty("String"), false, false), "String");
    assert_eq!(qual_name(&ty("String"), false, true), "TdString");
    assert_eq!(qual_name(&ty("Chat"), false, false), "Chat");
    assert_eq!(qual_name(&ty("Chat"), true, false), "crate::types::Chat");
    assert_eq!(qual_name(&vec_ty("Chat", 2), true, false), "Vec<Vec<crate::types::Chat>>");
}

#[test]
fn mapper_transport_annotation_for_wide_integers() {
    assert_eq!(serde_as(&ty("Int64")), Some("DisplayFromStr".to_string()));
    assert_eq!(serde_as(&vec_ty("Int64", 1)), Some("Vec<DisplayFromStr>".to_string()));
    assert_eq!(serde_as(&ty("Int53")), None);
    assert_eq!(serde_as(&ty("String")), None);
}

#[test]
fn name_conversions() {
    assert_eq!(pascal_case("getChat"), "GetChat");
    assert_eq!(pascal_case("chat_photo"), "ChatPhoto");
    assert_eq!(snake_case("getChat"), "get_chat");
    assert_eq!(snake_case("id"), "id");
    assert_eq!(attr_name(&"type".to_string()), "r#type");
    assert_eq!(attr_name(&"title".to_string()), "title");
}

#[test]
fn emitted_struct_shape() {
    let mut opt = param("photo", ty("ChatPhoto"));
    opt.optional = true;
    let defs = vec![
        type_def("chatPhoto", "ChatPhoto", vec![param("id", ty("Int64"))]),
        type_def(
            "chat",
            "Chat",
            vec![param("id", ty("Int53")), param("title", ty("String")), opt],
        ),
    ];
    let out = generate_rust_code(&defs, false);
    assert!(out.contains("pub struct Chat {"));
    assert!(out.contains("pub id: i64,"));
    assert!(out.contains("pub title: String,"));
    assert!(out.contains("#[serde(default)]"));
    assert!(out.contains("pub photo: Option<ChatPhoto>,"));
    assert!(out.contains("#[serde_as]"));
    assert!(out.contains("#[serde_as(as = \"DisplayFromStr\")]"));
    // Chat is default-derivable (scalar, text, optional), so Default is derived.
    assert!(out.contains("#[derive(Clone, Debug, Default, PartialEq, Deserialize, Serialize)]"));
}

#[test]
fn builtin_and_empty_types_are_skipped() {
    let defs = vec![
        type_def("ok", "Ok", vec![param("x", ty("Int32"))]),
        type_def("emptyThing", "EmptyThing", vec![]),
    ];
    let out = generate_rust_code(&defs, false);
    assert!(!out.contains("pub struct Ok"));
    assert!(!out.contains("pub struct EmptyThing"));
}

#[test]
fn emitted_function_shape() {
    let defs = vec![fn_def("getChat", "Chat", vec![param("chat_id", ty("Int53"))])];
    let out = generate_rust_code(&defs, false);
    assert!(out.contains("pub async fn get_chat(chat_id: i64, client_id: i32) -> Result<crate::types::Chat, crate::TdError> {"));
    assert!(out.contains("\"@type\": \"getChat\","));
    assert!(out.contains("\"chat_id\": chat_id,"));
    assert!(out.contains("let response = send_request(client_id, request).await;"));
    assert!(out.contains("expected_type: \"Chat\""));
}

#[test]
fn unit_returning_function_never_decodes_success() {
    let defs = vec![fn_def("ping", "Ok", vec![])];
    let out = generate_rust_code(&defs, false);
    assert!(out.contains("pub async fn ping(client_id: i32) -> Result<(), crate::TdError> {"));
    assert!(out.contains("Ok(())"));
    assert!(!out.contains("Ok(result) => Ok(result)"));
}

#[test]
fn filtering_consistency_between_emitters() {
    let mut restricted = param("admin_token", ty("String"));
    restricted.bots_only = true;
    let defs = vec![
        type_def(
            "session",
            "Session",
            vec![param("id", ty("Int53")), restricted.clone()],
        ),
        fn_def(
            "openSession",
            "Session",
            vec![param("id", ty("Int53")), restricted],
        ),
    ];
    let closed = generate_rust_code(&defs, false);
    assert!(!closed.contains("admin_token"));
    let open = generate_rust_code(&defs, true);
    assert!(open.contains("pub admin_token: String,"));
    assert!(open.contains("\"admin_token\": admin_token,"));
}

#[test]
fn restricted_definition_skipped_entirely() {
    let mut d = fn_def("botCommand", "Ok", vec![]);
    d.bots_only = true;
    let defs = vec![d];
    let closed = generate_rust_code(&defs, false);
    assert!(!closed.contains("bot_command"));
    let open = generate_rust_code(&defs, true);
    assert!(open.contains("pub async fn bot_command(client_id: i32)"));
}

#[test]
fn shared_text_representation_is_global() {
    let defs = vec![type_def("chat", "Chat", vec![param("title", ty("String"))])];
    let config = GeneratorConfig { gen_bots_only_api: false, use_shared_string: true };
    let out = generate_rust_code_with_config(&defs, &config);
    assert!(out.contains("use crate::TdString;"));
    assert!(out.contains("pub title: TdString,"));
}

use tdlib_rs::validate::{validate_definitions, SchemaError};

#[test]
fn validation_accepts_clean_schema() {
    let defs = vec![
        type_def("chat", "Chat", vec![param("id", ty("Int53")), param("title", ty("String"))]),
        fn_def("getChat", "Chat", vec![param("chat_id", ty("Int53"))]),
    ];
    assert!(validate_definitions(&defs).is_ok());
}

#[test]
fn validation_rejects_duplicate_names() {
    let defs = vec![
        type_def("chat", "Chat", vec![param("id", ty("Int53"))]),
        type_def("chat", "Chat", vec![param("title", ty("String"))]),
    ];
    match validate_definitions(&defs) {
        Err(SchemaError::DuplicateName(n)) => assert_eq!(n, "chat"),
        _ => panic!("expected a duplicate-name failure"),
    }
}

#[test]
fn validation_allows_same_name_across_categories() {
    let defs = vec![
        type_def("searchResult", "SearchResult", vec![param("id", ty("Int53"))]),
        fn_def("searchResult", "SearchResult", vec![]),
    ];
    assert!(validate_definitions(&defs).is_ok());
}

#[test]
fn validation_rejects_unresolved_field_type() {
    let defs = vec![type_def("chat", "Chat", vec![param("photo", ty("ChatPhoto"))])];
    match validate_definitions(&defs) {
        Err(SchemaError::UnresolvedType(n)) => assert_eq!(n, "ChatPhoto"),
        _ => panic!("expected an unresolved-type failure"),
    }
}

#[test]
fn validation_rejects_unresolved_return_type() {
    let defs = vec![fn_def("getChat", "Chat", vec![])];
    match validate_definitions(&defs) {
        Err(SchemaError::UnresolvedType(n)) => assert_eq!(n, "Chat"),
        _ => panic!("expected an unresolved-type failure"),
    }
}

#[test]
fn validation_resolves_vector_base_names() {
    let defs = vec![
        type_def("chat", "Chat", vec![param("id", ty("Int53"))]),
        type_def("chats", "Chats", vec![param("chats", vec_ty("Chat", 1))]),
    ];
    assert!(validate_definitions(&defs).is_ok());
}

#[test]
fn empty_definition_list_emits_module_shells() {
    let defs: Vec<Definition> = Vec::new();
    let out = generate_rust_code(&defs, false);
    assert!(out.contains("pub mod types {"));
    assert!(out.contains("pub mod functions {"));
    assert!(!out.contains("pub struct"));
    assert!(!out.contains("pub async fn"));
}

#[test]
fn multi_line_descriptions_stay_doc_comments() {
    let mut d = type_def("chat", "Chat", vec![param("id", ty("Int53"))]);
    d.description = "A chat.\nSecond line.".to_string();
    let out = generate_rust_code(&vec![d], false);
    assert!(out.contains("    /// A chat.\n    /// Second line.\n"));
}
