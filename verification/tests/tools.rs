use gemini_live_api::json::{JsonObject, JsonValue};
use gemini_live_api::tools::{
    argument, argument_error_message, arguments_object, classify, get_arc_inner_type,
    get_description_from_doc_attrs, get_result_types, result_error_message,
    rust_type_to_openai_json_schema_type, rust_type_to_schema_info, tool_function, finish_call, Argument,
    Arguments, FaultPlace, FnAttribute, FnInput, Parameter, Returns, Scalar, Segment, ToolError, ToolRun,
    ToolSource, TypeError, TypeExpr, TypeShape,
};

fn json(text: &str) -> JsonValue {
    JsonValue::parse(text).unwrap()
}

fn path(text: &str, idents: &[&str], args: Vec<Argument>) -> TypeExpr {
    let mut segments: Vec<Segment> = idents
        .iter()
        .map(|ident| Segment { ident: ident.to_string(), arguments: Arguments::Absent })
        .collect();
    if !args.is_empty() {
        segments.last_mut().unwrap().arguments = Arguments::AngleBracketed(args);
    }
    TypeExpr { text: text.to_string(), shape: TypeShape::Path { leading_colon: false, segments } }
}

fn simple(name: &str) -> TypeExpr {
    path(name, &[name], vec![])
}

fn option(inner: TypeExpr) -> TypeExpr {
    path(&format!("Option < {} >", inner.text), &["Option"], vec![Argument::Type(inner)])
}

fn other(text: &str) -> TypeExpr {
    TypeExpr { text: text.to_string(), shape: TypeShape::Other }
}

fn doc(text: &str) -> FnAttribute {
    FnAttribute { is_doc: true, text: Some(text.to_string()) }
}

fn input(name: &str, ty: TypeExpr) -> FnInput {
    FnInput::Typed { name: Some(name.to_string()), ty }
}

fn source(inputs: Vec<FnInput>) -> ToolSource {
    ToolSource {
        name: "f".to_string(),
        attribute: Some("Does f.".to_string()),
        attributes: vec![],
        is_async: true,
        inputs,
        output: None,
    }
}

#[test]
fn arc_types() {
    let state = || vec![Argument::Type(simple("State"))];
    assert_eq!(get_arc_inner_type(&path("Arc", &["Arc"], state())), Some(&simple("State")));
    assert_eq!(
        get_arc_inner_type(&path("a", &["std", "sync", "Arc"], state())),
        Some(&simple("State"))
    );
    assert_eq!(get_arc_inner_type(&path("a", &["sync", "Arc"], state())), None);
    assert_eq!(get_arc_inner_type(&path("a", &["alloc", "sync", "Arc"], state())), None);
    assert_eq!(get_arc_inner_type(&path("a", &["Arc"], vec![])), None);
    assert_eq!(get_arc_inner_type(&path("a", &["Arc"], vec![Argument::Other])), None);
    assert_eq!(get_arc_inner_type(&path("a", &["Rc"], state())), None);
    assert_eq!(get_arc_inner_type(&other("&T")), None);
    let mut absolute = path("a", &["std", "sync", "x", "Arc"], state());
    assert_eq!(get_arc_inner_type(&absolute), None);
    if let TypeShape::Path { leading_colon, .. } = &mut absolute.shape {
        *leading_colon = true;
    }
    assert_eq!(get_arc_inner_type(&absolute), Some(&simple("State")));
}

#[test]
fn result_type_arguments() {
    let args = || vec![Argument::Type(simple("u8")), Argument::Type(simple("E"))];
    assert_eq!(
        get_result_types(&path("r", &["Result"], args())),
        Some((&simple("u8"), &simple("E")))
    );
    assert!(get_result_types(&path("r", &["std", "result", "Result"], args())).is_some());
    assert_eq!(
        get_result_types(&path("r", &["Result"], vec![Argument::Type(simple("u8"))])),
        None
    );
    assert_eq!(
        get_result_types(&path("r", &["Result"], vec![
            Argument::Type(simple("u8")),
            Argument::Other
        ])),
        None
    );
    assert_eq!(get_result_types(&path("r", &["Either"], args())), None);
    assert_eq!(get_result_types(&simple("Result")), None);
    assert_eq!(get_result_types(&other("()")), None);
}

#[test]
fn descriptions() {
    assert_eq!(get_description_from_doc_attrs(&vec![]), None);
    assert_eq!(
        get_description_from_doc_attrs(&vec![
            doc(" First. "),
            FnAttribute { is_doc: false, text: Some("no".to_string()) },
            FnAttribute { is_doc: true, text: None },
            doc(""),
            doc(" Last."),
        ]),
        Some("First.\n\nLast.".to_string())
    );
}

#[test]
fn scalar_types() {
    let cases = [
        ("String", "STRING", "string"),
        ("i8", "INTEGER", "integer"),
        ("i16", "INTEGER", "integer"),
        ("i32", "INTEGER", "integer"),
        ("i64", "INTEGER", "integer"),
        ("u8", "INTEGER", "integer"),
        ("u16", "INTEGER", "integer"),
        ("u32", "INTEGER", "integer"),
        ("u64", "INTEGER", "integer"),
        ("isize", "INTEGER", "integer"),
        ("usize", "INTEGER", "integer"),
        ("f32", "NUMBER", "number"),
        ("f64", "NUMBER", "number"),
        ("bool", "BOOLEAN", "boolean"),
    ];
    for (name, gemini, openai) in cases {
        assert_eq!(rust_type_to_schema_info(&simple(name)), Ok((gemini.to_string(), false)));
        assert_eq!(
            rust_type_to_openai_json_schema_type(&option(option(simple(name)))),
            Ok((openai.to_string(), true))
        );
    }
    assert_eq!(classify(&path("s", &["std", "string", "String"], vec![])), Ok((
        Scalar::Text,
        false
    )));
}

#[test]
fn types_that_are_refused() {
    let unsupported = option(simple("i128"));
    assert_eq!(
        rust_type_to_schema_info(&unsupported),
        Err(TypeError {
            at: "i128".to_string(),
            message: "Unsupported parameter type for Gemini/OpenAI schema: i128. Supported types: String, iXX/uXX, fXX, bool, Option<T>.".to_string(),
        })
    );
    assert_eq!(
        rust_type_to_openai_json_schema_type(&unsupported).unwrap_err().message,
        "Unsupported parameter type for OpenAI schema: i128. Supported types: String, iXX/uXX, fXX, bool, Option<T>."
    );
    assert_eq!(
        rust_type_to_schema_info(&simple("Option")).unwrap_err().message,
        "Option type must have a generic argument (e.g., Option<String>)."
    );
    assert_eq!(
        rust_type_to_openai_json_schema_type(&path("o", &["Option"], vec![Argument::Other]))
            .unwrap_err()
            .message,
        "Option type must have a generic argument (e.g., Option<String>)."
    );
    assert_eq!(
        rust_type_to_schema_info(&other("& str")).unwrap_err().message,
        "Parameter type must be a simple path type."
    );
    assert_eq!(
        rust_type_to_openai_json_schema_type(&other("& str")).unwrap_err().message,
        "Parameter type must be a simple path type for OpenAI schema."
    );
}

#[test]
fn a_tool_with_state_and_arguments() {
    let arc = path("Arc < State >", &["Arc"], vec![Argument::Type(simple("State"))]);
    let mut function =
        source(vec![input("state", arc), input("a", simple("f64")), input("b", option(simple("bool")))]);
    function.name = "sum".to_string();
    function.attribute = None;
    function.attributes = vec![doc(" Adds.")];
    function.output = Some(path("Result < u8 , E >", &["Result"], vec![
        Argument::Type(simple("u8")),
        Argument::Type(simple("E")),
    ]));
    let plan = tool_function(&function).unwrap();
    assert_eq!(plan.name, "sum");
    assert_eq!(plan.description, "Adds.");
    assert_eq!(plan.state_type.as_deref(), Some("State"));
    assert_eq!(plan.parameters, vec![
        Parameter { name: "a".to_string(), scalar: Scalar::Number, optional: false },
        Parameter { name: "b".to_string(), scalar: Scalar::Boolean, optional: true },
    ]);
    assert_eq!(
        plan.gemini_declaration.to_json().to_text().unwrap(),
        r#"{"name":"sum","description":"Adds.","parameters":{"type":"OBJECT","properties":{"a":{"type":"NUMBER"},"b":{"type":"BOOLEAN"}},"required":["a"]}}"#
    );
    let definition = plan.openai_definition.to_text().unwrap();
    assert_eq!(
        definition,
        r#"{"type":"function","name":"sum","description":"Adds.","parameters":{"type":"object","properties":{"a":{"type":"number"},"b":{"type":"boolean"}},"required":["a"]}}"#
    );
    assert_eq!(json(&definition), plan.openai_definition);
    assert_eq!(plan.result_form, Returns::Fallible { ok_type: "u8".to_string() });
}

#[test]
fn a_tool_without_arguments() {
    let mut function = source(vec![]);
    function.attributes = vec![doc("unused")];
    let plan = tool_function(&function).unwrap();
    assert_eq!(plan.state_type, None);
    assert_eq!(
        plan.gemini_declaration.to_json(),
        json(r#"{"name":"f","description":"Does f."}"#)
    );
    assert_eq!(
        plan.openai_definition,
        json(
            r#"{"type":"function","name":"f","description":"Does f.","parameters":{"type":"object","properties":{}}}"#
        )
    );
    assert_eq!(plan.result_form, Returns::Nothing);
    function.output = Some(simple("String"));
    assert_eq!(
        tool_function(&function).unwrap().result_form,
        Returns::Value { value_type: "String".to_string() }
    );
}

#[test]
fn a_tool_with_optional_arguments_only() {
    let plan = tool_function(&source(vec![input("a", option(simple("i32")))])).unwrap();
    assert_eq!(
        plan.gemini_declaration.to_json(),
        json(
            r#"{"name":"f","description":"Does f.","parameters":{"type":"OBJECT","properties":{"a":{"type":"INTEGER"}}}}"#
        )
    );
    assert_eq!(
        plan.openai_definition.get("parameters").unwrap().get("required"),
        Some(&json("[]"))
    );
}

#[test]
fn tools_that_are_refused() {
    let mut function = source(vec![]);
    function.attribute = None;
    function.is_async = false;
    assert_eq!(
        tool_function(&function).unwrap_err(),
        ToolError {
            place: FaultPlace::Name,
            message: "Missing tool description: Add a /// doc comment or provide it in the attribute, e.g., #[tool_function(\"My description\")]".to_string(),
        }
    );
    function.attributes = vec![doc("d")];
    assert_eq!(
        tool_function(&function).unwrap_err(),
        ToolError {
            place: FaultPlace::FnKeyword,
            message: "Tool function must be async".to_string(),
        }
    );
    assert_eq!(
        tool_function(&source(vec![FnInput::Receiver])).unwrap_err(),
        ToolError {
            place: FaultPlace::Input(0),
            message: "Tool function parameters cannot be `self`".to_string(),
        }
    );
    let unnamed = FnInput::Typed { name: None, ty: simple("i32") };
    assert_eq!(
        tool_function(&source(vec![input("a", simple("i32")), unnamed, FnInput::Receiver]))
            .unwrap_err(),
        ToolError {
            place: FaultPlace::Pattern(1),
            message: "Tool function parameters must be simple identifiers (e.g., `my_arg: String`)"
                .to_string(),
        }
    );
    let arc = path("Arc < S >", &["Arc"], vec![Argument::Type(simple("S"))]);
    let twice = source(vec![
        input("s", arc),
        input("t", path("Arc < S >", &["Arc"], vec![Argument::Type(simple("S"))])),
    ]);
    assert_eq!(
        tool_function(&twice).unwrap_err().place,
        FaultPlace::ParameterType { input: 1, at: "Arc < S >".to_string() }
    );
}

fn object(text: &str) -> JsonObject {
    arguments_object("t", 1, Some(json(text))).unwrap()
}

#[test]
fn argument_objects() {
    assert_eq!(object(r#"{"a":1}"#).get("a"), Some(&json("1")));
    assert_eq!(arguments_object("t", 0, None), Ok(JsonObject::new()));
    assert_eq!(arguments_object("t", 0, Some(json("7"))), Ok(JsonObject::new()));
    assert_eq!(arguments_object("t", 0, Some(json(r#"{"x":1}"#))).unwrap().get("x"), Some(&json("1")));
    assert_eq!(
        arguments_object("t", 2, None).unwrap_err(),
        "Tool 't' requires arguments (a JSON object), but got null/none."
    );
    assert_eq!(
        arguments_object("t", 2, Some(json("\"x\""))).unwrap_err(),
        "Tool 't' arguments must be a JSON object, got: String(\"x\")"
    );
}

#[test]
fn single_arguments() {
    let args = object(r#"{"a":"x","n":null}"#);
    assert_eq!(argument(&args, "a", false), Ok(Some(json("\"x\""))));
    assert_eq!(argument(&args, "a", true), Ok(Some(json("\"x\""))));
    assert_eq!(argument(&args, "n", true), Ok(None));
    assert_eq!(argument(&args, "n", false), Ok(Some(JsonValue::Null)));
    assert_eq!(argument(&args, "z", true), Ok(None));
    assert_eq!(argument(&args, "z", false), Err("Missing required argument 'z'".to_string()));
}

#[test]
fn adapter_messages() {
    assert_eq!(
        argument_error_message("a", true, "e", &json("true")),
        "Failed to parse optional argument 'a': e from value Bool(true)"
    );
    assert_eq!(
        argument_error_message("a", false, "e", &JsonValue::Null),
        "Failed to parse required argument 'a': e from value Null"
    );
    assert_eq!(
        result_error_message(&Returns::Fallible { ok_type: "T".to_string() }, "e"),
        "Failed to serialize success result type T: e"
    );
    assert_eq!(
        result_error_message(&Returns::Value { value_type: "T".to_string() }, "e"),
        "Failed to serialize function result type T: e"
    );
}

#[test]
fn handlers_resolve() {
    let value = || Returns::Value { value_type: "T".to_string() };
    let fallible = || Returns::Fallible { ok_type: "T".to_string() };
    assert_eq!(finish_call(&Returns::Nothing, ToolRun::Finished), Ok(JsonValue::Null));
    assert_eq!(
        finish_call(&value(), ToolRun::Serialized(Ok(json("[1]")))),
        Ok(json("[1]"))
    );
    assert_eq!(
        finish_call(&fallible(), ToolRun::Serialized(Ok(json("true")))),
        Ok(json("true"))
    );
    assert_eq!(
        finish_call(&fallible(), ToolRun::Failed("own".to_string())),
        Err("own".to_string())
    );
    assert_eq!(
        finish_call(&fallible(), ToolRun::Serialized(Err("e".to_string()))),
        Err("Failed to serialize success result type T: e".to_string())
    );
    assert_eq!(
        finish_call(&value(), ToolRun::Serialized(Err("e".to_string()))),
        Err("Failed to serialize function result type T: e".to_string())
    );
}

#[test]
fn what_the_schema_requires_a_call_must_bring() {
    let plan = tool_function(&source(vec![
        input("a", simple("i32")),
        input("b", option(simple("String"))),
    ]))
    .unwrap();
    let required = plan.openai_definition.get("parameters").unwrap().get("required").unwrap();
    let none = JsonObject::new();
    for parameter in &plan.parameters {
        let listed = required.as_array().unwrap().contains(&JsonValue::string(&parameter.name));
        assert_eq!(argument(&none, &parameter.name, parameter.optional).is_err(), listed);
    }
}
