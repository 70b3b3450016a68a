use zzrpc::derive::{
    api, extract_return_type, extract_stream_item_type, field_name, modify_trait, pattern_arguments, plan_method,
    produce_macro_name, skip_self, variant_name, ApiTrait, Arg, Bound, GenericArg, MacroError, Method, Output,
    PathArguments, ReturnValue, Segment,
};

fn s(text: &str) -> String {
    text.to_string()
}

fn receiver() -> Arg {
    Arg::Receiver
}

fn typed(name: &str, ty: &str) -> Arg {
    Arg::Typed { ident: Some(s(name)), ty: s(ty) }
}

fn stream_of(item: &str) -> Output {
    Output::ImplTrait(vec![Bound::Trait(vec![Segment {
        ident: s("Stream"),
        arguments: PathArguments::AngleBracketed(vec![GenericArg::Binding { ident: s("Item"), ty: s(item) }]),
    }])])
}

fn method(name: &str, inputs: Vec<Arg>, output: Output) -> Method {
    Method { name: s(name), is_async: true, is_generic: false, inputs, output }
}

/// The trait of the api used throughout: a hello world, two value methods
/// and two streaming methods.
fn api_trait() -> ApiTrait {
    ApiTrait {
        is_generic: false,
        methods: vec![
            method("hello_world", vec![receiver()], Output::Default),
            method("add_numbers", vec![receiver(), typed("a", "i32"), typed("b", "i32")], Output::Type(s("i32"))),
            method(
                "concatenate_strings",
                vec![receiver(), typed("a", "String"), typed("b", "String")],
                Output::Type(s("String")),
            ),
            method("stream_natural_numbers", vec![receiver()], stream_of("usize")),
            method("stream_time", vec![receiver(), typed("interval", "Duration")], stream_of("NaiveTime")),
        ],
    }
}

fn item_text(v: &ReturnValue) -> String {
    match v {
        ReturnValue::Unit => s("()"),
        ReturnValue::Type(t) => t.clone(),
    }
}

#[test]
fn test_request() {
    let plan = api(&api_trait()).unwrap();
    let variants: Vec<(String, Vec<(String, String)>)> = plan
        .methods
        .iter()
        .map(|m| (m.variant.clone(), m.fields.iter().map(|f| (f.ident.clone(), f.ty.clone())).collect()))
        .collect();
    assert_eq!(
        variants,
        vec![
            (s("HelloWorld"), vec![]),
            (s("AddNumbers"), vec![(s("a"), s("i32")), (s("b"), s("i32"))]),
            (s("ConcatenateStrings"), vec![(s("a"), s("String")), (s("b"), s("String"))]),
            (s("StreamNaturalNumbers"), vec![]),
            (s("StreamTime"), vec![(s("interval"), s("Duration"))]),
        ]
    );
}

#[test]
fn test_response() {
    let plan = api(&api_trait()).unwrap();
    let variants: Vec<(String, bool, String)> =
        plan.methods.iter().map(|m| (m.variant.clone(), m.stream, item_text(&m.item))).collect();
    assert_eq!(
        variants,
        vec![
            (s("HelloWorld"), false, s("()")),
            (s("AddNumbers"), false, s("i32")),
            (s("ConcatenateStrings"), false, s("String")),
            (s("StreamNaturalNumbers"), true, s("usize")),
            (s("StreamTime"), true, s("NaiveTime")),
        ]
    );
}

#[test]
fn test_consumer_senders() {
    let plan = api(&api_trait()).unwrap();
    let senders: Vec<(String, String)> = plan.methods.iter().map(|m| (m.sender.clone(), item_text(&m.item))).collect();
    assert_eq!(
        senders,
        vec![
            (s("hello_world__sender"), s("()")),
            (s("add_numbers__sender"), s("i32")),
            (s("concatenate_strings__sender"), s("String")),
            (s("stream_natural_numbers__sender"), s("usize")),
            (s("stream_time__sender"), s("NaiveTime")),
        ]
    );
}

#[test]
fn test_consumer_state() {
    let plan = api(&api_trait()).unwrap();
    let fields: Vec<(String, String, bool)> =
        plan.methods.iter().map(|m| (m.requests.clone(), m.receiver.clone(), m.stream)).collect();
    assert_eq!(
        fields,
        vec![
            (s("hello_world__requests"), s("hello_world__receiver"), false),
            (s("add_numbers__requests"), s("add_numbers__receiver"), false),
            (s("concatenate_strings__requests"), s("concatenate_strings__receiver"), false),
            (s("stream_natural_numbers__requests"), s("stream_natural_numbers__receiver"), true),
            (s("stream_time__requests"), s("stream_time__receiver"), true),
        ]
    );
}

#[test]
fn test_modify_trait() {
    let signatures = modify_trait(&api_trait()).unwrap();
    let signatures: Vec<(bool, String)> = signatures.iter().map(|sig| (sig.stream, item_text(&sig.item))).collect();
    assert_eq!(
        signatures,
        vec![
            (false, s("()")),
            (false, s("i32")),
            (false, s("String")),
            (true, s("usize")),
            (true, s("NaiveTime")),
        ]
    );
}

#[test]
fn modify_trait_rejections() {
    let mut generic = api_trait();
    generic.is_generic = true;
    generic.methods[0].is_async = false;
    assert_eq!(modify_trait(&generic).err(), Some(MacroError::GenericTrait));

    let mut not_async = api_trait();
    not_async.methods[2].is_async = false;
    not_async.methods[3].is_generic = true;
    assert_eq!(modify_trait(&not_async).err(), Some(MacroError::NotAsync));

    let mut generic_method = api_trait();
    generic_method.methods[1].is_generic = true;
    assert_eq!(modify_trait(&generic_method).err(), Some(MacroError::GenericMethod));
    assert_eq!(api(&generic_method).err(), Some(MacroError::GenericMethod));

    let mut bad_stream = api_trait();
    bad_stream.methods[4].output = Output::ImplTrait(vec![Bound::Other]);
    assert_eq!(modify_trait(&bad_stream).err(), Some(MacroError::InvalidStreamType));
    assert_eq!(
        MacroError::InvalidStreamType.message(),
        "invalid stream request method return type"
    );
    assert_eq!(MacroError::NotAsync.message(), "all api methods should be marked as \"async\"");
}

#[test]
fn stream_item_type_shapes() {
    let item = |bounds: Vec<Bound>| extract_stream_item_type(&bounds);
    assert_eq!(item(match stream_of("u8") { Output::ImplTrait(b) => b, _ => unreachable!() }), Ok(s("u8")));
    assert_eq!(item(vec![]), Err(MacroError::InvalidStreamType));
    let wrong_name = vec![Bound::Trait(vec![Segment {
        ident: s("Iterator"),
        arguments: PathArguments::AngleBracketed(vec![GenericArg::Binding { ident: s("Item"), ty: s("u8") }]),
    }])];
    assert_eq!(item(wrong_name), Err(MacroError::InvalidStreamType));
    let wrong_binding = vec![Bound::Trait(vec![Segment {
        ident: s("Stream"),
        arguments: PathArguments::AngleBracketed(vec![GenericArg::Binding { ident: s("Output"), ty: s("u8") }]),
    }])];
    assert_eq!(item(wrong_binding), Err(MacroError::InvalidStreamType));
    let no_arguments = vec![Bound::Trait(vec![Segment { ident: s("Stream"), arguments: PathArguments::Other }])];
    assert_eq!(item(no_arguments), Err(MacroError::InvalidStreamType));
    let two_bounds = vec![
        Bound::Trait(vec![Segment {
            ident: s("Stream"),
            arguments: PathArguments::AngleBracketed(vec![GenericArg::Binding { ident: s("Item"), ty: s("u8") }]),
        }]),
        Bound::Other,
    ];
    assert_eq!(item(two_bounds), Err(MacroError::InvalidStreamType));
    assert!(matches!(extract_return_type(&Output::Default), Ok(ReturnValue::Unit)));
    assert!(matches!(extract_return_type(&Output::Type(s("bool"))), Ok(ReturnValue::Type(t)) if t == "bool"));
}

#[test]
fn arguments_skip_self_and_patterns() {
    let inputs = vec![
        receiver(),
        typed("self", "Self"),
        Arg::Typed { ident: None, ty: s("(u8, u8)") },
        typed("x", "u64"),
        typed("y", "bool"),
    ];
    let fields: Vec<(String, String)> = skip_self(&inputs).into_iter().map(|f| (f.ident, f.ty)).collect();
    assert_eq!(fields, vec![(s("x"), s("u64")), (s("y"), s("bool"))]);
    assert_eq!(pattern_arguments(&inputs), vec![s("x"), s("y")]);
}

#[test]
fn generated_names() {
    assert_eq!(variant_name(&s("add_numbers")), "AddNumbers");
    assert_eq!(field_name(&s("AddNumbers"), "sender"), "add_numbers__sender");
    assert_eq!(field_name(&s("streamTime"), "option"), "stream_time__option");
    let plan = plan_method(&method("stream_time", vec![receiver(), typed("interval", "Duration")], stream_of("NaiveTime")))
        .unwrap();
    assert_eq!(plan.name, "stream_time");
    assert_eq!(plan.arguments, vec![s("interval")]);
}

#[test]
fn produce_macro_names_are_fresh() {
    let a = produce_macro_name();
    let b = produce_macro_name();
    assert_eq!(a.len(), 47);
    assert!(a.starts_with("__impl_produce_"));
    assert!(a[15..].chars().all(|c| c.is_ascii_digit() || ('a'..='f').contains(&c)));
    assert_ne!(a, b);
}

#[test]
fn names_from_given_text() {
    assert_eq!(zzrpc::derive::suffixed_name(s("stream_time"), "requests"), "stream_time__requests");
    assert_eq!(zzrpc::derive::produce_macro_ident(&s("0123abcd")), "__impl_produce_0123abcd");
}
