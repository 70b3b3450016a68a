//! What the `api` attribute derives from a trait: for each method, the
//! names of the generated items, whether it streams, what it yields and which
//! arguments its request carries; and the checks that reject a trait.
//!
//! The trait is given as plain values: identifiers and types as their text.

use vstd::prelude::*;
use vstd::string::*;
use crate::naming::{is_lower_hex, pascal_case, random_uuid_simple, snake_case, to_pascal_case, to_snake_case};

verus! {

broadcast use vstd::string::to_string_from_display_ensures_for_str;

/// A named, typed argument.
#[derive(Debug)]
pub struct Field {
    /// The argument's name.
    pub ident: String,
    /// The argument's type.
    pub ty: String,
}

/// An argument of a trait method.
#[derive(Debug)]
pub enum Arg {
    /// The receiver (`self`, `&self`, ...).
    Receiver,
    /// A typed argument; `ident` is its name when its pattern is a plain
    /// identifier.
    Typed { ident: Option<String>, ty: String },
}

/// An argument in angle brackets of a path segment.
#[derive(Debug)]
pub enum GenericArg {
    /// An associated type binding `ident = ty`.
    Binding { ident: String, ty: String },
    /// Any other argument.
    Other,
}

/// The arguments of a path segment.
#[derive(Debug)]
pub enum PathArguments {
    /// Arguments in angle brackets.
    AngleBracketed(Vec<GenericArg>),
    /// No arguments, or arguments in parentheses.
    Other,
}

/// A segment of a trait bound's path.
#[derive(Debug)]
pub struct Segment {
    /// The segment's identifier.
    pub ident: String,
    /// Its arguments.
    pub arguments: PathArguments,
}

/// A bound of an `impl Trait` type.
#[derive(Debug)]
pub enum Bound {
    /// A trait bound, by the segments of its path.
    Trait(Vec<Segment>),
    /// Any other bound (a lifetime).
    Other,
}

/// The return type of a trait method.
#[derive(Debug)]
pub enum Output {
    /// No return type.
    Default,
    /// A type other than `impl Trait`.
    Type(String),
    /// An `impl Trait` type, by its bounds.
    ImplTrait(Vec<Bound>),
}

/// A method of an api trait.
#[derive(Debug)]
pub struct Method {
    /// The method's name.
    pub name: String,
    /// It is declared `async`.
    pub is_async: bool,
    /// It has generic parameters.
    pub is_generic: bool,
    /// Its arguments.
    pub inputs: Vec<Arg>,
    /// Its return type.
    pub output: Output,
}

/// An api trait, by its methods.
#[derive(Debug)]
pub struct ApiTrait {
    /// The trait has generic parameters.
    pub is_generic: bool,
    /// Its methods, in order.
    pub methods: Vec<Method>,
}

/// What a request yields: nothing, or a value of a type.
#[derive(Debug)]
pub enum ReturnValue {
    /// `()`.
    Unit,
    /// A value of the type with this text.
    Type(String),
}

/// Why a trait cannot be made an api.
#[derive(Debug, Clone, Copy, PartialEq, Eq, Structural)]
pub enum MacroError {
    /// The trait is generic.
    GenericTrait,
    /// A method is not `async`.
    NotAsync,
    /// A method is generic.
    GenericMethod,
    /// A method returns an `impl Trait` that is not `impl Stream<Item = T>`.
    InvalidStreamType,
}

impl MacroError {
    /// The message a macro reports for the error.
    pub fn message(&self) -> (r: &'static str)
        ensures
            r@ == macro_error_text(*self),
    {
        match self {
            MacroError::GenericTrait => "generic traits are not supported",
            MacroError::NotAsync => "all api methods should be marked as \"async\"",
            MacroError::GenericMethod => "generic methods are not supported",
            MacroError::InvalidStreamType => "invalid stream request method return type",
        }
    }
}

/// The message of a macro error.
pub open spec fn macro_error_text(e: MacroError) -> Seq<char> {
    match e {
        MacroError::GenericTrait => "generic traits are not supported"@,
        MacroError::NotAsync => "all api methods should be marked as \"async\""@,
        MacroError::GenericMethod => "generic methods are not supported"@,
        MacroError::InvalidStreamType => "invalid stream request method return type"@,
    }
}

/// The field a request carries for an argument: every typed argument named
/// by a plain identifier other than `self`.
pub open spec fn named_field(a: Arg) -> Option<Field> {
    match a {
        Arg::Typed { ident: Some(n), ty } => if n@ != "self"@ { Some(Field { ident: n, ty }) } else { None },
        _ => None,
    }
}

/// The fields a request carries for the arguments, in order.
pub open spec fn named_fields(s: Seq<Arg>) -> Seq<Field>
    decreases s.len(),
{
    if s.len() == 0 {
        Seq::empty()
    } else {
        let rest = named_fields(s.drop_last());
        match named_field(s.last()) {
            Some(f) => rest.push(f),
            None => rest,
        }
    }
}

/// The names of the fields a request carries for the arguments, in order.
pub open spec fn field_names(s: Seq<Arg>) -> Seq<String>
    decreases s.len(),
{
    if s.len() == 0 {
        Seq::empty()
    } else {
        let rest = field_names(s.drop_last());
        match named_field(s.last()) {
            Some(f) => rest.push(f.ident),
            None => rest,
        }
    }
}

/// The item type of `impl Stream<Item = T>`, given by its bounds: exactly
/// one trait bound, whose path is the one segment `Stream` with the one
/// argument `Item = T`.
pub open spec fn stream_item(b: Seq<Bound>) -> Option<String> {
    if b.len() == 1 {
        match b[0] {
            Bound::Trait(segments) => if segments@.len() == 1 && segments@[0].ident@ == "Stream"@ {
                match segments@[0].arguments {
                    PathArguments::AngleBracketed(args) => if args@.len() == 1 {
                        match args@[0] {
                            GenericArg::Binding { ident, ty } => if ident@ == "Item"@ { Some(ty) } else { None },
                            GenericArg::Other => None,
                        }
                    } else {
                        None
                    },
                    PathArguments::Other => None,
                }
            } else {
                None
            },
            Bound::Other => None,
        }
    } else {
        None
    }
}

/// What a method with this return type yields; `None` when it returns an
/// `impl Trait` that is no stream.
pub open spec fn return_value(o: Output) -> Option<ReturnValue> {
    match o {
        Output::Default => Some(ReturnValue::Unit),
        Output::Type(t) => Some(ReturnValue::Type(t)),
        Output::ImplTrait(b) => match stream_item(b@) {
            Some(t) => Some(ReturnValue::Type(t)),
            None => None,
        },
    }
}

/// The signature a method gets in the generated api trait: a future of a
/// value request, or of a streaming request, of what it yields.
#[derive(Debug)]
pub struct Signature {
    /// It returns a streaming request.
    pub stream: bool,
    /// What the request yields (the item type, for a stream).
    pub item: ReturnValue,
}

/// The signature of a method, or why the method is rejected.
pub open spec fn method_signature(m: Method) -> Result<Signature, MacroError> {
    if !m.is_async {
        Err(MacroError::NotAsync)
    } else if m.is_generic {
        Err(MacroError::GenericMethod)
    } else {
        match return_value(m.output) {
            Some(item) => Ok(Signature { stream: m.output is ImplTrait, item }),
            None => Err(MacroError::InvalidStreamType),
        }
    }
}

/// The signatures of the methods, in order, or the first rejection.
pub open spec fn method_signatures(ms: Seq<Method>) -> Result<Seq<Signature>, MacroError>
    decreases ms.len(),
{
    if ms.len() == 0 {
        Ok(Seq::empty())
    } else {
        match method_signatures(ms.drop_last()) {
            Err(e) => Err(e),
            Ok(s) => match method_signature(ms.last()) {
                Err(e) => Err(e),
                Ok(sig) => Ok(s.push(sig)),
            },
        }
    }
}

/// The signatures of the generated api trait, or why the trait is rejected.
pub open spec fn modified_trait(t: ApiTrait) -> Result<Seq<Signature>, MacroError> {
    if t.is_generic {
        Err(MacroError::GenericTrait)
    } else {
        method_signatures(t.methods@)
    }
}

/// A trait whose methods all have signatures has a stream item for each
/// streaming method.
pub proof fn lemma_signatures_valid(ms: Seq<Method>)
    requires
        method_signatures(ms) is Ok,
    ensures
        method_signatures(ms)->Ok_0.len() == ms.len(),
        forall|i: int| 0 <= i < ms.len() ==> #[trigger] method_signature(ms[i]) is Ok,
        forall|i: int| 0 <= i < ms.len() ==> method_signatures(ms)->Ok_0[i] == method_signature(ms[i])->Ok_0,
    decreases ms.len(),
{
    if ms.len() > 0 {
        lemma_signatures_valid(ms.drop_last());
        assert forall|i: int| 0 <= i < ms.len() implies #[trigger] method_signature(ms[i]) is Ok by {
            if i < ms.len() - 1 {
                assert(ms.drop_last()[i] == ms[i]);
            }
        }
        assert forall|i: int| 0 <= i < ms.len() implies method_signatures(ms)->Ok_0[i] == method_signature(ms[i])->Ok_0 by {
            if i < ms.len() - 1 {
                assert(ms.drop_last()[i] == ms[i]);
            }
        }
    }
}

fn copy_string(s: &String) -> (r: String)
    ensures
        r == *s,
{
    s.clone()
}

/// The fields a request carries for the arguments: the named ones other
/// than `self`, in order.
pub fn skip_self(arguments: &Vec<Arg>) -> (r: Vec<Field>)
    ensures
        r@ == named_fields(arguments@),
{
    let mut out: Vec<Field> = Vec::new();
    let mut i: usize = 0;
    while i < arguments.len()
        invariant
            i <= arguments@.len(),
            out@ == named_fields(arguments@.take(i as int)),
        decreases arguments@.len() - i,
    {
        proof {
            assert(arguments@.take(i + 1).drop_last() =~= arguments@.take(i as int));
            assert(arguments@.take(i + 1).last() == arguments@[i as int]);
        }
        match &arguments[i] {
            Arg::Typed { ident: Some(n), ty } => {
                let is_self = *n == "self".to_string();
                if !is_self {
                    out.push(Field { ident: copy_string(n), ty: copy_string(ty) });
                }
            },
            _ => {},
        }
        i = i + 1;
    }
    proof {
        assert(arguments@.take(arguments@.len() as int) =~= arguments@);
    }
    out
}

/// The names of the fields a request carries for the arguments, in order:
/// the pattern that binds them.
pub fn pattern_arguments(arguments: &Vec<Arg>) -> (r: Vec<String>)
    ensures
        r@ == field_names(arguments@),
{
    let mut out: Vec<String> = Vec::new();
    let mut i: usize = 0;
    while i < arguments.len()
        invariant
            i <= arguments@.len(),
            out@ == field_names(arguments@.take(i as int)),
        decreases arguments@.len() - i,
    {
        proof {
            assert(arguments@.take(i + 1).drop_last() =~= arguments@.take(i as int));
            assert(arguments@.take(i + 1).last() == arguments@[i as int]);
        }
        match &arguments[i] {
            Arg::Typed { ident: Some(n), .. } => {
                let is_self = *n == "self".to_string();
                if !is_self {
                    out.push(copy_string(n));
                }
            },
            _ => {},
        }
        i = i + 1;
    }
    proof {
        assert(arguments@.take(arguments@.len() as int) =~= arguments@);
    }
    out
}

/// Whether a method with this return type streams: it returns `impl Trait`.
pub fn is_stream(output: &Output) -> (r: bool)
    ensures
        r == (*output is ImplTrait),
{
    match output {
        Output::ImplTrait(_) => true,
        _ => false,
    }
}

/// The item type of a stream that a method returns as `impl Trait` with
/// these bounds; an error unless the bounds are `Stream<Item = T>`.
pub fn extract_stream_item_type(bounds: &Vec<Bound>) -> (r: Result<String, MacroError>)
    ensures
        r == (match stream_item(bounds@) {
            Some(t) => Ok(t),
            None => Err(MacroError::InvalidStreamType),
        }),
{
    if bounds.len() == 1 {
        if let Bound::Trait(segments) = &bounds[0] {
            if segments.len() == 1 {
                let stream = &segments[0];
                let is_stream_name = stream.ident == "Stream".to_string();
                if is_stream_name {
                    if let PathArguments::AngleBracketed(arguments) = &stream.arguments {
                        if arguments.len() == 1 {
                            if let GenericArg::Binding { ident, ty } = &arguments[0] {
                                let is_item = *ident == "Item".to_string();
                                if is_item {
                                    return Ok(copy_string(ty));
                                }
                            }
                        }
                    }
                }
            }
        }
    }
    Err(MacroError::InvalidStreamType)
}

fn copy_return_value(v: &ReturnValue) -> (r: ReturnValue)
    ensures
        r == *v,
{
    match v {
        ReturnValue::Unit => ReturnValue::Unit,
        ReturnValue::Type(t) => ReturnValue::Type(copy_string(t)),
    }
}

/// What a method with this return type yields: `()` when it has none, the
/// stream's item type for `impl Stream<Item = T>`, otherwise its type.
pub fn extract_return_type(output: &Output) -> (r: Result<ReturnValue, MacroError>)
    ensures
        r == (match return_value(*output) {
            Some(v) => Ok(v),
            None => Err(MacroError::InvalidStreamType),
        }),
{
    match output {
        Output::Default => Ok(ReturnValue::Unit),
        Output::Type(t) => Ok(ReturnValue::Type(copy_string(t))),
        Output::ImplTrait(bounds) => match extract_stream_item_type(bounds) {
            Ok(t) => Ok(ReturnValue::Type(t)),
            Err(e) => Err(e),
        },
    }
}

fn signature_of(m: &Method) -> (r: Result<Signature, MacroError>)
    ensures
        r == method_signature(*m),
{
    if !m.is_async {
        return Err(MacroError::NotAsync);
    }
    if m.is_generic {
        return Err(MacroError::GenericMethod);
    }
    match extract_return_type(&m.output) {
        Ok(item) => Ok(Signature { stream: is_stream(&m.output), item }),
        Err(e) => Err(e),
    }
}

/// The signatures of the methods of the generated api trait, in order: each
/// returns a value request or a streaming request instead of being `async`.
/// A generic trait, a method that is not `async` or is generic, or one that
/// returns an `impl Trait` that is no stream, is rejected: the first such
/// fault in the order of the methods.
pub fn modify_trait(api: &ApiTrait) -> (r: Result<Vec<Signature>, MacroError>)
    ensures
        match modified_trait(*api) {
            Ok(s) => r matches Ok(v) && v@ == s,
            Err(e) => r == Err::<Vec<Signature>, MacroError>(e),
        },
{
    if api.is_generic {
        return Err(MacroError::GenericTrait);
    }
    let ms = &api.methods;
    let mut out: Vec<Signature> = Vec::new();
    let mut i: usize = 0;
    while i < ms.len()
        invariant
            i <= ms@.len(),
            method_signatures(ms@.take(i as int)) == Ok::<Seq<Signature>, MacroError>(out@),
            !api.is_generic,
            ms@ == api.methods@,
        decreases ms@.len() - i,
    {
        proof {
            assert(ms@.take(i + 1).drop_last() =~= ms@.take(i as int));
            assert(ms@.take(i + 1).last() == ms@[i as int]);
        }
        match signature_of(&ms[i]) {
            Ok(sig) => out.push(sig),
            Err(e) => {
                proof {
                    assert(method_signatures(ms@.take(i + 1)) == Err::<Seq<Signature>, MacroError>(e));
                    lemma_signatures_prefix_err(ms@, i as int + 1, e);
                    assert(!api.is_generic);
                    assert(modified_trait(*api) == method_signatures(ms@));
                }
                return Err(e);
            },
        }
        i = i + 1;
    }
    proof {
        assert(ms@.take(ms@.len() as int) =~= ms@);
        assert(modified_trait(*api) == method_signatures(ms@));
    }
    Ok(out)
}

/// Once the signatures of a prefix of the methods fail, the signatures of
/// all methods fail the same way.
pub proof fn lemma_signatures_prefix_err(ms: Seq<Method>, k: int, e: MacroError)
    requires
        0 <= k <= ms.len(),
        method_signatures(ms.take(k)) == Err::<Seq<Signature>, MacroError>(e),
    ensures
        method_signatures(ms) == Err::<Seq<Signature>, MacroError>(e),
    decreases ms.len() - k,
{
    if k < ms.len() {
        assert(ms.take(k + 1).drop_last() =~= ms.take(k));
        lemma_signatures_prefix_err(ms, k + 1, e);
    } else {
        assert(ms.take(k) =~= ms);
    }
}

/// The name of the request and response variants of a method.
pub fn variant_name(method: &String) -> (r: String)
    ensures
        r@ == pascal_case(method@),
{
    to_pascal_case(method)
}

/// The name of a generated field of a method: its name in snake case
/// followed by the suffix.
pub fn field_name(method: &String, suffix: &str) -> (r: String)
    ensures
        r@ == snake_case(method@) + "__"@ + suffix@,
{
    suffixed_name(to_snake_case(method), suffix)
}

/// A name followed by a double underscore and the suffix.
pub fn suffixed_name(name: String, suffix: &str) -> (r: String)
    ensures
        r@ == name@ + "__"@ + suffix@,
{
    let mut s = name;
    s.append("__");
    s.append(suffix);
    s
}

/// Everything the consumer and the producer are generated from, for one
/// method.
#[derive(Debug)]
pub struct MethodPlan {
    /// The method's name.
    pub name: String,
    /// Its request and response variant.
    pub variant: String,
    /// The consumer's field that sends its requests.
    pub sender: String,
    /// The consumer state's field that keeps its pending requests.
    pub requests: String,
    /// The consumer state's field that receives its requests.
    pub receiver: String,
    /// The consumer loop's binding for its next request.
    pub option: String,
    /// It streams.
    pub stream: bool,
    /// What its request yields (the item type, for a stream).
    pub item: ReturnValue,
    /// The fields of its request.
    pub fields: Vec<Field>,
    /// The names of those fields.
    pub arguments: Vec<String>,
}

/// The plan is the one for the method.
pub open spec fn plans_method(p: MethodPlan, m: Method) -> bool {
    &&& p.name == m.name
    &&& p.variant@ == pascal_case(m.name@)
    &&& p.sender@ == snake_case(m.name@) + "__"@ + "sender"@
    &&& p.requests@ == snake_case(m.name@) + "__"@ + "requests"@
    &&& p.receiver@ == snake_case(m.name@) + "__"@ + "receiver"@
    &&& p.option@ == snake_case(m.name@) + "__"@ + "option"@
    &&& p.stream == (m.output is ImplTrait)
    &&& return_value(m.output) == Some(p.item)
    &&& p.fields@ == named_fields(m.inputs@)
    &&& p.arguments@ == field_names(m.inputs@)
}

/// The plan for a method, or why its return type is rejected.
pub fn plan_method(m: &Method) -> (r: Result<MethodPlan, MacroError>)
    ensures
        match return_value(m.output) {
            Some(_) => r matches Ok(p) && plans_method(p, *m),
            None => r == Err::<MethodPlan, MacroError>(MacroError::InvalidStreamType),
        },
{
    let item = match extract_return_type(&m.output) {
        Ok(item) => item,
        Err(e) => return Err(e),
    };
    Ok(MethodPlan {
        name: copy_string(&m.name),
        variant: variant_name(&m.name),
        sender: field_name(&m.name, "sender"),
        requests: field_name(&m.name, "requests"),
        receiver: field_name(&m.name, "receiver"),
        option: field_name(&m.name, "option"),
        stream: is_stream(&m.output),
        item,
        fields: skip_self(&m.inputs),
        arguments: pattern_arguments(&m.inputs),
    })
}

/// Everything an api is generated from.
#[derive(Debug)]
pub struct ApiPlan {
    /// The signatures of the generated api trait's methods.
    pub signatures: Vec<Signature>,
    /// The plan of each method, in order.
    pub methods: Vec<MethodPlan>,
    /// The name of the generated macro that implements the producer.
    pub produce_macro: String,
}

/// The name of the macro that implements a producer, made unique by the
/// given text.
pub fn produce_macro_ident(unique: &String) -> (r: String)
    ensures
        r@ == "__impl_produce_"@ + unique@,
{
    let mut name = "__impl_produce_".to_string();
    name.append(unique.as_str());
    name
}

/// The name of the macro that implements a producer: a fixed prefix and a
/// random UUID, so that two apis never clash.
pub fn produce_macro_name() -> (r: String)
    ensures
        r@.len() == 47,
        r@.subrange(0, 15) == "__impl_produce_"@,
        forall|i: int| 15 <= i < 47 ==> is_lower_hex(#[trigger] r@[i]),
{
    let uuid = random_uuid_simple();
    let name = produce_macro_ident(&uuid);
    proof {
        reveal_strlit("__impl_produce_");
        assert(name@.subrange(0, 15) =~= "__impl_produce_"@);
        assert forall|i: int| 15 <= i < 47 implies is_lower_hex(#[trigger] name@[i]) by {
            assert(name@[i] == uuid@[i - 15]);
        }
    }
    name
}

/// The plan of an api: rejected as [modify_trait] rejects it, otherwise the
/// signatures, one plan per method in order, and the producer macro's name.
pub fn api(item: &ApiTrait) -> (r: Result<ApiPlan, MacroError>)
    ensures
        match modified_trait(*item) {
            Ok(s) => r matches Ok(p) && {
                &&& p.signatures@ == s
                &&& p.methods@.len() == item.methods@.len()
                &&& forall|i: int| 0 <= i < item.methods@.len() ==> plans_method(#[trigger] p.methods@[i], item.methods@[i])
                &&& p.produce_macro@.len() == 47
                &&& p.produce_macro@.subrange(0, 15) == "__impl_produce_"@
                &&& forall|i: int| 15 <= i < 47 ==> is_lower_hex(#[trigger] p.produce_macro@[i])
            },
            Err(e) => r == Err::<ApiPlan, MacroError>(e),
        },
{
    let signatures = match modify_trait(item) {
        Ok(s) => s,
        Err(e) => return Err(e),
    };
    proof {
        lemma_signatures_valid(item.methods@);
    }
    let ms = &item.methods;
    let mut methods: Vec<MethodPlan> = Vec::new();
    let mut i: usize = 0;
    while i < ms.len()
        invariant
            i <= ms@.len(),
            methods@.len() == i,
            forall|j: int| 0 <= j < i ==> plans_method(#[trigger] methods@[j], ms@[j]),
            forall|j: int| 0 <= j < ms@.len() ==> #[trigger] method_signature(ms@[j]) is Ok,
        decreases ms@.len() - i,
    {
        proof {
            assert(method_signature(ms@[i as int]) is Ok);
        }
        match plan_method(&ms[i]) {
            Ok(p) => methods.push(p),
            Err(_) => {
                proof {
                    assert(false);
                }
                return Err(MacroError::InvalidStreamType);
            },
        }
        i = i + 1;
    }
    Ok(ApiPlan { signatures, methods, produce_macro: produce_macro_name() })
}

} // verus!
