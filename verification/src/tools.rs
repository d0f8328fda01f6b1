//! Tools: how an async function becomes one that the model may call.
//!
//! A function's signature, as [`ToolSource`] holds it, becomes a [`ToolPlan`]: the
//! declarations for the services, and how arguments and results pass through JSON.
use crate::json::{
    distinct_keys, json_debug_text, law_lookup_by_entry, law_put_then_lookup, lemma_members_with,
    lemma_nested_within_more, lemma_plain_reads_back, lemma_plain_with, lookup, parse_outcome, put,
    reads_back, tree_option, Json, JsonObject, JsonValue,
};
use crate::text::{join3, same_text, trim, trimmed};
use crate::types::{
    optional_schema, text_option, texts_json, texts_to_json, FunctionDeclaration, Schema,
};
use vstd::prelude::*;

verus! {

/// A type as it is written.
#[derive(Debug, PartialEq)]
pub struct TypeExpr {
    /// The type's source text.
    pub text: String,
    pub shape: TypeShape,
}

/// The form of a type.
#[derive(Debug, PartialEq)]
pub enum TypeShape {
    /// A path, such as `std::sync::Arc<State>`.
    Path { leading_colon: bool, segments: Vec<Segment> },
    /// Any other form, such as a reference or a tuple.
    Other,
}

/// One segment of a path.
#[derive(Debug, PartialEq)]
pub struct Segment {
    pub ident: String,
    pub arguments: Arguments,
}

/// What follows the name in a segment.
#[derive(Debug, PartialEq)]
pub enum Arguments {
    Absent,
    AngleBracketed(Vec<Argument>),
    Parenthesized,
}

/// An argument in angle brackets.
#[derive(Debug, PartialEq)]
pub enum Argument {
    Type(TypeExpr),
    /// A lifetime, a constant, or a binding.
    Other,
}

/// An attribute of a function: whether it is documentation, and its text where
/// its value is a string.
#[derive(Debug, PartialEq)]
pub struct FnAttribute {
    pub is_doc: bool,
    pub text: Option<String>,
}

/// An input of a function.
#[derive(Debug, PartialEq)]
pub enum FnInput {
    /// `self`, in some form.
    Receiver,
    /// A parameter; its name, where its pattern is a plain identifier.
    Typed { name: Option<String>, ty: TypeExpr },
}

/// A function that is to become a tool.
#[derive(Debug, PartialEq)]
pub struct ToolSource {
    pub name: String,
    /// The description that the attribute itself gives.
    pub attribute: Option<String>,
    pub attributes: Vec<FnAttribute>,
    pub is_async: bool,
    pub inputs: Vec<FnInput>,
    /// The type of its result, where that is written down.
    pub output: Option<TypeExpr>,
}

impl TypeExpr {
    /// The segments of a path; none of any other form.
    pub open spec fn segments(self) -> Seq<Segment> {
        match self.shape {
            TypeShape::Path { leading_colon: _, segments } => segments@,
            TypeShape::Other => Seq::empty(),
        }
    }

    /// The arguments in angle brackets behind the path's last segment.
    pub open spec fn arguments(self) -> Seq<Argument> {
        if self.segments().len() == 0 {
            Seq::empty()
        } else {
            match self.segments().last().arguments {
                Arguments::AngleBracketed(args) => args@,
                _ => Seq::empty(),
            }
        }
    }

    /// The path's last segment has this name.
    pub open spec fn named(self, name: Seq<char>) -> bool {
        self.segments().len() > 0 && self.segments().last().ident@ == name
    }

    /// The path starts with `::`.
    pub open spec fn absolute(self) -> bool {
        match self.shape {
            TypeShape::Path { leading_colon, segments: _ } => leading_colon,
            TypeShape::Other => false,
        }
    }

    /// The last segment of a path.
    fn last_segment(&self) -> (r: Option<&Segment>)
        ensures
            match r {
                Some(segment) => self.segments().len() > 0 && *segment == self.segments().last(),
                None => self.segments().len() == 0,
            },
    {
        match &self.shape {
            TypeShape::Path { leading_colon: _, segments } => if segments.len() > 0 {
                Some(&segments[segments.len() - 1])
            } else {
                None
            },
            TypeShape::Other => None,
        }
    }

    /// The argument at `index` in angle brackets, where it is a type.
    fn type_argument(&self, index: usize) -> (r: Option<&TypeExpr>)
        ensures
            match r {
                Some(ty) => index < self.arguments().len() && self.arguments()[index as int]
                    == Argument::Type(*ty),
                None => index >= self.arguments().len() || self.arguments()[index as int]
                    is Other,
            },
    {
        match self.last_segment() {
            Some(segment) => match &segment.arguments {
                Arguments::AngleBracketed(args) => if index < args.len() {
                    match &args[index] {
                        Argument::Type(ty) => Some(ty),
                        Argument::Other => None,
                    }
                } else {
                    None
                },
                _ => None,
            },
            None => None,
        }
    }

    /// Whether the path's last segment has this name.
    fn is_named(&self, name: &str) -> (r: bool)
        ensures
            r == self.named(name@),
    {
        match self.last_segment() {
            Some(segment) => same_text(segment.ident.as_str(), name),
            None => false,
        }
    }
}

/// The path is one by which `Arc` is written: by itself, or after `std::sync`.
pub open spec fn names_std_arc(absolute: bool, segments: Seq<Segment>) -> bool {
    let n = segments.len() as int;
    ||| n == 1
    ||| n >= 3 && segments[n - 3].ident@ == "std"@ && segments[n - 2].ident@ == "sync"@
    ||| absolute && n >= 3 && segments[0].ident@ == "std"@ && segments[1].ident@ == "sync"@
}

/// The `T` of an `Arc<T>`.
pub open spec fn arc_inner(ty: TypeExpr) -> Option<TypeExpr> {
    if ty.named("Arc"@) && ty.arguments().len() > 0 && names_std_arc(
        ty.absolute(),
        ty.segments(),
    ) {
        match ty.arguments()[0] {
            Argument::Type(inner) => Some(inner),
            Argument::Other => None,
        }
    } else {
        None
    }
}

/// The `T` of an `Arc<T>`.
pub fn get_arc_inner_type(ty: &TypeExpr) -> (r: Option<&TypeExpr>)
    ensures
        match r {
            Some(inner) => arc_inner(*ty) == Some(*inner),
            None => arc_inner(*ty) is None,
        },
{
    if !ty.is_named("Arc") {
        return None;
    }
    let inner = match ty.type_argument(0) {
        Some(inner) => inner,
        None => return None,
    };
    match &ty.shape {
        TypeShape::Path { leading_colon, segments } => {
            let n: usize = segments.len();
            let is_std_arc = n == 1 || (n >= 3 && same_text(
                segments[n - 3].ident.as_str(),
                "std",
            ) && same_text(segments[n - 2].ident.as_str(), "sync")) || (*leading_colon && n >= 3
                && same_text(segments[0].ident.as_str(), "std") && same_text(
                segments[1].ident.as_str(),
                "sync",
            ));
            if is_std_arc {
                Some(inner)
            } else {
                None
            }
        },
        TypeShape::Other => None,
    }
}

/// The types of a `Result<T, E>`.
pub open spec fn result_types(ty: TypeExpr) -> Option<(TypeExpr, TypeExpr)> {
    let args = ty.arguments();
    if ty.named("Result"@) && args.len() == 2 && args[0] is Type && args[1] is Type {
        Some((args[0]->Type_0, args[1]->Type_0))
    } else {
        None
    }
}

/// The types of a `Result<T, E>`.
pub fn get_result_types(ty: &TypeExpr) -> (r: Option<(&TypeExpr, &TypeExpr)>)
    ensures
        match r {
            Some((ok, err)) => result_types(*ty) == Some((*ok, *err)),
            None => result_types(*ty) is None,
        },
{
    match ty.last_segment() {
        Some(segment) => match &segment.arguments {
            Arguments::AngleBracketed(args) => if same_text(segment.ident.as_str(), "Result")
                && args.len() == 2 {
                match (&args[0], &args[1]) {
                    (Argument::Type(ok), Argument::Type(err)) => Some((ok, err)),
                    _ => None,
                }
            } else {
                None
            },
            _ => None,
        },
        None => None,
    }
}

/// The lines of documentation, each without the white space around it.
pub open spec fn doc_lines(attributes: Seq<FnAttribute>) -> Seq<Seq<char>>
    decreases attributes.len(),
{
    if attributes.len() == 0 {
        Seq::empty()
    } else {
        let before = doc_lines(attributes.drop_last());
        match attributes.last().text {
            Some(text) if attributes.last().is_doc => before.push(trimmed(text@)),
            _ => before,
        }
    }
}

/// The lines, with line breaks between them.
pub open spec fn joined_lines(lines: Seq<Seq<char>>) -> Seq<char>
    decreases lines.len(),
{
    if lines.len() == 0 {
        Seq::empty()
    } else if lines.len() == 1 {
        lines[0]
    } else {
        joined_lines(lines.drop_last()) + "\n"@ + lines.last()
    }
}

/// The description that the documentation gives.
pub open spec fn doc_description(attributes: Seq<FnAttribute>) -> Option<Seq<char>> {
    let lines = doc_lines(attributes);
    if lines.len() == 0 {
        None
    } else {
        Some(joined_lines(lines))
    }
}

/// The description that the documentation gives.
pub fn get_description_from_doc_attrs(attributes: &Vec<FnAttribute>) -> (r: Option<String>)
    ensures
        text_option(r) == doc_description(attributes@),
{
    let mut description: Option<String> = None;
    assert(attributes@.take(0) =~= Seq::empty());
    for i in 0..attributes.len()
        invariant
            text_option(description) == doc_description(attributes@.take(i as int)),
    {
        assert(attributes@.take(i + 1).drop_last() =~= attributes@.take(i as int));
        assert(attributes@.take(i + 1).last() == attributes@[i as int]);
        if attributes[i].is_doc {
            if let Some(text) = &attributes[i].text {
                let line = trim(text.as_str());
                let ghost before = doc_lines(attributes@.take(i as int));
                let ghost after = doc_lines(attributes@.take(i + 1));
                assert(after.drop_last() =~= before);
                description = Some(
                    match &description {
                        Some(lines) => join3(lines.as_str(), "\n", line),
                        None => line.to_owned(),
                    },
                );
            }
        }
    }
    assert(attributes@.take(attributes@.len() as int) =~= attributes@);
    description
}

/// The kinds of value that an argument can be.
#[derive(Debug, Clone, Copy, PartialEq, Eq, Structural)]
pub enum Scalar {
    Text,
    Integer,
    Number,
    Boolean,
}

/// The name is that of an integer type.
pub open spec fn is_integer_type(name: Seq<char>) -> bool {
    ||| name == "i8"@
    ||| name == "i16"@
    ||| name == "i32"@
    ||| name == "i64"@
    ||| name == "u8"@
    ||| name == "u16"@
    ||| name == "u32"@
    ||| name == "u64"@
    ||| name == "isize"@
    ||| name == "usize"@
}

/// The kind of value that a type of this name holds.
pub open spec fn scalar_named(name: Seq<char>) -> Option<Scalar> {
    if name == "String"@ {
        Some(Scalar::Text)
    } else if is_integer_type(name) {
        Some(Scalar::Integer)
    } else if name == "f32"@ || name == "f64"@ {
        Some(Scalar::Number)
    } else if name == "bool"@ {
        Some(Scalar::Boolean)
    } else {
        None
    }
}

fn scalar_of(name: &str) -> (r: Option<Scalar>)
    ensures
        r == scalar_named(name@),
{
    if same_text(name, "String") {
        Some(Scalar::Text)
    } else if same_text(name, "i8") || same_text(name, "i16") || same_text(name, "i32")
        || same_text(name, "i64") || same_text(name, "u8") || same_text(name, "u16") || same_text(
        name,
        "u32",
    ) || same_text(name, "u64") || same_text(name, "isize") || same_text(name, "usize") {
        Some(Scalar::Integer)
    } else if same_text(name, "f32") || same_text(name, "f64") {
        Some(Scalar::Number)
    } else if same_text(name, "bool") {
        Some(Scalar::Boolean)
    } else {
        None
    }
}

impl Scalar {
    /// The word for it in Gemini's schemas.
    pub open spec fn gemini_word(self) -> Seq<char> {
        match self {
            Scalar::Text => "STRING"@,
            Scalar::Integer => "INTEGER"@,
            Scalar::Number => "NUMBER"@,
            Scalar::Boolean => "BOOLEAN"@,
        }
    }

    /// The word for it in OpenAI's schemas.
    pub open spec fn openai_word(self) -> Seq<char> {
        match self {
            Scalar::Text => "string"@,
            Scalar::Integer => "integer"@,
            Scalar::Number => "number"@,
            Scalar::Boolean => "boolean"@,
        }
    }

    fn gemini_name(self) -> (r: &'static str)
        ensures
            r@ == self.gemini_word(),
    {
        match self {
            Scalar::Text => "STRING",
            Scalar::Integer => "INTEGER",
            Scalar::Number => "NUMBER",
            Scalar::Boolean => "BOOLEAN",
        }
    }

    fn openai_name(self) -> (r: &'static str)
        ensures
            r@ == self.openai_word(),
    {
        match self {
            Scalar::Text => "string",
            Scalar::Integer => "integer",
            Scalar::Number => "number",
            Scalar::Boolean => "boolean",
        }
    }
}

/// Why a type cannot be that of an argument.
#[derive(Debug, Clone, Copy, PartialEq, Eq, Structural)]
pub enum TypeProblem {
    /// `Option` without a type in it.
    BareOption,
    /// A type that JSON arguments are not read as.
    Unsupported,
    /// Something other than a path.
    NotAPath,
}

/// What kind of value a type stands for, and whether it may be absent; or what is
/// wrong, and with which type's text.
pub open spec fn classified(ty: TypeExpr) -> Result<(Scalar, bool), (Seq<char>, TypeProblem)>
    decreases ty,
{
    if ty.segments().len() == 0 {
        Err((ty.text@, TypeProblem::NotAPath))
    } else if ty.named("Option"@) {
        match ty.shape {
            TypeShape::Path { leading_colon: _, segments } => match segments@.last().arguments {
                Arguments::AngleBracketed(args) => if args@.len() > 0 {
                    match args@[0] {
                        Argument::Type(inner) => match classified(inner) {
                            Ok((scalar, _)) => Ok((scalar, true)),
                            Err(problem) => Err(problem),
                        },
                        Argument::Other => Err((ty.text@, TypeProblem::BareOption)),
                    }
                } else {
                    Err((ty.text@, TypeProblem::BareOption))
                },
                _ => Err((ty.text@, TypeProblem::BareOption)),
            },
            TypeShape::Other => Err((ty.text@, TypeProblem::BareOption)),
        }
    } else {
        match scalar_named(ty.segments().last().ident@) {
            Some(scalar) => Ok((scalar, false)),
            None => Err((ty.text@, TypeProblem::Unsupported)),
        }
    }
}

/// A type that cannot be that of an argument, and why.
#[derive(Debug, Clone, PartialEq)]
pub struct TypeFault {
    /// The type's source text.
    pub at: String,
    pub problem: TypeProblem,
}

/// What kind of value a type stands for, and whether it may be absent.
pub fn classify(ty: &TypeExpr) -> (r: Result<(Scalar, bool), TypeFault>)
    ensures
        match r {
            Ok(kind) => classified(*ty) == Ok::<(Scalar, bool), (Seq<char>, TypeProblem)>(kind),
            Err(fault) => classified(*ty) == Err::<(Scalar, bool), (Seq<char>, TypeProblem)>(
                (fault.at@, fault.problem),
            ),
        },
    decreases ty,
{
    match &ty.shape {
        TypeShape::Path { leading_colon: _, segments } => {
            if segments.len() == 0 {
                return Err(TypeFault { at: ty.text.clone(), problem: TypeProblem::NotAPath });
            }
            let last = &segments[segments.len() - 1];
            if same_text(last.ident.as_str(), "Option") {
                if let Arguments::AngleBracketed(args) = &last.arguments {
                    if args.len() > 0 {
                        if let Argument::Type(inner) = &args[0] {
                            assert(decreases_to!(ty => ty.shape->Path_segments@[segments.len() - 1]));
                            assert(decreases_to!(last => last.arguments->AngleBracketed_0@[0]));
                            return match classify(inner) {
                                Ok((scalar, _)) => Ok((scalar, true)),
                                Err(fault) => Err(fault),
                            };
                        }
                    }
                }
                return Err(TypeFault { at: ty.text.clone(), problem: TypeProblem::BareOption });
            }
            match scalar_of(last.ident.as_str()) {
                Some(scalar) => Ok((scalar, false)),
                None => Err(
                    TypeFault { at: ty.text.clone(), problem: TypeProblem::Unsupported },
                ),
            }
        },
        TypeShape::Other => Err(
            TypeFault { at: ty.text.clone(), problem: TypeProblem::NotAPath },
        ),
    }
}

/// The services whose schemas are written.
#[derive(Debug, Clone, Copy, PartialEq, Eq, Structural)]
pub enum SchemaStyle {
    Gemini,
    OpenAi,
}

/// The word for a kind of value.
pub open spec fn word_for(style: SchemaStyle, scalar: Scalar) -> Seq<char> {
    match style {
        SchemaStyle::Gemini => scalar.gemini_word(),
        SchemaStyle::OpenAi => scalar.openai_word(),
    }
}

/// What is said of a type that cannot be that of an argument.
pub open spec fn problem_message(
    style: SchemaStyle,
    text: Seq<char>,
    problem: TypeProblem,
) -> Seq<char> {
    match problem {
        TypeProblem::BareOption =>
            "Option type must have a generic argument (e.g., Option<String>)."@,
        TypeProblem::Unsupported => {
            let head = match style {
                SchemaStyle::Gemini => "Unsupported parameter type for Gemini/OpenAI schema: "@,
                SchemaStyle::OpenAi => "Unsupported parameter type for OpenAI schema: "@,
            };
            head + text + ". Supported types: String, iXX/uXX, fXX, bool, Option<T>."@
        },
        TypeProblem::NotAPath => match style {
            SchemaStyle::Gemini => "Parameter type must be a simple path type."@,
            SchemaStyle::OpenAi => "Parameter type must be a simple path type for OpenAI schema."@,
        },
    }
}

/// What is said of a type that cannot be that of an argument.
fn explain(style: SchemaStyle, fault: &TypeFault) -> (r: String)
    ensures
        r@ == problem_message(style, fault.at@, fault.problem),
{
    match fault.problem {
        TypeProblem::BareOption =>
            "Option type must have a generic argument (e.g., Option<String>).".to_owned(),
        TypeProblem::Unsupported => {
            let head = match style {
                SchemaStyle::Gemini => "Unsupported parameter type for Gemini/OpenAI schema: ",
                SchemaStyle::OpenAi => "Unsupported parameter type for OpenAI schema: ",
            };
            join3(
                head,
                fault.at.as_str(),
                ". Supported types: String, iXX/uXX, fXX, bool, Option<T>.",
            )
        },
        TypeProblem::NotAPath => match style {
            SchemaStyle::Gemini => "Parameter type must be a simple path type.".to_owned(),
            SchemaStyle::OpenAi =>
                "Parameter type must be a simple path type for OpenAI schema.".to_owned(),
        },
    }
}

/// A complaint about a type.
#[derive(Debug, Clone, PartialEq)]
pub struct TypeError {
    /// The source text of the type that it is about.
    pub at: String,
    pub message: String,
}

/// What a schema says of a type: its word, and whether a value may be absent; or
/// the text of the type that stands in the way, and what is said of it.
pub open spec fn schema_info(style: SchemaStyle, ty: TypeExpr) -> Result<
    (Seq<char>, bool),
    (Seq<char>, Seq<char>),
> {
    match classified(ty) {
        Ok((scalar, optional)) => Ok((word_for(style, scalar), optional)),
        Err((at, problem)) => Err((at, problem_message(style, at, problem))),
    }
}

/// What came of looking at a type, as mathematics.
pub open spec fn info_outcome(r: Result<(String, bool), TypeError>) -> Result<
    (Seq<char>, bool),
    (Seq<char>, Seq<char>),
> {
    match r {
        Ok((word, optional)) => Ok((word@, optional)),
        Err(e) => Err((e.at@, e.message@)),
    }
}

/// What Gemini's schema says of a type: its word, and whether a value may be
/// absent.
pub fn rust_type_to_schema_info(ty: &TypeExpr) -> (r: Result<(String, bool), TypeError>)
    ensures
        info_outcome(r) == schema_info(SchemaStyle::Gemini, *ty),
{
    match classify(ty) {
        Ok((scalar, optional)) => Ok((scalar.gemini_name().to_owned(), optional)),
        Err(fault) => {
            let message = explain(SchemaStyle::Gemini, &fault);
            Err(TypeError { at: fault.at, message })
        },
    }
}

/// What OpenAI's schema says of a type: its word, and whether a value may be
/// absent.
pub fn rust_type_to_openai_json_schema_type(ty: &TypeExpr) -> (r: Result<
    (String, bool),
    TypeError,
>)
    ensures
        info_outcome(r) == schema_info(SchemaStyle::OpenAi, *ty),
{
    match classify(ty) {
        Ok((scalar, optional)) => Ok((scalar.openai_name().to_owned(), optional)),
        Err(fault) => {
            let message = explain(SchemaStyle::OpenAi, &fault);
            Err(TypeError { at: fault.at, message })
        },
    }
}

/// The two schemas take the same types, and agree on what may be absent.
pub proof fn law_schemas_agree(ty: TypeExpr)
    ensures
        schema_info(SchemaStyle::Gemini, ty) is Ok <==> schema_info(SchemaStyle::OpenAi, ty) is Ok,
        schema_info(SchemaStyle::Gemini, ty) matches Ok((_, optional)) ==> schema_info(
            SchemaStyle::OpenAi,
            ty,
        )->Ok_0.1 == optional,
{
}

/// An argument of a tool.
#[derive(Debug, Clone, PartialEq)]
pub struct Parameter {
    pub name: String,
    pub scalar: Scalar,
    pub optional: bool,
}

/// An argument as mathematics: what a [`Parameter`] stands for.
#[verifier::ext_equal]
pub struct Param {
    pub name: Seq<char>,
    pub scalar: Scalar,
    pub optional: bool,
}

impl View for Parameter {
    type V = Param;

    open spec fn view(&self) -> Param {
        Param { name: self.name@, scalar: self.scalar, optional: self.optional }
    }
}

/// The arguments of a list.
pub open spec fn params(list: Seq<Parameter>) -> Seq<Param> {
    Seq::new(list.len(), |i: int| list[i]@)
}

/// What part of a function's source a complaint is about.
#[derive(Debug, Clone, PartialEq)]
pub enum FaultPlace {
    /// The function's name.
    Name,
    /// The `fn` keyword.
    FnKeyword,
    /// The input at this index.
    Input(usize),
    /// The pattern of the input at this index.
    Pattern(usize),
    /// In the type of the input at this index, the type of this text.
    ParameterType { input: usize, at: String },
}

/// A complaint about a function that is to become a tool.
#[derive(Debug, Clone, PartialEq)]
pub struct ToolError {
    pub place: FaultPlace,
    pub message: String,
}

/// What part of a function's source a complaint is about, as mathematics.
pub enum Place {
    Name,
    FnKeyword,
    Input(int),
    Pattern(int),
    ParameterType(int, Seq<char>),
}

/// A complaint as mathematics: what a [`ToolError`] stands for.
pub struct Complaint {
    pub place: Place,
    pub message: Seq<char>,
}

impl View for FaultPlace {
    type V = Place;

    open spec fn view(&self) -> Place {
        match *self {
            FaultPlace::Name => Place::Name,
            FaultPlace::FnKeyword => Place::FnKeyword,
            FaultPlace::Input(i) => Place::Input(i as int),
            FaultPlace::Pattern(i) => Place::Pattern(i as int),
            FaultPlace::ParameterType { input, at } => Place::ParameterType(input as int, at@),
        }
    }
}

impl View for ToolError {
    type V = Complaint;

    open spec fn view(&self) -> Complaint {
        Complaint { place: self.place@, message: self.message@ }
    }
}

/// The argument that an input stands for.
pub open spec fn input_param(input: FnInput, index: int) -> Result<Param, Complaint> {
    match input {
        FnInput::Receiver => Err(
            Complaint {
                place: Place::Input(index),
                message: "Tool function parameters cannot be `self`"@,
            },
        ),
        FnInput::Typed { name: None, ty: _ } => Err(
            Complaint {
                place: Place::Pattern(index),
                message:
                    "Tool function parameters must be simple identifiers (e.g., `my_arg: String`)"@,
            },
        ),
        FnInput::Typed { name: Some(name), ty } => match classified(ty) {
            Ok((scalar, optional)) => Ok(Param { name: name@, scalar, optional }),
            Err((at, problem)) => Err(
                Complaint {
                    place: Place::ParameterType(index, at),
                    message: problem_message(SchemaStyle::Gemini, at, problem),
                },
            ),
        },
    }
}

/// The arguments that the inputs from `from` to before `to` stand for; or the
/// first complaint.
pub open spec fn input_params(inputs: Seq<FnInput>, from: int, to: int) -> Result<
    Seq<Param>,
    Complaint,
>
    decreases to - from,
{
    if to <= from {
        Ok(Seq::empty())
    } else {
        match input_params(inputs, from, to - 1) {
            Err(e) => Err(e),
            Ok(list) => match input_param(inputs[to - 1], to - 1) {
                Err(e) => Err(e),
                Ok(param) => Ok(list.push(param)),
            },
        }
    }
}

/// The type of the application's state, where the first input is an `Arc` of it.
pub open spec fn state_type(inputs: Seq<FnInput>) -> Option<TypeExpr> {
    if inputs.len() == 0 {
        None
    } else {
        match inputs[0] {
            FnInput::Typed { name: _, ty } => arc_inner(ty),
            FnInput::Receiver => None,
        }
    }
}

/// The first input that is an argument: the one after the state.
pub open spec fn first_argument(inputs: Seq<FnInput>) -> int {
    if state_type(inputs) is Some {
        1
    } else {
        0
    }
}

/// The description: that of the attribute, or else that of the documentation.
pub open spec fn description(source: ToolSource) -> Option<Seq<char>> {
    match source.attribute {
        Some(text) => Some(text@),
        None => doc_description(source.attributes@),
    }
}

/// The names of the arguments that must be there.
pub open spec fn required_names(list: Seq<Param>) -> Seq<Json>
    decreases list.len(),
{
    if list.len() == 0 {
        Seq::empty()
    } else {
        let before = required_names(list.drop_last());
        if list.last().optional {
            before
        } else {
            before.push(Json::String(list.last().name))
        }
    }
}

/// The object that holds, for each argument, the word for its kind.
pub open spec fn property_words(style: SchemaStyle, list: Seq<Param>) -> Json
    decreases list.len(),
{
    if list.len() == 0 {
        Json::object()
    } else {
        property_words(style, list.drop_last()).with(
            list.last().name,
            Json::object().with("type"@, Json::String(word_for(style, list.last().scalar))),
        )
    }
}

/// Gemini's schema of the arguments; none where there are none.
pub open spec fn gemini_parameters(list: Seq<Param>) -> Option<Json> {
    if list.len() == 0 {
        None
    } else {
        let required = required_names(list);
        Some(
            Json::object()
                .with("type"@, Json::String("OBJECT"@))
                .with("properties"@, property_words(SchemaStyle::Gemini, list))
                .with_optional(
                    "required"@,
                    if required.len() == 0 {
                        None
                    } else {
                        Some(Json::Array(required))
                    },
                ),
        )
    }
}

/// Gemini's declaration of the tool.
pub open spec fn gemini_json(
    name: Seq<char>,
    description: Seq<char>,
    list: Seq<Param>,
) -> Json {
    Json::object()
        .with("name"@, Json::String(name))
        .with("description"@, Json::String(description))
        .with_optional("parameters"@, gemini_parameters(list))
}

/// OpenAI's schema of the arguments.
pub open spec fn openai_parameters(list: Seq<Param>) -> Json {
    let schema = Json::object()
        .with("type"@, Json::String("object"@))
        .with("properties"@, property_words(SchemaStyle::OpenAi, list));
    if list.len() == 0 {
        schema
    } else {
        schema.with("required"@, Json::Array(required_names(list)))
    }
}

/// OpenAI's definition of the tool.
pub open spec fn openai_json(name: Seq<char>, description: Seq<char>, list: Seq<Param>) -> Json {
    Json::object()
        .with("type"@, Json::String("function"@))
        .with("name"@, Json::String(name))
        .with("description"@, Json::String(description))
        .with("parameters"@, openai_parameters(list))
}

/// How a tool's result passes into JSON.
#[derive(Debug, Clone, PartialEq)]
pub enum Returns {
    /// There is none: the result is null.
    Nothing,
    /// A `Result`: its value, of the type with this text, or its error.
    Fallible { ok_type: String },
    /// A value of the type with this text.
    Value { value_type: String },
}

/// How a tool's result passes into JSON, as mathematics.
pub enum ReturnForm {
    Nothing,
    Fallible(Seq<char>),
    Value(Seq<char>),
}

impl View for Returns {
    type V = ReturnForm;

    open spec fn view(&self) -> ReturnForm {
        match *self {
            Returns::Nothing => ReturnForm::Nothing,
            Returns::Fallible { ok_type } => ReturnForm::Fallible(ok_type@),
            Returns::Value { value_type } => ReturnForm::Value(value_type@),
        }
    }
}

/// How the result of a function passes into JSON.
pub open spec fn return_form(output: Option<TypeExpr>) -> ReturnForm {
    match output {
        None => ReturnForm::Nothing,
        Some(ty) => match result_types(ty) {
            Some((ok, _)) => ReturnForm::Fallible(ok.text@),
            None => ReturnForm::Value(ty.text@),
        },
    }
}

/// A tool: what the services are told of it, and how arguments and results pass
/// through JSON.
#[derive(Debug)]
pub struct ToolPlan {
    pub name: String,
    pub description: String,
    /// The source text of the state's type, where the function takes the state.
    pub state_type: Option<String>,
    pub parameters: Vec<Parameter>,
    pub gemini_declaration: FunctionDeclaration,
    pub openai_definition: JsonValue,
    pub result_form: Returns,
}

/// The plan is the one for a function with this description and these arguments.
pub open spec fn plan_fits(
    plan: ToolPlan,
    source: ToolSource,
    described: Seq<char>,
    list: Seq<Param>,
) -> bool {
    &&& plan.name@ == source.name@
    &&& plan.description@ == described
    &&& text_option(plan.state_type) == match state_type(source.inputs@) {
        Some(ty) => Some(ty.text@),
        None => None,
    }
    &&& params(plan.parameters@) == list
    &&& plan.gemini_declaration.wire() == gemini_json(source.name@, described, list)
    &&& plan.openai_definition@ == openai_json(source.name@, described, list)
    &&& plan.result_form@ == return_form(source.output)
}

/// What is wrong with the function, if anything is: it lacks a description, it is
/// not async, or one of its inputs cannot be an argument. The first of these
/// counts.
pub open spec fn complaint(source: ToolSource) -> Option<Complaint> {
    if description(source) is None {
        Some(
            Complaint {
                place: Place::Name,
                message:
                    "Missing tool description: Add a /// doc comment or provide it in the attribute, e.g., #[tool_function(\"My description\")]"@,
            },
        )
    } else if !source.is_async {
        Some(Complaint { place: Place::FnKeyword, message: "Tool function must be async"@ })
    } else {
        match source_params(source) {
            Ok(_) => None,
            Err(e) => Some(e),
        }
    }
}

/// The arguments of the function.
pub open spec fn source_params(source: ToolSource) -> Result<Seq<Param>, Complaint> {
    input_params(source.inputs@, first_argument(source.inputs@), source.inputs@.len() as int)
}

/// The argument that an input stands for.
fn read_input(input: &FnInput, index: usize) -> (r: Result<Parameter, ToolError>)
    ensures
        match r {
            Ok(parameter) => input_param(*input, index as int) == Ok::<Param, Complaint>(
                parameter@,
            ),
            Err(e) => input_param(*input, index as int) == Err::<Param, Complaint>(e@),
        },
{
    match input {
        FnInput::Receiver => Err(
            ToolError {
                place: FaultPlace::Input(index),
                message: "Tool function parameters cannot be `self`".to_owned(),
            },
        ),
        FnInput::Typed { name: None, ty: _ } => Err(
            ToolError {
                place: FaultPlace::Pattern(index),
                message:
                    "Tool function parameters must be simple identifiers (e.g., `my_arg: String`)".to_owned(),
            },
        ),
        FnInput::Typed { name: Some(name), ty } => match classify(ty) {
            Ok((scalar, optional)) => Ok(Parameter { name: name.clone(), scalar, optional }),
            Err(fault) => {
                let message = explain(SchemaStyle::Gemini, &fault);
                Err(
                    ToolError {
                        place: FaultPlace::ParameterType { input: index, at: fault.at },
                        message,
                    },
                )
            },
        },
    }
}

/// The arguments that the inputs from `from` on stand for; or the first complaint.
fn read_inputs(inputs: &Vec<FnInput>, from: usize) -> (r: Result<Vec<Parameter>, ToolError>)
    requires
        from <= inputs@.len(),
    ensures
        match r {
            Ok(list) => input_params(inputs@, from as int, inputs@.len() as int) == Ok::<
                Seq<Param>,
                Complaint,
            >(params(list@)),
            Err(e) => input_params(inputs@, from as int, inputs@.len() as int) == Err::<
                Seq<Param>,
                Complaint,
            >(e@),
        },
{
    let mut list: Vec<Parameter> = Vec::new();
    assert(params(list@) =~= Seq::empty());
    for i in from..inputs.len()
        invariant
            from <= inputs@.len(),
            input_params(inputs@, from as int, i as int) == Ok::<Seq<Param>, Complaint>(
                params(list@),
            ),
    {
        match read_input(&inputs[i], i) {
            Ok(parameter) => {
                let ghost before = list@;
                list.push(parameter);
                assert(params(list@) =~= params(before).push(parameter@));
            },
            Err(e) => {
                proof {
                    lemma_first_complaint(inputs@, from as int, i + 1, inputs@.len() as int);
                }
                return Err(e);
            },
        }
    }
    Ok(list)
}

/// A complaint about the first inputs stays the complaint about more of them.
proof fn lemma_first_complaint(inputs: Seq<FnInput>, from: int, to: int, more: int)
    requires
        to <= more,
        input_params(inputs, from, to) is Err,
    ensures
        input_params(inputs, from, more) == input_params(inputs, from, to),
    decreases more - to,
{
    if to < more {
        lemma_first_complaint(inputs, from, to, more - 1);
    }
}

/// The names of the arguments that must be there.
fn required_list(list: &Vec<Parameter>) -> (r: Vec<String>)
    ensures
        texts_json(r@) == Json::Array(required_names(params(list@))),
{
    let ghost all = params(list@);
    let mut names: Vec<String> = Vec::new();
    assert(texts_json(names@)->Array_0 =~= required_names(all.take(0)));
    for i in 0..list.len()
        invariant
            all == params(list@),
            texts_json(names@) == Json::Array(required_names(all.take(i as int))),
    {
        assert(all.take(i + 1).drop_last() =~= all.take(i as int));
        assert(all.take(i + 1).last() == list@[i as int]@);
        if !list[i].optional {
            let ghost before = names@;
            names.push(list[i].name.clone());
            assert(texts_json(names@)->Array_0 =~= texts_json(before)->Array_0.push(
                Json::String(list@[i as int].name@),
            ));
        }
    }
    assert(all.take(all.len() as int) =~= all);
    names
}

/// The object that holds, for each argument, OpenAI's word for its kind.
fn openai_properties(list: &Vec<Parameter>) -> (r: JsonObject)
    ensures
        Json::Object(r@) == property_words(SchemaStyle::OpenAi, params(list@)),
{
    let ghost all = params(list@);
    let mut object = JsonObject::new();
    assert(all.take(0) =~= Seq::empty());
    for i in 0..list.len()
        invariant
            all == params(list@),
            Json::Object(object@) == property_words(SchemaStyle::OpenAi, all.take(i as int)),
    {
        assert(all.take(i + 1).drop_last() =~= all.take(i as int));
        assert(all.take(i + 1).last() == list@[i as int]@);
        let word = JsonObject::new().with_text("type", list[i].scalar.openai_name());
        object = object.with_value(list[i].name.as_str(), JsonValue::Object(word));
    }
    assert(all.take(all.len() as int) =~= all);
    object
}

/// Gemini's schema of a single value of a kind.
fn scalar_schema(scalar: Scalar) -> (r: Schema)
    ensures
        r.wire() == Json::object().with("type"@, Json::String(scalar.gemini_word())),
{
    Schema {
        schema_type: scalar.gemini_name().to_owned(),
        properties: None,
        required: None,
        description: None,
    }
}

/// The members of a schema are the words of the arguments.
proof fn lemma_schema_members(schema: Schema, all: Seq<Param>, n: nat)
    requires
        schema.properties is Some,
        schema.listed() == all.len(),
        n <= all.len(),
        forall|i: int|
            0 <= i < all.len() ==> (#[trigger] schema.properties->0@[i]).0@ == all[i].name
                && schema.properties->0@[i].1.wire() == Json::object().with(
                "type"@,
                Json::String(all[i].scalar.gemini_word()),
            ),
    ensures
        schema.members(n) == property_words(SchemaStyle::Gemini, all.take(n as int)),
    decreases n,
{
    if n == 0 {
        assert(all.take(0) =~= Seq::empty());
    } else {
        lemma_schema_members(schema, all, (n - 1) as nat);
        assert(all.take(n as int).drop_last() =~= all.take(n - 1));
        assert(all.take(n as int).last() == all[n - 1]);
        assert(schema.properties->0@[n - 1].0@ == all[n - 1].name);
    }
}

/// Gemini's schema of the arguments; none where there are none.
fn gemini_schema(list: &Vec<Parameter>) -> (r: Option<Schema>)
    ensures
        optional_schema(r) == gemini_parameters(params(list@)),
{
    if list.len() == 0 {
        return None;
    }
    let ghost all = params(list@);
    let mut properties: Vec<(String, Schema)> = Vec::new();
    for i in 0..list.len()
        invariant
            all == params(list@),
            properties.len() == i,
            forall|j: int|
                0 <= j < i ==> (#[trigger] properties@[j]).0@ == all[j].name
                    && properties@[j].1.wire() == Json::object().with(
                    "type"@,
                    Json::String(all[j].scalar.gemini_word()),
                ),
    {
        properties.push((list[i].name.clone(), scalar_schema(list[i].scalar)));
    }
    let names = required_list(list);
    let required = if names.len() == 0 {
        None
    } else {
        Some(names)
    };
    let schema = Schema {
        schema_type: "OBJECT".to_owned(),
        properties: Some(properties),
        required,
        description: None,
    };
    proof {
        lemma_schema_members(schema, all, all.len());
        assert(all.take(all.len() as int) =~= all);
    }
    Some(schema)
}

/// OpenAI's definition of a tool.
fn openai_definition(name: &str, description: &str, list: &Vec<Parameter>) -> (r: JsonValue)
    ensures
        r@ == openai_json(name@, description@, params(list@)),
{
    let schema = JsonObject::new().with_text("type", "object").with_value(
        "properties",
        JsonValue::Object(openai_properties(list)),
    );
    let schema = if list.len() == 0 {
        schema
    } else {
        schema.with_value("required", texts_to_json(&required_list(list)))
    };
    let definition = JsonObject::new().with_text("type", "function").with_text(
        "name",
        name,
    ).with_text("description", description).with_value("parameters", JsonValue::Object(schema));
    JsonValue::Object(definition)
}

/// Makes a tool of a function; or says what is wrong with it.
pub fn tool_function(source: &ToolSource) -> (r: Result<ToolPlan, ToolError>)
    ensures
        match r {
            Ok(plan) => complaint(*source) is None && plan_fits(
                plan,
                *source,
                description(*source)->0,
                source_params(*source)->Ok_0,
            ),
            Err(e) => complaint(*source) == Some(e@),
        },
{
    let described = match &source.attribute {
        Some(text) => Some(text.clone()),
        None => get_description_from_doc_attrs(&source.attributes),
    };
    let described = match described {
        Some(text) => text,
        None => {
            return Err(
                ToolError {
                    place: FaultPlace::Name,
                    message:
                        "Missing tool description: Add a /// doc comment or provide it in the attribute, e.g., #[tool_function(\"My description\")]".to_owned(),
                },
            );
        },
    };
    if !source.is_async {
        return Err(
            ToolError {
                place: FaultPlace::FnKeyword,
                message: "Tool function must be async".to_owned(),
            },
        );
    }
    let state = if source.inputs.len() > 0 {
        match &source.inputs[0] {
            FnInput::Typed { name: _, ty } => get_arc_inner_type(ty),
            FnInput::Receiver => None,
        }
    } else {
        None
    };
    let from: usize = if state.is_some() {
        1
    } else {
        0
    };
    let state_type = match state {
        Some(ty) => Some(ty.text.clone()),
        None => None,
    };
    let parameters = match read_inputs(&source.inputs, from) {
        Ok(parameters) => parameters,
        Err(e) => return Err(e),
    };
    let gemini_declaration = FunctionDeclaration {
        name: source.name.clone(),
        description: described.clone(),
        parameters: gemini_schema(&parameters),
    };
    let openai_definition = openai_definition(
        source.name.as_str(),
        described.as_str(),
        &parameters,
    );
    let result_form = match &source.output {
        None => Returns::Nothing,
        Some(ty) => match get_result_types(ty) {
            Some((ok, _)) => Returns::Fallible { ok_type: ok.text.clone() },
            None => Returns::Value { value_type: ty.text.clone() },
        },
    };
    Ok(
        ToolPlan {
            name: source.name.clone(),
            description: described,
            state_type,
            parameters,
            gemini_declaration,
            openai_definition,
            result_form,
        },
    )
}

/// The words of arguments hold no numbers and little nesting.
proof fn lemma_words_plain(style: SchemaStyle, list: Seq<Param>)
    ensures
        property_words(style, list) is Object,
        property_words(style, list).plain_within(2),
    decreases list.len(),
{
    if list.len() > 0 {
        lemma_words_plain(style, list.drop_last());
        let word = Json::String(word_for(style, list.last().scalar));
        lemma_plain_with(Json::object(), "type"@, word, 1);
        lemma_plain_with(
            property_words(style, list.drop_last()),
            list.last().name,
            Json::object().with("type"@, word),
            2,
        );
    }
}

/// The names of required arguments are strings.
proof fn lemma_required_plain(list: Seq<Param>)
    ensures
        forall|i: int|
            0 <= i < required_names(list).len() ==> (#[trigger] required_names(list)[i]) is String,
    decreases list.len(),
{
    if list.len() > 0 {
        lemma_required_plain(list.drop_last());
    }
}

/// The definition of a tool for OpenAI, written as text, always reads back as the
/// same definition.
pub proof fn law_definition_reads_back(name: Seq<char>, description: Seq<char>, list: Seq<Param>)
    ensures
        reads_back(openai_json(name, description, list)),
{
    let words = property_words(SchemaStyle::OpenAi, list);
    lemma_words_plain(SchemaStyle::OpenAi, list);
    lemma_required_plain(list);
    let required = Json::Array(required_names(list));
    assert forall|i: int| 0 <= i < required_names(list).len() implies (#[trigger] required_names(
        list,
    )[i]).numbers_read_back() && required_names(list)[i].nested_within(0) by {
        assert(required_names(list)[i] is String);
    }
    assert(required.plain_within(1));
    lemma_nested_within_more(required, 1, 2);
    let schema = Json::object().with("type"@, Json::String("object"@));
    lemma_plain_with(Json::object(), "type"@, Json::String("object"@), 3);
    lemma_plain_with(schema, "properties"@, words, 3);
    lemma_plain_with(schema.with("properties"@, words), "required"@, required, 3);
    let whole = Json::object().with("type"@, Json::String("function"@));
    lemma_plain_with(Json::object(), "type"@, Json::String("function"@), 4);
    lemma_plain_with(whole, "name"@, Json::String(name), 4);
    let whole = whole.with("name"@, Json::String(name));
    lemma_plain_with(whole, "description"@, Json::String(description), 4);
    let whole = whole.with("description"@, Json::String(description));
    lemma_plain_with(whole, "parameters"@, openai_parameters(list), 4);
    lemma_plain_reads_back(openai_json(name, description, list), 4);
}

/// No name occurs twice among the arguments.
pub open spec fn distinct_params(list: Seq<Param>) -> bool {
    forall|i: int, j: int| 0 <= i < j < list.len() ==> list[i].name != list[j].name
}

/// The words of arguments are an object without a key twice.
proof fn lemma_words_distinct(style: SchemaStyle, list: Seq<Param>)
    ensures
        property_words(style, list) is Object,
        distinct_keys(property_words(style, list)->Object_0),
    decreases list.len(),
{
    if list.len() > 0 {
        lemma_words_distinct(style, list.drop_last());
        law_put_then_lookup(
            property_words(style, list.drop_last())->Object_0,
            list.last().name,
            Json::object().with("type"@, Json::String(word_for(style, list.last().scalar))),
            list.last().name,
        );
    }
}

/// A schema says of every argument, under its name, what kind of value it is.
pub proof fn law_schema_lists_arguments(style: SchemaStyle, list: Seq<Param>, i: int)
    requires
        distinct_params(list),
        0 <= i < list.len(),
    ensures
        property_words(style, list).member(list[i].name) == Some(
            Json::object().with("type"@, Json::String(word_for(style, list[i].scalar))),
        ),
    decreases list.len(),
{
    let before = list.drop_last();
    lemma_words_distinct(style, before);
    law_put_then_lookup(
        property_words(style, before)->Object_0,
        list.last().name,
        Json::object().with("type"@, Json::String(word_for(style, list.last().scalar))),
        list[i].name,
    );
    if i < list.len() - 1 {
        assert(distinct_params(before));
        law_schema_lists_arguments(style, before, i);
        assert(list[i].name != list.last().name);
    }
}

/// An argument's name is listed as required exactly where some argument of that
/// name may not be absent.
pub proof fn law_required_is_not_optional(list: Seq<Param>, name: Seq<char>)
    ensures
        required_names(list).contains(Json::String(name)) <==> exists|i: int|
            0 <= i < list.len() && (#[trigger] list[i]).name == name && !list[i].optional,
    decreases list.len(),
{
    if list.len() > 0 {
        let before = list.drop_last();
        let earlier = required_names(before);
        let all = required_names(list);
        law_required_is_not_optional(before, name);
        if exists|i: int| 0 <= i < list.len() && (#[trigger] list[i]).name == name
            && !list[i].optional {
            let i = choose|i: int|
                0 <= i < list.len() && (#[trigger] list[i]).name == name && !list[i].optional;
            if i < list.len() - 1 {
                assert(before[i] == list[i]);
                let j = choose|j: int| 0 <= j < earlier.len() && earlier[j] == Json::String(name);
                assert(all[j] == earlier[j]);
            } else {
                assert(all[all.len() - 1] == Json::String(name));
            }
        }
        if all.contains(Json::String(name)) {
            let j = choose|j: int| 0 <= j < all.len() && all[j] == Json::String(name);
            if j < earlier.len() {
                assert(earlier[j] == Json::String(name));
                let i = choose|i: int|
                    0 <= i < before.len() && (#[trigger] before[i]).name == name
                        && !before[i].optional;
                assert(list[i] == before[i]);
            } else {
                assert(list[list.len() - 1].name == name);
            }
        }
    }
}

/// The arguments of a call as an object, or what is said where they are none. A
/// tool without arguments takes anything.
pub open spec fn call_object(tool: Seq<char>, count: nat, args: Option<Json>) -> Result<
    Seq<(Seq<char>, Json)>,
    Seq<char>,
> {
    match args {
        Some(Json::Object(entries)) => Ok(entries),
        _ if count == 0 => Ok(Seq::empty()),
        None => Err(
            "Tool '"@ + tool + "' requires arguments (a JSON object), but got null/none."@,
        ),
        Some(other) => Err(
            "Tool '"@ + tool + "' arguments must be a JSON object, got: "@ + json_debug_text(other),
        ),
    }
}

/// The arguments of a call as an object.
pub fn arguments_object(tool: &str, count: usize, args: Option<JsonValue>) -> (r: Result<
    JsonObject,
    String,
>)
    ensures
        match r {
            Ok(object) => call_object(tool@, count as nat, tree_option(args)) == Ok::<
                Seq<(Seq<char>, Json)>,
                Seq<char>,
            >(object@),
            Err(message) => call_object(tool@, count as nat, tree_option(args)) == Err::<
                Seq<(Seq<char>, Json)>,
                Seq<char>,
            >(message@),
        },
{
    match args {
        Some(JsonValue::Object(object)) => Ok(object),
        None => if count == 0 {
            Ok(JsonObject::new())
        } else {
            Err(
                join3(
                    "Tool '",
                    tool,
                    "' requires arguments (a JSON object), but got null/none.",
                ),
            )
        },
        Some(other) => if count == 0 {
            Ok(JsonObject::new())
        } else {
            let mut message = join3(
                "Tool '",
                tool,
                "' arguments must be a JSON object, got: ",
            );
            message.append(other.debug_text().as_str());
            Err(message)
        },
    }
}

/// The value to read an argument from. An optional argument may be missing or
/// null; a required one may not be missing.
pub open spec fn call_argument(
    args: Seq<(Seq<char>, Json)>,
    name: Seq<char>,
    optional: bool,
) -> Result<Option<Json>, Seq<char>> {
    match lookup(args, name) {
        Some(value) => if optional && value is Null {
            Ok(None)
        } else {
            Ok(Some(value))
        },
        None => if optional {
            Ok(None)
        } else {
            Err("Missing required argument '"@ + name + "'"@)
        },
    }
}

/// The value to read an argument from.
pub fn argument(args: &JsonObject, name: &str, optional: bool) -> (r: Result<
    Option<JsonValue>,
    String,
>)
    ensures
        match r {
            Ok(value) => call_argument(args@, name@, optional) == Ok::<Option<Json>, Seq<char>>(
                tree_option(value),
            ),
            Err(message) => call_argument(args@, name@, optional) == Err::<
                Option<Json>,
                Seq<char>,
            >(message@),
        },
{
    match args.get(name) {
        Some(JsonValue::Null) => if optional {
            Ok(None)
        } else {
            Ok(Some(JsonValue::Null))
        },
        Some(value) => Ok(Some(value.clone())),
        None => if optional {
            Ok(None)
        } else {
            Err(join3("Missing required argument '", name, "'"))
        },
    }
}

/// What is said of an argument that could not be read from its value.
pub open spec fn argument_error(
    name: Seq<char>,
    optional: bool,
    error: Seq<char>,
    value: Json,
) -> Seq<char> {
    let kind = if optional {
        "optional"@
    } else {
        "required"@
    };
    "Failed to parse "@ + kind + " argument '"@ + name + "': "@ + error + " from value "@
        + json_debug_text(value)
}

/// What is said of an argument that could not be read from its value.
pub fn argument_error_message(
    name: &str,
    optional: bool,
    error: &str,
    value: &JsonValue,
) -> (r: String)
    ensures
        r@ == argument_error(name@, optional, error@, value@),
{
    let kind = if optional {
        "optional"
    } else {
        "required"
    };
    let mut message = join3("Failed to parse ", kind, " argument '");
    message.append(name);
    message.append("': ");
    message.append(error);
    message.append(" from value ");
    message.append(value.debug_text().as_str());
    message
}

/// What is said of a result that could not be written as JSON.
pub open spec fn result_error(form: ReturnForm, error: Seq<char>) -> Seq<char> {
    match form {
        ReturnForm::Nothing => error,
        ReturnForm::Fallible(ok_type) =>
            "Failed to serialize success result type "@ + ok_type + ": "@ + error,
        ReturnForm::Value(value_type) =>
            "Failed to serialize function result type "@ + value_type + ": "@ + error,
    }
}

/// What is said of a result that could not be written as JSON.
pub fn result_error_message(form: &Returns, error: &str) -> (r: String)
    ensures
        r@ == result_error(form@, error@),
{
    match form {
        Returns::Nothing => error.to_owned(),
        Returns::Fallible { ok_type } => {
            let mut message = join3(
                "Failed to serialize success result type ",
                ok_type.as_str(),
                ": ",
            );
            message.append(error);
            message
        },
        Returns::Value { value_type } => {
            let mut message = join3(
                "Failed to serialize function result type ",
                value_type.as_str(),
                ": ",
            );
            message.append(error);
            message
        },
    }
}

/// What running a tool came to.
#[derive(Debug, PartialEq)]
pub enum ToolRun {
    /// It finished, and there is nothing to hand back.
    Finished,
    /// Its value as JSON, or the display text of the error that writing it as JSON
    /// ended with.
    Serialized(Result<JsonValue, String>),
    /// It failed with an error of its own, which has this display text.
    Failed(String),
}

/// What a tool's handler resolves to. A tool without a result resolves to null. Any
/// other resolves to its value, to its own error's text, or to a complaint that the
/// value could not be written as JSON.
pub open spec fn handler_result(form: ReturnForm, run: ToolRun) -> Result<Json, Seq<char>> {
    if form is Nothing {
        Ok(Json::Null)
    } else {
        match run {
            ToolRun::Finished => Ok(Json::Null),
            ToolRun::Serialized(Ok(value)) => Ok(value@),
            ToolRun::Serialized(Err(error)) => Err(result_error(form, error@)),
            ToolRun::Failed(error) => Err(error@),
        }
    }
}

/// What a tool's handler resolves to.
pub fn finish_call(form: &Returns, run: ToolRun) -> (r: Result<JsonValue, String>)
    ensures
        parse_outcome(r) == handler_result(form@, run),
{
    if let Returns::Nothing = form {
        return Ok(JsonValue::Null);
    }
    match run {
        ToolRun::Finished => Ok(JsonValue::Null),
        ToolRun::Serialized(Ok(value)) => Ok(value),
        ToolRun::Serialized(Err(error)) => Err(result_error_message(form, error.as_str())),
        ToolRun::Failed(error) => Err(error),
    }
}

/// A handler fails exactly where its tool failed or its value could not be written
/// as JSON; a tool without a result never does.
pub proof fn law_when_a_handler_fails(form: ReturnForm, run: ToolRun)
    ensures
        handler_result(form, run) is Err <==> !(form is Nothing) && (run is Failed || (
        run matches ToolRun::Serialized(outcome) && outcome is Err)),
{
}

/// A tool without arguments can be called with anything, and a tool with arguments
/// with an object.
pub proof fn law_objects_are_taken(tool: Seq<char>, count: nat, args: Option<Json>)
    ensures
        call_object(tool, count, args) is Ok <==> count == 0 || (args is Some && args->0 is Object),
{
}

/// What a schema requires, a call must bring, and what it does not require, a call
/// may leave out.
pub proof fn law_adapter_agrees_with_schema(list: Seq<Param>, i: int)
    requires
        distinct_params(list),
        0 <= i < list.len(),
    ensures
        required_names(list).contains(Json::String(list[i].name)) <==> call_argument(
            Seq::empty(),
            list[i].name,
            list[i].optional,
        ) is Err,
{
    law_required_is_not_optional(list, list[i].name);
    if !list[i].optional {
        assert(list[i].name == list[i].name);
    }
}

/// The kind of an argument goes by the name of its type: texts, whole numbers, numbers
/// and truth values, each under the names that Rust has for them. None of these may be
/// absent, and no other name will do.
pub proof fn law_kinds_by_name(ty: TypeExpr, name: Seq<char>)
    requires
        ty.segments().len() > 0,
        ty.segments().last().ident@ == name,
    ensures
        name == "String"@ ==> classified(ty) == Ok::<(Scalar, bool), (Seq<char>, TypeProblem)>(
            (Scalar::Text, false),
        ),
        name == "i8"@ ==> classified(ty) == Ok::<(Scalar, bool), (Seq<char>, TypeProblem)>(
            (Scalar::Integer, false),
        ),
        name == "i16"@ ==> classified(ty) == Ok::<(Scalar, bool), (Seq<char>, TypeProblem)>(
            (Scalar::Integer, false),
        ),
        name == "i32"@ ==> classified(ty) == Ok::<(Scalar, bool), (Seq<char>, TypeProblem)>(
            (Scalar::Integer, false),
        ),
        name == "i64"@ ==> classified(ty) == Ok::<(Scalar, bool), (Seq<char>, TypeProblem)>(
            (Scalar::Integer, false),
        ),
        name == "u8"@ ==> classified(ty) == Ok::<(Scalar, bool), (Seq<char>, TypeProblem)>(
            (Scalar::Integer, false),
        ),
        name == "u16"@ ==> classified(ty) == Ok::<(Scalar, bool), (Seq<char>, TypeProblem)>(
            (Scalar::Integer, false),
        ),
        name == "u32"@ ==> classified(ty) == Ok::<(Scalar, bool), (Seq<char>, TypeProblem)>(
            (Scalar::Integer, false),
        ),
        name == "u64"@ ==> classified(ty) == Ok::<(Scalar, bool), (Seq<char>, TypeProblem)>(
            (Scalar::Integer, false),
        ),
        name == "isize"@ ==> classified(ty) == Ok::<(Scalar, bool), (Seq<char>, TypeProblem)>(
            (Scalar::Integer, false),
        ),
        name == "usize"@ ==> classified(ty) == Ok::<(Scalar, bool), (Seq<char>, TypeProblem)>(
            (Scalar::Integer, false),
        ),
        name == "f32"@ ==> classified(ty) == Ok::<(Scalar, bool), (Seq<char>, TypeProblem)>(
            (Scalar::Number, false),
        ),
        name == "f64"@ ==> classified(ty) == Ok::<(Scalar, bool), (Seq<char>, TypeProblem)>(
            (Scalar::Number, false),
        ),
        name == "bool"@ ==> classified(ty) == Ok::<(Scalar, bool), (Seq<char>, TypeProblem)>(
            (Scalar::Boolean, false),
        ),
        name != "String"@ && name != "i8"@ && name != "i16"@ && name != "i32"@ && name != "i64"@
            && name != "u8"@ && name != "u16"@ && name != "u32"@ && name != "u64"@
            && name != "isize"@ && name != "usize"@ && name != "f32"@ && name != "f64"@
            && name != "bool"@
            && name != "Option"@ ==> classified(ty) == Err::<(Scalar, bool), (Seq<char>, TypeProblem)>(
            (ty.text@, TypeProblem::Unsupported),
        ),
{
    reveal_strlit("String");
    reveal_strlit("i8");
    reveal_strlit("i16");
    reveal_strlit("i32");
    reveal_strlit("i64");
    reveal_strlit("u8");
    reveal_strlit("u16");
    reveal_strlit("u32");
    reveal_strlit("u64");
    reveal_strlit("isize");
    reveal_strlit("usize");
    reveal_strlit("f32");
    reveal_strlit("f64");
    reveal_strlit("bool");
    reveal_strlit("Option");
    assert("String"@.len() == 6);
    assert("i8"@.len() == 2);
    assert("i16"@.len() == 3);
    assert("i32"@.len() == 3);
    assert("i64"@.len() == 3);
    assert("u8"@.len() == 2);
    assert("u16"@.len() == 3);
    assert("u32"@.len() == 3);
    assert("u64"@.len() == 3);
    assert("isize"@.len() == 5);
    assert("usize"@.len() == 5);
    assert("f32"@.len() == 3);
    assert("f64"@.len() == 3);
    assert("bool"@.len() == 4);
    assert("Option"@.len() == 6);
    assert("String"@[0] != "Option"@[0]);
    assert("i8"@[0] != "u8"@[0]);
    assert("i16"@[1] != "i32"@[1]);
    assert("i16"@[1] != "i64"@[1]);
    assert("i16"@[0] != "u16"@[0]);
    assert("i16"@[0] != "u32"@[0]);
    assert("i16"@[0] != "u64"@[0]);
    assert("i16"@[0] != "f32"@[0]);
    assert("i16"@[0] != "f64"@[0]);
    assert("i32"@[1] != "i64"@[1]);
    assert("i32"@[0] != "u16"@[0]);
    assert("i32"@[0] != "u32"@[0]);
    assert("i32"@[0] != "u64"@[0]);
    assert("i32"@[0] != "f32"@[0]);
    assert("i32"@[0] != "f64"@[0]);
    assert("i64"@[0] != "u16"@[0]);
    assert("i64"@[0] != "u32"@[0]);
    assert("i64"@[0] != "u64"@[0]);
    assert("i64"@[0] != "f32"@[0]);
    assert("i64"@[0] != "f64"@[0]);
    assert("u16"@[1] != "u32"@[1]);
    assert("u16"@[1] != "u64"@[1]);
    assert("u16"@[0] != "f32"@[0]);
    assert("u16"@[0] != "f64"@[0]);
    assert("u32"@[1] != "u64"@[1]);
    assert("u32"@[0] != "f32"@[0]);
    assert("u32"@[0] != "f64"@[0]);
    assert("u64"@[0] != "f32"@[0]);
    assert("u64"@[0] != "f64"@[0]);
    assert("isize"@[0] != "usize"@[0]);
    assert("f32"@[1] != "f64"@[1]);
}

/// The services are told the kind of an argument in words of their own.
pub proof fn law_words_by_name(ty: TypeExpr, name: Seq<char>)
    requires
        ty.segments().len() > 0,
        ty.segments().last().ident@ == name,
    ensures
        name == "String"@ ==> schema_info(SchemaStyle::Gemini, ty) == Ok::<
            (Seq<char>, bool),
            (Seq<char>, Seq<char>),
        >(("STRING"@, false)) && schema_info(SchemaStyle::OpenAi, ty) == Ok::<
            (Seq<char>, bool),
            (Seq<char>, Seq<char>),
        >(("string"@, false)),
        name == "i8"@ ==> schema_info(SchemaStyle::Gemini, ty) == Ok::<
            (Seq<char>, bool),
            (Seq<char>, Seq<char>),
        >(("INTEGER"@, false)) && schema_info(SchemaStyle::OpenAi, ty) == Ok::<
            (Seq<char>, bool),
            (Seq<char>, Seq<char>),
        >(("integer"@, false)),
        name == "i16"@ ==> schema_info(SchemaStyle::Gemini, ty) == Ok::<
            (Seq<char>, bool),
            (Seq<char>, Seq<char>),
        >(("INTEGER"@, false)) && schema_info(SchemaStyle::OpenAi, ty) == Ok::<
            (Seq<char>, bool),
            (Seq<char>, Seq<char>),
        >(("integer"@, false)),
        name == "i32"@ ==> schema_info(SchemaStyle::Gemini, ty) == Ok::<
            (Seq<char>, bool),
            (Seq<char>, Seq<char>),
        >(("INTEGER"@, false)) && schema_info(SchemaStyle::OpenAi, ty) == Ok::<
            (Seq<char>, bool),
            (Seq<char>, Seq<char>),
        >(("integer"@, false)),
        name == "i64"@ ==> schema_info(SchemaStyle::Gemini, ty) == Ok::<
            (Seq<char>, bool),
            (Seq<char>, Seq<char>),
        >(("INTEGER"@, false)) && schema_info(SchemaStyle::OpenAi, ty) == Ok::<
            (Seq<char>, bool),
            (Seq<char>, Seq<char>),
        >(("integer"@, false)),
        name == "u8"@ ==> schema_info(SchemaStyle::Gemini, ty) == Ok::<
            (Seq<char>, bool),
            (Seq<char>, Seq<char>),
        >(("INTEGER"@, false)) && schema_info(SchemaStyle::OpenAi, ty) == Ok::<
            (Seq<char>, bool),
            (Seq<char>, Seq<char>),
        >(("integer"@, false)),
        name == "u16"@ ==> schema_info(SchemaStyle::Gemini, ty) == Ok::<
            (Seq<char>, bool),
            (Seq<char>, Seq<char>),
        >(("INTEGER"@, false)) && schema_info(SchemaStyle::OpenAi, ty) == Ok::<
            (Seq<char>, bool),
            (Seq<char>, Seq<char>),
        >(("integer"@, false)),
        name == "u32"@ ==> schema_info(SchemaStyle::Gemini, ty) == Ok::<
            (Seq<char>, bool),
            (Seq<char>, Seq<char>),
        >(("INTEGER"@, false)) && schema_info(SchemaStyle::OpenAi, ty) == Ok::<
            (Seq<char>, bool),
            (Seq<char>, Seq<char>),
        >(("integer"@, false)),
        name == "u64"@ ==> schema_info(SchemaStyle::Gemini, ty) == Ok::<
            (Seq<char>, bool),
            (Seq<char>, Seq<char>),
        >(("INTEGER"@, false)) && schema_info(SchemaStyle::OpenAi, ty) == Ok::<
            (Seq<char>, bool),
            (Seq<char>, Seq<char>),
        >(("integer"@, false)),
        name == "isize"@ ==> schema_info(SchemaStyle::Gemini, ty) == Ok::<
            (Seq<char>, bool),
            (Seq<char>, Seq<char>),
        >(("INTEGER"@, false)) && schema_info(SchemaStyle::OpenAi, ty) == Ok::<
            (Seq<char>, bool),
            (Seq<char>, Seq<char>),
        >(("integer"@, false)),
        name == "usize"@ ==> schema_info(SchemaStyle::Gemini, ty) == Ok::<
            (Seq<char>, bool),
            (Seq<char>, Seq<char>),
        >(("INTEGER"@, false)) && schema_info(SchemaStyle::OpenAi, ty) == Ok::<
            (Seq<char>, bool),
            (Seq<char>, Seq<char>),
        >(("integer"@, false)),
        name == "f32"@ ==> schema_info(SchemaStyle::Gemini, ty) == Ok::<
            (Seq<char>, bool),
            (Seq<char>, Seq<char>),
        >(("NUMBER"@, false)) && schema_info(SchemaStyle::OpenAi, ty) == Ok::<
            (Seq<char>, bool),
            (Seq<char>, Seq<char>),
        >(("number"@, false)),
        name == "f64"@ ==> schema_info(SchemaStyle::Gemini, ty) == Ok::<
            (Seq<char>, bool),
            (Seq<char>, Seq<char>),
        >(("NUMBER"@, false)) && schema_info(SchemaStyle::OpenAi, ty) == Ok::<
            (Seq<char>, bool),
            (Seq<char>, Seq<char>),
        >(("number"@, false)),
        name == "bool"@ ==> schema_info(SchemaStyle::Gemini, ty) == Ok::<
            (Seq<char>, bool),
            (Seq<char>, Seq<char>),
        >(("BOOLEAN"@, false)) && schema_info(SchemaStyle::OpenAi, ty) == Ok::<
            (Seq<char>, bool),
            (Seq<char>, Seq<char>),
        >(("boolean"@, false)),
{
    law_kinds_by_name(ty, name);
}

/// An `Option` is of the kind that its type is of, and may be absent; where its type
/// will not do, that type is what is complained of.
pub proof fn law_options_may_be_absent(ty: TypeExpr, inner: TypeExpr)
    requires
        ty.segments().len() > 0,
        ty.segments().last().ident@ == "Option"@,
        ty.segments().last().arguments matches Arguments::AngleBracketed(args) && args@.len() > 0
            && args@[0] == Argument::Type(inner),
    ensures
        classified(inner) matches Ok(kind) ==> classified(ty) == Ok::<
            (Scalar, bool),
            (Seq<char>, TypeProblem),
        >((kind.0, true)),
        classified(inner) matches Err(fault) ==> classified(ty) == Err::<
            (Scalar, bool),
            (Seq<char>, TypeProblem),
        >(fault),
{
}

/// An `Option` without a type, and a type that is no path, will not do.
pub proof fn law_types_that_will_not_do(ty: TypeExpr)
    ensures
        ty.shape is Other ==> classified(ty) == Err::<(Scalar, bool), (Seq<char>, TypeProblem)>(
            (ty.text@, TypeProblem::NotAPath),
        ),
        ty.segments().len() > 0 && ty.segments().last().ident@ == "Option"@
            && !(ty.segments().last().arguments is AngleBracketed) ==> classified(ty) == Err::<
            (Scalar, bool),
            (Seq<char>, TypeProblem),
        >((ty.text@, TypeProblem::BareOption)),
        ty.segments().len() > 0 && ty.segments().last().ident@ == "Option"@ && (
        ty.segments().last().arguments matches Arguments::AngleBracketed(args) && (args@.len() == 0
            || args@[0] is Other)) ==> classified(ty) == Err::<
            (Scalar, bool),
            (Seq<char>, TypeProblem),
        >((ty.text@, TypeProblem::BareOption)),
{
}

/// What is said of a type that will not do.
pub proof fn law_complaints_about_types(text: Seq<char>)
    ensures
        problem_message(SchemaStyle::Gemini, text, TypeProblem::BareOption)
            == "Option type must have a generic argument (e.g., Option<String>)."@,
        problem_message(SchemaStyle::OpenAi, text, TypeProblem::BareOption)
            == "Option type must have a generic argument (e.g., Option<String>)."@,
        problem_message(SchemaStyle::Gemini, text, TypeProblem::Unsupported)
            == "Unsupported parameter type for Gemini/OpenAI schema: "@ + text
            + ". Supported types: String, iXX/uXX, fXX, bool, Option<T>."@,
        problem_message(SchemaStyle::OpenAi, text, TypeProblem::Unsupported)
            == "Unsupported parameter type for OpenAI schema: "@ + text
            + ". Supported types: String, iXX/uXX, fXX, bool, Option<T>."@,
        problem_message(SchemaStyle::Gemini, text, TypeProblem::NotAPath)
            == "Parameter type must be a simple path type."@,
        problem_message(SchemaStyle::OpenAi, text, TypeProblem::NotAPath)
            == "Parameter type must be a simple path type for OpenAI schema."@,
{
}

/// `Arc<T>` and `std::sync::Arc<T>`, with or without a leading `::`, are an `Arc` of
/// `T`.
pub proof fn law_arcs(ty: TypeExpr, inner: TypeExpr)
    requires
        ty.segments().len() == 1 || (ty.segments().len() == 3 && ty.segments()[0].ident@ == "std"@
            && ty.segments()[1].ident@ == "sync"@),
        ty.segments().last().ident@ == "Arc"@,
        ty.segments().last().arguments matches Arguments::AngleBracketed(args) && args@.len() > 0
            && args@[0] == Argument::Type(inner),
    ensures
        arc_inner(ty) == Some(inner),
{
}

/// What has another name at the end, or another path before it, or no type in angle
/// brackets, is no `Arc`.
pub proof fn law_no_arcs(ty: TypeExpr)
    requires
        ty.segments().len() == 0 || ty.segments().last().ident@ != "Arc"@ || !(
        ty.segments().last().arguments matches Arguments::AngleBracketed(args) && args@.len() > 0
            && args@[0] is Type) || ty.segments().len() == 2 || (ty.segments().len() == 3 && (
        ty.segments()[0].ident@ != "std"@ || ty.segments()[1].ident@ != "sync"@)),
    ensures
        arc_inner(ty) is None,
{
}

/// `Result<T, E>`, under whatever path, has the two types that it is written with, in
/// that order; nothing else has them.
pub proof fn law_results(ty: TypeExpr, ok: TypeExpr, err: TypeExpr)
    ensures
        result_types(ty) == Some((ok, err)) <==> ty.segments().len() > 0
            && ty.segments().last().ident@ == "Result"@ && (ty.segments().last().arguments matches
        Arguments::AngleBracketed(args) && args@.len() == 2 && args@[0] == Argument::Type(ok)
            && args@[1] == Argument::Type(err)),
{
}

/// How a result passes into JSON goes by the type that is written: none, a `Result`,
/// of which the first type is told, or any other, which is told itself.
pub proof fn law_return_forms(ty: TypeExpr)
    ensures
        return_form(None) is Nothing,
        result_types(ty) matches Some(types) ==> return_form(Some(ty)) == ReturnForm::Fallible(
            types.0.text@,
        ),
        result_types(ty) is None ==> return_form(Some(ty)) == ReturnForm::Value(ty.text@),
{
}

/// Each line of documentation comes, trimmed, on a line of its own behind those before
/// it; other attributes say nothing.
pub proof fn law_documentation_line_by_line(attributes: Seq<FnAttribute>, next: FnAttribute)
    ensures
        doc_description(Seq::empty()) is None,
        !next.is_doc || next.text is None ==> doc_description(attributes.push(next))
            == doc_description(attributes),
        next.is_doc ==> (next.text matches Some(text) ==> doc_description(attributes.push(next))
            == match doc_description(attributes) {
            Some(lines) => Some(lines + "\n"@ + trimmed(text@)),
            None => Some(trimmed(text@)),
        }),
{
    assert(attributes.push(next).drop_last() =~= attributes);
    let before = doc_lines(attributes);
    if let Some(text) = next.text {
        if next.is_doc {
            assert(doc_lines(attributes.push(next)).drop_last() =~= before);
        }
    }
}

/// What the attribute says comes before what the documentation says.
pub proof fn law_attribute_describes(source: ToolSource)
    ensures
        source.attribute matches Some(text) ==> description(source) == Some(text@),
        source.attribute is None ==> description(source) == doc_description(source.attributes@),
{
}

/// The state is asked for by the first input alone, where that is an `Arc`; the
/// arguments are then the inputs behind it, and otherwise all inputs.
pub proof fn law_state_comes_first(inputs: Seq<FnInput>, name: Option<String>, ty: TypeExpr)
    ensures
        state_type(Seq::empty()) is None,
        inputs.len() > 0 && inputs[0] is Receiver ==> state_type(inputs) is None,
        inputs.len() > 0 && inputs[0] == (FnInput::Typed { name, ty }) ==> state_type(inputs)
            == arc_inner(ty),
        state_type(inputs) is Some ==> first_argument(inputs) == 1,
        state_type(inputs) is None ==> first_argument(inputs) == 0,
{
}

/// An input is an argument under its own name, of the kind of its type.
pub proof fn law_input_is_argument(name: String, ty: TypeExpr, index: int)
    ensures
        classified(ty) matches Ok(kind) ==> input_param(
            FnInput::Typed { name: Some(name), ty },
            index,
        ) == Ok::<Param, Complaint>(Param { name: name@, scalar: kind.0, optional: kind.1 }),
        classified(ty) matches Err(fault) ==> input_param(
            FnInput::Typed { name: Some(name), ty },
            index,
        ) == Err::<Param, Complaint>(
            Complaint {
                place: Place::ParameterType(index, fault.0),
                message: problem_message(SchemaStyle::Gemini, fault.0, fault.1),
            },
        ),
        input_param(FnInput::Typed { name: None, ty }, index) == Err::<Param, Complaint>(
            Complaint {
                place: Place::Pattern(index),
                message:
                    "Tool function parameters must be simple identifiers (e.g., `my_arg: String`)"@,
            },
        ),
        input_param(FnInput::Receiver, index) == Err::<Param, Complaint>(
            Complaint {
                place: Place::Input(index),
                message: "Tool function parameters cannot be `self`"@,
            },
        ),
{
}

/// Where all inputs will do, each is an argument in its own place; where one will not,
/// the complaint is about the first such.
pub proof fn law_arguments_in_order(inputs: Seq<FnInput>, from: int, to: int)
    requires
        0 <= from <= to <= inputs.len(),
    ensures
        match input_params(inputs, from, to) {
            Ok(list) => list.len() == to - from && forall|i: int|
                from <= i < to ==> input_param(#[trigger] inputs[i], i) == Ok::<Param, Complaint>(
                    list[i - from],
                ),
            Err(complaint) => exists|i: int|
                from <= i < to && input_param(#[trigger] inputs[i], i) == Err::<Param, Complaint>(
                    complaint,
                ) && forall|j: int| from <= j < i ==> input_param(#[trigger] inputs[j], j) is Ok,
        },
    decreases to - from,
{
    if from < to {
        law_arguments_in_order(inputs, from, to - 1);
        match input_params(inputs, from, to - 1) {
            Ok(list) => {
                if input_param(inputs[to - 1], to - 1) is Err {
                    assert forall|j: int| from <= j < to - 1 implies input_param(
                        #[trigger] inputs[j],
                        j,
                    ) is Ok by {}
                }
            },
            Err(complaint) => {},
        }
    }
}

/// A function becomes a tool exactly where it is described, async, and all its inputs
/// behind the state will do. Otherwise the first of these that fails is what is
/// complained of.
pub proof fn law_when_a_function_is_a_tool(source: ToolSource)
    ensures
        complaint(source) is None <==> description(source) is Some && source.is_async
            && input_params(
            source.inputs@,
            first_argument(source.inputs@),
            source.inputs@.len() as int,
        ) is Ok,
        description(source) is None ==> complaint(source) == Some(
            Complaint {
                place: Place::Name,
                message:
                    "Missing tool description: Add a /// doc comment or provide it in the attribute, e.g., #[tool_function(\"My description\")]"@,
            },
        ),
        description(source) is Some && !source.is_async ==> complaint(source) == Some(
            Complaint { place: Place::FnKeyword, message: "Tool function must be async"@ },
        ),
        description(source) is Some && source.is_async ==> (input_params(
            source.inputs@,
            first_argument(source.inputs@),
            source.inputs@.len() as int,
        ) matches Err(e) ==> complaint(source) == Some(e)),
        source_params(source) == input_params(
            source.inputs@,
            first_argument(source.inputs@),
            source.inputs@.len() as int,
        ),
{
}

/// The names that are required are those of the arguments that may not be absent, in
/// the order of the arguments.
pub proof fn law_required_one_by_one(list: Seq<Param>, next: Param)
    ensures
        required_names(Seq::empty()) == Seq::<Json>::empty(),
        next.optional ==> required_names(list.push(next)) == required_names(list),
        !next.optional ==> required_names(list.push(next)) == required_names(list).push(
            Json::String(next.name),
        ),
{
    assert(list.push(next).drop_last() =~= list);
}

/// Of arguments under one name the last is the one that is written.
proof fn lemma_word_of_argument(style: SchemaStyle, list: Seq<Param>, i: int)
    requires
        0 <= i < list.len(),
        forall|j: int| i < j < list.len() ==> (#[trigger] list[j]).name != list[i].name,
    ensures
        property_words(style, list).member(list[i].name) == Some(
            Json::object().with("type"@, Json::String(word_for(style, list[i].scalar))),
        ),
    decreases list.len(),
{
    let before = list.drop_last();
    lemma_words_distinct(style, before);
    law_put_then_lookup(
        property_words(style, before)->Object_0,
        list.last().name,
        Json::object().with("type"@, Json::String(word_for(style, list.last().scalar))),
        list[i].name,
    );
    if i < list.len() - 1 {
        assert(list[list.len() - 1].name != list[i].name);
        assert forall|j: int| i < j < before.len() implies (#[trigger] before[j]).name
            != before[i].name by {
            assert(list[j].name != list[i].name);
        }
        lemma_word_of_argument(style, before, i);
    }
}

/// A name that no argument has is not written.
proof fn lemma_no_word(style: SchemaStyle, list: Seq<Param>, name: Seq<char>)
    requires
        forall|j: int| 0 <= j < list.len() ==> (#[trigger] list[j]).name != name,
    ensures
        property_words(style, list).member(name) is None,
    decreases list.len(),
{
    if list.len() > 0 {
        let before = list.drop_last();
        lemma_words_distinct(style, before);
        law_put_then_lookup(
            property_words(style, before)->Object_0,
            list.last().name,
            Json::object().with("type"@, Json::String(word_for(style, list.last().scalar))),
            name,
        );
        assert forall|j: int| 0 <= j < before.len() implies (#[trigger] before[j]).name
            != name by {
            assert(list[j].name != name);
        }
        assert(list[list.len() - 1].name != name);
        lemma_no_word(style, before, name);
    }
}

/// A property says its kind in the service's word, and nothing else.
proof fn lemma_word_object(word: Seq<char>)
    ensures
        Json::object().with("type"@, Json::String(word)).member("type"@) == Some(
            Json::String(word),
        ),
        forall|other: Seq<char>|
            other != "type"@ ==> (#[trigger] Json::object().with(
                "type"@,
                Json::String(word),
            ).member(other)) is None,
{
    let w0 = Json::object();
    assert forall|key: Seq<char>| #[trigger] w0.member(key) is None by {}
    let w1 = w0.with_optional("type"@, Some(Json::String(word)));
    lemma_members_with(w0, "type"@, Some(Json::String(word)));
    assert(Json::object().with("type"@, Json::String(word)) == w1);
}

/// The properties of a schema: under the name of an argument the word for its kind, of
/// arguments with the same name that of the last; under any other name nothing.
pub proof fn law_properties_by_argument(list: Seq<Param>, i: int, other: Seq<char>)
    requires
        0 <= i < list.len(),
        forall|j: int| i < j < list.len() ==> (#[trigger] list[j]).name != list[i].name,
    ensures
        property_words(SchemaStyle::Gemini, list).member(list[i].name) matches Some(property)
            && property.text_member("type"@) == Some(
            match list[i].scalar {
                Scalar::Text => "STRING"@,
                Scalar::Integer => "INTEGER"@,
                Scalar::Number => "NUMBER"@,
                Scalar::Boolean => "BOOLEAN"@,
            },
        ),
        property_words(SchemaStyle::OpenAi, list).member(list[i].name) matches Some(property)
            && property.text_member("type"@) == Some(
            match list[i].scalar {
                Scalar::Text => "string"@,
                Scalar::Integer => "integer"@,
                Scalar::Number => "number"@,
                Scalar::Boolean => "boolean"@,
            },
        ),
        (forall|j: int| 0 <= j < list.len() ==> (#[trigger] list[j]).name != other)
            ==> property_words(SchemaStyle::Gemini, list).member(other) is None && property_words(
            SchemaStyle::OpenAi,
            list,
        ).member(other) is None,
{
    lemma_word_of_argument(SchemaStyle::Gemini, list, i);
    lemma_word_of_argument(SchemaStyle::OpenAi, list, i);
    if forall|j: int| 0 <= j < list.len() ==> (#[trigger] list[j]).name != other {
        lemma_no_word(SchemaStyle::Gemini, list, other);
        lemma_no_word(SchemaStyle::OpenAi, list, other);
    }
    lemma_word_object(word_for(SchemaStyle::Gemini, list[i].scalar));
    lemma_word_object(word_for(SchemaStyle::OpenAi, list[i].scalar));
}

/// Gemini is told the tool's name and description, and the arguments where there are
/// any: that they are an object, its properties, and which are required where some
/// are.
pub proof fn law_gemini_declaration(name: Seq<char>, description: Seq<char>, list: Seq<Param>)
    ensures
        ({
            let w = gemini_json(name, description, list);
            &&& w.member("name"@) == Some(Json::String(name))
            &&& w.member("description"@) == Some(Json::String(description))
            &&& w.member("parameters"@) is Some <==> list.len() > 0
            &&& w.member("parameters"@) matches Some(schema) ==> {
                &&& schema.member("type"@) == Some(Json::String("OBJECT"@))
                &&& schema.member("properties"@) == Some(
                    property_words(SchemaStyle::Gemini, list),
                )
                &&& required_names(list).len() > 0 ==> schema.member("required"@) == Some(
                    Json::Array(required_names(list)),
                )
                &&& required_names(list).len() == 0 ==> schema.member("required"@) is None
                &&& forall|other: Seq<char>| other != "type"@ && other != "properties"@
                    && other != "required"@ ==> (#[trigger] schema.member(other)) is None
            }
            &&& forall|other: Seq<char>| other != "name"@ && other != "description"@
                && other != "parameters"@ ==> (#[trigger] w.member(other)) is None
        }),
{
    reveal_strlit("name");
    reveal_strlit("description");
    reveal_strlit("parameters");
    reveal_strlit("type");
    reveal_strlit("properties");
    reveal_strlit("required");
    assert("name"@.len() == 4);
    assert("description"@.len() == 11);
    assert("parameters"@.len() == 10);
    assert("type"@.len() == 4);
    assert("properties"@.len() == 10);
    assert("required"@.len() == 8);
    assert("name"@[0] != "type"@[0]);
    assert("parameters"@[1] != "properties"@[1]);
    let required = required_names(list);
    let listed = if required.len() == 0 {
        None
    } else {
        Some(Json::Array(required))
    };
    let s0 = Json::object();
    assert forall|key: Seq<char>| #[trigger] s0.member(key) is None by {}
    let s1 = s0.with_optional("type"@, Some(Json::String("OBJECT"@)));
    lemma_members_with(s0, "type"@, Some(Json::String("OBJECT"@)));
    let s2 = s1.with_optional("properties"@, Some(property_words(SchemaStyle::Gemini, list)));
    lemma_members_with(s1, "properties"@, Some(property_words(SchemaStyle::Gemini, list)));
    let s3 = s2.with_optional("required"@, listed);
    lemma_members_with(s2, "required"@, listed);
    let w0 = Json::object();
    assert forall|key: Seq<char>| #[trigger] w0.member(key) is None by {}
    let w1 = w0.with_optional("name"@, Some(Json::String(name)));
    lemma_members_with(w0, "name"@, Some(Json::String(name)));
    let w2 = w1.with_optional("description"@, Some(Json::String(description)));
    lemma_members_with(w1, "description"@, Some(Json::String(description)));
    let w3 = w2.with_optional("parameters"@, gemini_parameters(list));
    lemma_members_with(w2, "parameters"@, gemini_parameters(list));
    assert(list.len() > 0 ==> gemini_parameters(list) == Some(s3));
    assert(gemini_json(name, description, list) == w3);
}

/// OpenAI is told that the tool is a function, its name and description, and the
/// arguments: that they are an object, its properties, and, where there are any
/// arguments, which of them are required.
pub proof fn law_openai_definition(name: Seq<char>, description: Seq<char>, list: Seq<Param>)
    ensures
        ({
            let w = openai_json(name, description, list);
            &&& w.member("type"@) == Some(Json::String("function"@))
            &&& w.member("name"@) == Some(Json::String(name))
            &&& w.member("description"@) == Some(Json::String(description))
            &&& w.member("parameters"@) matches Some(schema) && {
                &&& schema.member("type"@) == Some(Json::String("object"@))
                &&& schema.member("properties"@) == Some(
                    property_words(SchemaStyle::OpenAi, list),
                )
                &&& list.len() > 0 ==> schema.member("required"@) == Some(
                    Json::Array(required_names(list)),
                )
                &&& list.len() == 0 ==> schema.member("required"@) is None
                &&& forall|other: Seq<char>| other != "type"@ && other != "properties"@
                    && other != "required"@ ==> (#[trigger] schema.member(other)) is None
            }
            &&& forall|other: Seq<char>| other != "type"@ && other != "name"@
                && other != "description"@
                && other != "parameters"@ ==> (#[trigger] w.member(other)) is None
        }),
{
    reveal_strlit("name");
    reveal_strlit("description");
    reveal_strlit("parameters");
    reveal_strlit("type");
    reveal_strlit("properties");
    reveal_strlit("required");
    assert("name"@.len() == 4);
    assert("description"@.len() == 11);
    assert("parameters"@.len() == 10);
    assert("type"@.len() == 4);
    assert("properties"@.len() == 10);
    assert("required"@.len() == 8);
    assert("name"@[0] != "type"@[0]);
    assert("parameters"@[1] != "properties"@[1]);
    let listed = if list.len() == 0 {
        None
    } else {
        Some(Json::Array(required_names(list)))
    };
    let s0 = Json::object();
    assert forall|key: Seq<char>| #[trigger] s0.member(key) is None by {}
    let s1 = s0.with_optional("type"@, Some(Json::String("object"@)));
    lemma_members_with(s0, "type"@, Some(Json::String("object"@)));
    let s2 = s1.with_optional("properties"@, Some(property_words(SchemaStyle::OpenAi, list)));
    lemma_members_with(s1, "properties"@, Some(property_words(SchemaStyle::OpenAi, list)));
    let s3 = s2.with_optional("required"@, listed);
    lemma_members_with(s2, "required"@, listed);
    let w0 = Json::object();
    assert forall|key: Seq<char>| #[trigger] w0.member(key) is None by {}
    let w1 = w0.with_optional("type"@, Some(Json::String("function"@)));
    lemma_members_with(w0, "type"@, Some(Json::String("function"@)));
    let w2 = w1.with_optional("name"@, Some(Json::String(name)));
    lemma_members_with(w1, "name"@, Some(Json::String(name)));
    let w3 = w2.with_optional("description"@, Some(Json::String(description)));
    lemma_members_with(w2, "description"@, Some(Json::String(description)));
    let w4 = w3.with_optional("parameters"@, Some(openai_parameters(list)));
    lemma_members_with(w3, "parameters"@, Some(openai_parameters(list)));
    assert(openai_parameters(list) == s3);
    assert(openai_json(name, description, list) == w4);
}

/// A plan carries the function's own name, its description, its arguments, the text
/// of its state's type, and the declarations that say the same to the services.
pub proof fn law_plan_follows_the_function(
    plan: ToolPlan,
    source: ToolSource,
    described: Seq<char>,
    list: Seq<Param>,
)
    requires
        plan_fits(plan, source, described, list),
    ensures
        plan.name@ == source.name@,
        plan.description@ == described,
        plan.parameters@.len() == list.len(),
        forall|i: int|
            0 <= i < list.len() ==> (#[trigger] plan.parameters@[i]).name@ == list[i].name
                && plan.parameters@[i].scalar == list[i].scalar && plan.parameters@[i].optional
                == list[i].optional,
        state_type(source.inputs@) matches Some(ty) ==> (plan.state_type matches Some(text) && text@
            == ty.text@),
        state_type(source.inputs@) is None ==> plan.state_type is None,
        plan.gemini_declaration.wire().member("name"@) == Some(Json::String(source.name@)),
        plan.gemini_declaration.wire().member("description"@) == Some(Json::String(described)),
        plan.openai_definition@.member("name"@) == Some(Json::String(source.name@)),
        plan.openai_definition@.member("description"@) == Some(Json::String(described)),
        plan.gemini_declaration.wire() == gemini_json(source.name@, described, list),
        plan.openai_definition@ == openai_json(source.name@, described, list),
        plan.result_form@ == return_form(source.output),
{
    law_gemini_declaration(source.name@, described, list);
    law_openai_definition(source.name@, described, list);
    assert forall|i: int| 0 <= i < list.len() implies (#[trigger] plan.parameters@[i]).name@
        == list[i].name && plan.parameters@[i].scalar == list[i].scalar
        && plan.parameters@[i].optional == list[i].optional by {
        assert(params(plan.parameters@)[i] == list[i]);
    }
    assert(params(plan.parameters@).len() == list.len());
}

/// An argument that is given, and not null, is read from exactly the value given,
/// whether it may be absent or not. Null stands for an argument that is absent where
/// it may be, and is a value like any other where it may not.
pub proof fn law_argument_is_read_from_its_value(
    args: Seq<(Seq<char>, Json)>,
    i: int,
    optional: bool,
)
    requires
        distinct_keys(args),
        0 <= i < args.len(),
    ensures
        args[i].1 != Json::Null ==> call_argument(args, args[i].0, optional) == Ok::<
            Option<Json>,
            Seq<char>,
        >(Some(args[i].1)),
        args[i].1 == Json::Null ==> call_argument(args, args[i].0, true) == Ok::<
            Option<Json>,
            Seq<char>,
        >(None),
        args[i].1 == Json::Null ==> call_argument(args, args[i].0, false) == Ok::<
            Option<Json>,
            Seq<char>,
        >(Some(Json::Null)),
{
    law_lookup_by_entry(args, args[i].0, i);
}

/// An argument that is not given is absent where it may be, and missed where it may
/// not.
pub proof fn law_argument_not_given(args: Seq<(Seq<char>, Json)>, name: Seq<char>)
    requires
        distinct_keys(args),
        forall|i: int| 0 <= i < args.len() ==> (#[trigger] args[i]).0 != name,
    ensures
        call_argument(args, name, true) == Ok::<Option<Json>, Seq<char>>(None),
        call_argument(args, name, false) == Err::<Option<Json>, Seq<char>>(
            "Missing required argument '"@ + name + "'"@,
        ),
{
    law_lookup_by_entry(args, name, 0);
}

/// What other arguments are given makes no difference to an argument.
pub proof fn law_arguments_are_independent(
    args: Seq<(Seq<char>, Json)>,
    other: Seq<char>,
    value: Json,
    name: Seq<char>,
    optional: bool,
)
    requires
        distinct_keys(args),
        other != name,
    ensures
        call_argument(put(args, other, value), name, optional) == call_argument(
            args,
            name,
            optional,
        ),
{
    law_put_then_lookup(args, other, value, name);
}

/// An object of arguments is taken as it is, by every tool. Anything else is taken by
/// a tool without arguments, as none, and refused by any other with the reason.
pub proof fn law_arguments_of_a_call(
    tool: Seq<char>,
    count: nat,
    entries: Seq<(Seq<char>, Json)>,
    other: Json,
)
    requires
        !(other is Object),
    ensures
        call_object(tool, count, Some(Json::Object(entries))) == Ok::<
            Seq<(Seq<char>, Json)>,
            Seq<char>,
        >(entries),
        call_object(tool, 0, None) == Ok::<Seq<(Seq<char>, Json)>, Seq<char>>(Seq::empty()),
        call_object(tool, 0, Some(other)) == Ok::<Seq<(Seq<char>, Json)>, Seq<char>>(Seq::empty()),
        count > 0 ==> call_object(tool, count, None) == Err::<
            Seq<(Seq<char>, Json)>,
            Seq<char>,
        >("Tool '"@ + tool + "' requires arguments (a JSON object), but got null/none."@),
        count > 0 ==> call_object(tool, count, Some(other)) == Err::<
            Seq<(Seq<char>, Json)>,
            Seq<char>,
        >(
            "Tool '"@ + tool + "' arguments must be a JSON object, got: "@ + json_debug_text(other),
        ),
{
}

/// What is said of an argument that could not be read names the argument, the reason
/// and the value, and whether the argument may be absent.
pub proof fn law_unread_arguments(name: Seq<char>, error: Seq<char>, value: Json)
    ensures
        argument_error(name, true, error, value) == "Failed to parse optional argument '"@ + name
            + "': "@ + error + " from value "@ + json_debug_text(value),
        argument_error(name, false, error, value) == "Failed to parse required argument '"@ + name
            + "': "@ + error + " from value "@ + json_debug_text(value),
{
    reveal_strlit("Failed to parse ");
    reveal_strlit("optional");
    reveal_strlit("required");
    reveal_strlit(" argument '");
    reveal_strlit("Failed to parse optional argument '");
    reveal_strlit("Failed to parse required argument '");
    assert("Failed to parse "@ + "optional"@ + " argument '"@
        =~= "Failed to parse optional argument '"@);
    assert("Failed to parse "@ + "required"@ + " argument '"@
        =~= "Failed to parse required argument '"@);
}

/// A handler hands back the very value that its tool came to. A tool's own error is
/// handed back as it is; a value that could not be written is reported with its type.
/// A tool without a result hands back null, and so does one that merely finished.
pub proof fn law_results_are_handed_back(
    ty: Seq<char>,
    value: JsonValue,
    error: String,
    run: ToolRun,
)
    ensures
        handler_result(ReturnForm::Nothing, run) == Ok::<Json, Seq<char>>(Json::Null),
        handler_result(ReturnForm::Fallible(ty), ToolRun::Serialized(Ok(value))) == Ok::<
            Json,
            Seq<char>,
        >(value@),
        handler_result(ReturnForm::Value(ty), ToolRun::Serialized(Ok(value))) == Ok::<
            Json,
            Seq<char>,
        >(value@),
        handler_result(ReturnForm::Fallible(ty), ToolRun::Failed(error)) == Err::<Json, Seq<char>>(
            error@,
        ),
        handler_result(ReturnForm::Value(ty), ToolRun::Failed(error)) == Err::<Json, Seq<char>>(
            error@,
        ),
        handler_result(ReturnForm::Fallible(ty), ToolRun::Serialized(Err(error))) == Err::<
            Json,
            Seq<char>,
        >("Failed to serialize success result type "@ + ty + ": "@ + error@),
        handler_result(ReturnForm::Value(ty), ToolRun::Serialized(Err(error))) == Err::<
            Json,
            Seq<char>,
        >("Failed to serialize function result type "@ + ty + ": "@ + error@),
        handler_result(ReturnForm::Fallible(ty), ToolRun::Finished) == Ok::<Json, Seq<char>>(
            Json::Null,
        ),
        handler_result(ReturnForm::Value(ty), ToolRun::Finished) == Ok::<Json, Seq<char>>(
            Json::Null,
        ),
{
}

/// Arguments, complaints and forms of result stand for what they hold.
pub proof fn law_views_of_tools(
    parameter: Parameter,
    list: Seq<Parameter>,
    i: int,
    error: ToolError,
    text: String,
    index: usize,
)
    ensures
        parameter@.name == parameter.name@ && parameter@.scalar == parameter.scalar
            && parameter@.optional == parameter.optional,
        params(list).len() == list.len(),
        0 <= i < list.len() ==> params(list)[i] == list[i]@,
        error@.place == error.place@ && error@.message == error.message@,
        FaultPlace::Name@ is Name,
        FaultPlace::FnKeyword@ is FnKeyword,
        FaultPlace::Input(index)@ == Place::Input(index as int),
        FaultPlace::Pattern(index)@ == Place::Pattern(index as int),
        (FaultPlace::ParameterType { input: index, at: text })@ == Place::ParameterType(
            index as int,
            text@,
        ),
        Returns::Nothing@ is Nothing,
        (Returns::Fallible { ok_type: text })@ == ReturnForm::Fallible(text@),
        (Returns::Value { value_type: text })@ == ReturnForm::Value(text@),
{
}

/// What came of looking at a type stands for the same, found or not.
pub proof fn law_view_of_type_info(word: String, optional: bool, error: TypeError)
    ensures
        info_outcome(Ok((word, optional))) == Ok::<(Seq<char>, bool), (Seq<char>, Seq<char>)>(
            (word@, optional),
        ),
        info_outcome(Err(error)) == Err::<(Seq<char>, bool), (Seq<char>, Seq<char>)>(
            (error.at@, error.message@),
        ),
{
}

} // verus!
