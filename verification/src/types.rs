//! The values that the services exchange, and the JSON that stands for them.
use crate::json::{
    integer_number, lemma_members_with, tree_option, well_formed_object, Json, JsonObject, JsonValue,
};
use vstd::prelude::*;

verus! {

/// The JSON array of texts.
pub open spec fn texts_json(texts: Seq<String>) -> Json {
    Json::Array(Seq::new(texts.len(), |i: int| Json::String(texts[i]@)))
}

/// The JSON array of texts.
pub fn texts_to_json(texts: &Vec<String>) -> (r: JsonValue)
    ensures
        r@ == texts_json(texts@),
{
    let mut items: Vec<JsonValue> = Vec::new();
    for i in 0..texts.len()
        invariant
            items.len() == i,
            forall|j: int| 0 <= j < i ==> (#[trigger] items@[j])@ == Json::String(texts@[j]@),
    {
        items.push(JsonValue::string(texts[i].as_str()));
    }
    let r = JsonValue::Array(items);
    assert(r@->Array_0 =~= texts_json(texts@)->Array_0);
    r
}

/// The view of a text that may be absent.
pub open spec fn text_option(s: Option<String>) -> Option<Seq<char>> {
    match s {
        Some(s) => Some(s@),
        None => None,
    }
}

/// The JSON string of a text that may be absent.
pub open spec fn text_json(s: Option<String>) -> Option<Json> {
    match s {
        Some(s) => Some(Json::String(s@)),
        None => None,
    }
}

/// The JSON string of a text that may be absent.
pub fn text_to_json(s: &Option<String>) -> (r: Option<JsonValue>)
    ensures
        tree_option(r) == text_json(*s),
{
    match s {
        Some(s) => Some(JsonValue::string(s.as_str())),
        None => None,
    }
}

/// The JSON number of an integer that may be absent.
pub open spec fn integer_json(n: Option<i32>) -> Option<Json> {
    match n {
        Some(n) => Some(Json::Number(integer_number(n as i128))),
        None => None,
    }
}

fn integer_to_json(n: Option<i32>) -> (r: Option<JsonValue>)
    ensures
        tree_option(r) == integer_json(n),
{
    match n {
        Some(n) => Some(JsonValue::integer(n as i64)),
        None => None,
    }
}

/// The JSON boolean of a flag that may be absent.
pub open spec fn flag_json(b: Option<bool>) -> Option<Json> {
    match b {
        Some(b) => Some(Json::Bool(b)),
        None => None,
    }
}

fn flag_to_json(b: Option<bool>) -> (r: Option<JsonValue>)
    ensures
        tree_option(r) == flag_json(b),
{
    match b {
        Some(b) => Some(JsonValue::Bool(b)),
        None => None,
    }
}

/// A language for synthesised speech, by the tag that the service knows it under.
#[derive(Debug, Clone, PartialEq, Eq, Hash)]
pub enum SpeechLanguageCode {
    Named(String),
}

/// What user activity does to the model's output, by the name that the service knows it under.
#[derive(Debug, Clone, PartialEq, Eq, Hash)]
pub enum ActivityHandling {
    Named(String),
}

impl ActivityHandling {
    /// The JSON that stands for it.
    pub open spec fn wire(self) -> Json {
        match self {
            ActivityHandling::Named(name) => Json::String(name@),
        }
    }

    /// The JSON that stands for it.
    pub fn to_json(&self) -> (r: JsonValue)
        ensures
            r@ == self.wire(),
    {
        match self {
            ActivityHandling::Named(name) => JsonValue::string(name.as_str()),
        }
    }
}

/// How readily speech is taken to have started, by the name that the service knows it under.
#[derive(Debug, Clone, PartialEq, Eq, Hash)]
pub enum StartSensitivity {
    Named(String),
}

impl StartSensitivity {
    /// The JSON that stands for it.
    pub open spec fn wire(self) -> Json {
        match self {
            StartSensitivity::Named(name) => Json::String(name@),
        }
    }

    /// The JSON that stands for it.
    pub fn to_json(&self) -> (r: JsonValue)
        ensures
            r@ == self.wire(),
    {
        match self {
            StartSensitivity::Named(name) => JsonValue::string(name.as_str()),
        }
    }
}

/// How readily speech is taken to have ended, by the name that the service knows it under.
#[derive(Debug, Clone, PartialEq, Eq, Hash)]
pub enum EndSensitivity {
    Named(String),
}

impl EndSensitivity {
    /// The JSON that stands for it.
    pub open spec fn wire(self) -> Json {
        match self {
            EndSensitivity::Named(name) => Json::String(name@),
        }
    }

    /// The JSON that stands for it.
    pub fn to_json(&self) -> (r: JsonValue)
        ensures
            r@ == self.wire(),
    {
        match self {
            EndSensitivity::Named(name) => JsonValue::string(name.as_str()),
        }
    }
}

/// Which input a user turn covers, by the name that the service knows it under.
#[derive(Debug, Clone, PartialEq, Eq, Hash)]
pub enum TurnCoverage {
    Named(String),
}

impl TurnCoverage {
    /// The JSON that stands for it.
    pub open spec fn wire(self) -> Json {
        match self {
            TurnCoverage::Named(name) => Json::String(name@),
        }
    }

    /// The JSON that stands for it.
    pub fn to_json(&self) -> (r: JsonValue)
        ensures
            r@ == self.wire(),
    {
        match self {
            TurnCoverage::Named(name) => JsonValue::string(name.as_str()),
        }
    }
}

/// How speech is synthesised.
#[derive(Debug, Clone, PartialEq, Default)]
pub struct SpeechConfig {}

impl SpeechConfig {
    /// The JSON that stands for it.
    pub open spec fn wire(self) -> Json {
        Json::object()
    }

    /// The JSON that stands for it.
    pub fn to_json(&self) -> (r: JsonValue)
        ensures
            r@ == self.wire(),
    {
        JsonValue::Object(JsonObject::new())
    }
}

/// Code that the model wants run.
#[derive(Debug, Clone, PartialEq, Default)]
pub struct ExecutableCode {}

/// Asks for a transcription of the audio.
#[derive(Debug, Clone, PartialEq, Default)]
pub struct AudioTranscriptionConfig {}

impl AudioTranscriptionConfig {
    /// The JSON that stands for it.
    pub open spec fn wire(self) -> Json {
        Json::object()
    }

    /// The JSON that stands for it.
    pub fn to_json(&self) -> (r: JsonValue)
        ensures
            r@ == self.wire(),
    {
        JsonValue::Object(JsonObject::new())
    }
}

/// Marks the start of user activity.
#[derive(Debug, Clone, PartialEq, Default)]
pub struct ActivityStart {}

/// Marks the end of user activity.
#[derive(Debug, Clone, PartialEq, Default)]
pub struct ActivityEnd {}

/// Asks for noise reduction on the input audio.
#[derive(Debug, Clone, PartialEq, Default)]
pub struct InputAudioNoiseReduction {}

/// A form that the model's response can take.
#[derive(Debug, Clone, Copy, PartialEq, Eq, Hash, Structural)]
pub enum ResponseModality {
    Text,
    Audio,
}

impl ResponseModality {
    /// The word that stands for it on the wire.
    pub open spec fn word(self) -> Seq<char> {
        match self {
            ResponseModality::Text => "TEXT"@,
            ResponseModality::Audio => "AUDIO"@,
        }
    }

    /// The JSON that stands for it.
    pub open spec fn wire(self) -> Json {
        Json::String(self.word())
    }

    /// The JSON that stands for it.
    pub fn to_json(&self) -> (r: JsonValue)
        ensures
            r@ == self.wire(),
    {
        match self {
            ResponseModality::Text => JsonValue::string("TEXT"),
            ResponseModality::Audio => JsonValue::string("AUDIO"),
        }
    }
}

/// Who a piece of content comes from.
#[derive(Debug, Clone, Copy, PartialEq, Eq, Hash, Structural)]
pub enum Role {
    User,
    Model,
    System,
}

impl Role {
    /// The word that stands for it on the wire.
    pub open spec fn word(self) -> Seq<char> {
        match self {
            Role::User => "user"@,
            Role::Model => "model"@,
            Role::System => "system"@,
        }
    }

    /// The JSON that stands for it.
    pub open spec fn wire(self) -> Json {
        Json::String(self.word())
    }

    /// The JSON that stands for it.
    pub fn to_json(&self) -> (r: JsonValue)
        ensures
            r@ == self.wire(),
    {
        match self {
            Role::User => JsonValue::string("user"),
            Role::Model => JsonValue::string("model"),
            Role::System => JsonValue::string("system"),
        }
    }
}

impl Default for Role {
    fn default() -> (r: Role)
        ensures
            r == Role::User,
    {
        Role::User
    }
}

/// Inline data.
#[derive(Debug, Clone, PartialEq, Default)]
pub struct Blob {
    /// What the data is.
    pub mime_type: String,
    /// The data, in base64.
    pub data: String,
}

impl Blob {
    /// The JSON that stands for it.
    pub open spec fn wire(self) -> Json {
        Json::object()
            .with("mimeType"@, Json::String(self.mime_type@))
            .with("data"@, Json::String(self.data@))
    }

    /// The JSON that stands for it.
    pub fn to_json(&self) -> (r: JsonValue)
        ensures
            r@ == self.wire(),
    {
        let object = JsonObject::new();
        let object = object.with_text("mimeType", self.mime_type.as_str());
        let object = object.with_text("data", self.data.as_str());
        JsonValue::Object(object)
    }
}

/// The JSON of a value that may be absent.
pub open spec fn optional_blob(v: Option<Blob>) -> Option<Json> {
    match v {
        Some(v) => Some(v.wire()),
        None => None,
    }
}

/// The JSON of a value that may be absent.
pub fn optional_blob_json(v: &Option<Blob>) -> (r: Option<JsonValue>)
    ensures
        tree_option(r) == optional_blob(*v),
{
    match v {
        Some(v) => Some(v.to_json()),
        None => None,
    }
}

/// A part of a piece of content.
#[derive(Debug, Clone, PartialEq, Default)]
pub struct Part {
    /// Text.
    pub text: Option<String>,
    /// Inline data, such as audio.
    pub inline_data: Option<Blob>,
}

impl Part {
    /// The JSON that stands for it.
    pub open spec fn wire(self) -> Json {
        Json::object()
            .with_optional("text"@, text_json(self.text))
            .with_optional("inlineData"@, optional_blob(self.inline_data))
    }

    /// The JSON that stands for it.
    pub fn to_json(&self) -> (r: JsonValue)
        ensures
            r@ == self.wire(),
    {
        let object = JsonObject::new();
        let object = object.with_optional("text", text_to_json(&self.text));
        let object = object.with_optional("inlineData", optional_blob_json(&self.inline_data));
        JsonValue::Object(object)
    }
}

/// The JSON array of the values.
pub open spec fn parts(values: Seq<Part>) -> Json {
    Json::Array(Seq::new(values.len(), |i: int| values[i].wire()))
}

/// The JSON array of the values.
pub fn parts_json(values: &Vec<Part>) -> (r: JsonValue)
    ensures
        r@ == parts(values@),
{
    let mut items: Vec<JsonValue> = Vec::new();
    for i in 0..values.len()
        invariant
            items.len() == i,
            forall|j: int| 0 <= j < i ==> (#[trigger] items@[j])@ == values@[j].wire(),
    {
        items.push(values[i].to_json());
    }
    let r = JsonValue::Array(items);
    assert(r@->Array_0 =~= parts(values@)->Array_0);
    r
}

/// The JSON of a value that may be absent.
pub open spec fn optional_role(v: Option<Role>) -> Option<Json> {
    match v {
        Some(v) => Some(v.wire()),
        None => None,
    }
}

/// The JSON of a value that may be absent.
pub fn optional_role_json(v: &Option<Role>) -> (r: Option<JsonValue>)
    ensures
        tree_option(r) == optional_role(*v),
{
    match v {
        Some(v) => Some(v.to_json()),
        None => None,
    }
}

/// A piece of content, such as a turn.
#[derive(Debug, Clone, PartialEq, Default)]
pub struct Content {
    /// The parts, in order.
    pub parts: Vec<Part>,
    /// Who it comes from.
    pub role: Option<Role>,
}

impl Content {
    /// The JSON that stands for it.
    pub open spec fn wire(self) -> Json {
        Json::object()
            .with("parts"@, parts(self.parts@))
            .with_optional("role"@, optional_role(self.role))
    }

    /// The JSON that stands for it.
    pub fn to_json(&self) -> (r: JsonValue)
        ensures
            r@ == self.wire(),
    {
        let object = JsonObject::new();
        let object = object.with_value("parts", parts_json(&self.parts));
        let object = object.with_optional("role", optional_role_json(&self.role));
        JsonValue::Object(object)
    }
}

/// The JSON of a value that may be absent.
pub open spec fn optional_content(v: Option<Content>) -> Option<Json> {
    match v {
        Some(v) => Some(v.wire()),
        None => None,
    }
}

/// The JSON of a value that may be absent.
pub fn optional_content_json(v: &Option<Content>) -> (r: Option<JsonValue>)
    ensures
        tree_option(r) == optional_content(*v),
{
    match v {
        Some(v) => Some(v.to_json()),
        None => None,
    }
}

/// The JSON array of the values.
pub open spec fn contents(values: Seq<Content>) -> Json {
    Json::Array(Seq::new(values.len(), |i: int| values[i].wire()))
}

/// The JSON array of the values.
pub fn contents_json(values: &Vec<Content>) -> (r: JsonValue)
    ensures
        r@ == contents(values@),
{
    let mut items: Vec<JsonValue> = Vec::new();
    for i in 0..values.len()
        invariant
            items.len() == i,
            forall|j: int| 0 <= j < i ==> (#[trigger] items@[j])@ == values@[j].wire(),
    {
        items.push(values[i].to_json());
    }
    let r = JsonValue::Array(items);
    assert(r@->Array_0 =~= contents(values@)->Array_0);
    r
}

/// A sampling temperature: a JSON number, or the mark of one that JSON has no
/// number for.
#[derive(Debug, Clone, PartialEq)]
pub enum Temperature {
    Number(serde_json::Number),
    NotFinite,
}

impl Temperature {
    /// The JSON that stands for it.
    pub open spec fn wire(self) -> Json {
        match self {
            Temperature::Number(n) => Json::Number(n),
            Temperature::NotFinite => Json::Null,
        }
    }

    /// The JSON that stands for it.
    pub fn to_json(&self) -> (r: JsonValue)
        ensures
            r@ == self.wire(),
    {
        match self {
            Temperature::Number(n) => JsonValue::Number(n.clone()),
            Temperature::NotFinite => JsonValue::Null,
        }
    }
}

/// The JSON of a value that may be absent.
pub open spec fn optional_temperature(v: Option<Temperature>) -> Option<Json> {
    match v {
        Some(v) => Some(v.wire()),
        None => None,
    }
}

/// The JSON of a value that may be absent.
pub fn optional_temperature_json(v: &Option<Temperature>) -> (r: Option<JsonValue>)
    ensures
        tree_option(r) == optional_temperature(*v),
{
    match v {
        Some(v) => Some(v.to_json()),
        None => None,
    }
}

/// The JSON array of the values.
pub open spec fn response_modalities(values: Seq<ResponseModality>) -> Json {
    Json::Array(Seq::new(values.len(), |i: int| values[i].wire()))
}

/// The JSON array of the values.
pub fn response_modalities_json(values: &Vec<ResponseModality>) -> (r: JsonValue)
    ensures
        r@ == response_modalities(values@),
{
    let mut items: Vec<JsonValue> = Vec::new();
    for i in 0..values.len()
        invariant
            items.len() == i,
            forall|j: int| 0 <= j < i ==> (#[trigger] items@[j])@ == values@[j].wire(),
    {
        items.push(values[i].to_json());
    }
    let r = JsonValue::Array(items);
    assert(r@->Array_0 =~= response_modalities(values@)->Array_0);
    r
}

/// The JSON array of a list that may be absent.
pub open spec fn optional_response_modalities(
    values: Option<Vec<ResponseModality>>,
) -> Option<Json> {
    match values {
        Some(values) => Some(response_modalities(values@)),
        None => None,
    }
}

/// The JSON array of a list that may be absent.
pub fn optional_response_modalities_json(values: &Option<Vec<ResponseModality>>) -> (
    r: Option<JsonValue>
)
    ensures
        tree_option(r) == optional_response_modalities(*values),
{
    match values {
        Some(values) => Some(response_modalities_json(values)),
        None => None,
    }
}

/// The JSON of a value that may be absent.
pub open spec fn optional_speech_config(v: Option<SpeechConfig>) -> Option<Json> {
    match v {
        Some(v) => Some(v.wire()),
        None => None,
    }
}

/// The JSON of a value that may be absent.
pub fn optional_speech_config_json(v: &Option<SpeechConfig>) -> (r: Option<JsonValue>)
    ensures
        tree_option(r) == optional_speech_config(*v),
{
    match v {
        Some(v) => Some(v.to_json()),
        None => None,
    }
}

/// How the model generates.
#[derive(Debug, Clone, PartialEq, Default)]
pub struct GenerationConfig {
    /// The forms that responses may take.
    pub response_modalities: Option<Vec<ResponseModality>>,
    /// The sampling temperature.
    pub temperature: Option<Temperature>,
    /// How speech is synthesised.
    pub speech_config: Option<SpeechConfig>,
}

impl GenerationConfig {
    /// The JSON that stands for it.
    pub open spec fn wire(self) -> Json {
        Json::object()
            .with_optional(
                "responseModalities"@,
                optional_response_modalities(self.response_modalities),
            )
            .with_optional("temperature"@, optional_temperature(self.temperature))
            .with_optional("speechConfig"@, optional_speech_config(self.speech_config))
    }

    /// The JSON that stands for it.
    pub fn to_json(&self) -> (r: JsonValue)
        ensures
            r@ == self.wire(),
    {
        let object = JsonObject::new();
        let object = object.with_optional(
            "responseModalities",
            optional_response_modalities_json(&self.response_modalities),
        );
        let object = object.with_optional(
            "temperature",
            optional_temperature_json(&self.temperature),
        );
        let object = object.with_optional(
            "speechConfig",
            optional_speech_config_json(&self.speech_config),
        );
        JsonValue::Object(object)
    }
}

/// The JSON of a value that may be absent.
pub open spec fn optional_generation_config(v: Option<GenerationConfig>) -> Option<Json> {
    match v {
        Some(v) => Some(v.wire()),
        None => None,
    }
}

/// The JSON of a value that may be absent.
pub fn optional_generation_config_json(v: &Option<GenerationConfig>) -> (r: Option<JsonValue>)
    ensures
        tree_option(r) == optional_generation_config(*v),
{
    match v {
        Some(v) => Some(v.to_json()),
        None => None,
    }
}

/// The JSON of a value that may be absent.
pub open spec fn optional_audio_transcription_config(
    v: Option<AudioTranscriptionConfig>,
) -> Option<Json> {
    match v {
        Some(v) => Some(v.wire()),
        None => None,
    }
}

/// The JSON of a value that may be absent.
pub fn optional_audio_transcription_config_json(v: &Option<AudioTranscriptionConfig>) -> (
    r: Option<JsonValue>
)
    ensures
        tree_option(r) == optional_audio_transcription_config(*v),
{
    match v {
        Some(v) => Some(v.to_json()),
        None => None,
    }
}

/// The JSON of a value that may be absent.
pub open spec fn optional_start_sensitivity(v: Option<StartSensitivity>) -> Option<Json> {
    match v {
        Some(v) => Some(v.wire()),
        None => None,
    }
}

/// The JSON of a value that may be absent.
pub fn optional_start_sensitivity_json(v: &Option<StartSensitivity>) -> (r: Option<JsonValue>)
    ensures
        tree_option(r) == optional_start_sensitivity(*v),
{
    match v {
        Some(v) => Some(v.to_json()),
        None => None,
    }
}

/// The JSON of a value that may be absent.
pub open spec fn optional_end_sensitivity(v: Option<EndSensitivity>) -> Option<Json> {
    match v {
        Some(v) => Some(v.wire()),
        None => None,
    }
}

/// The JSON of a value that may be absent.
pub fn optional_end_sensitivity_json(v: &Option<EndSensitivity>) -> (r: Option<JsonValue>)
    ensures
        tree_option(r) == optional_end_sensitivity(*v),
{
    match v {
        Some(v) => Some(v.to_json()),
        None => None,
    }
}

/// The JSON of a value that may be absent.
pub open spec fn optional_activity_handling(v: Option<ActivityHandling>) -> Option<Json> {
    match v {
        Some(v) => Some(v.wire()),
        None => None,
    }
}

/// The JSON of a value that may be absent.
pub fn optional_activity_handling_json(v: &Option<ActivityHandling>) -> (r: Option<JsonValue>)
    ensures
        tree_option(r) == optional_activity_handling(*v),
{
    match v {
        Some(v) => Some(v.to_json()),
        None => None,
    }
}

/// The JSON of a value that may be absent.
pub open spec fn optional_turn_coverage(v: Option<TurnCoverage>) -> Option<Json> {
    match v {
        Some(v) => Some(v.wire()),
        None => None,
    }
}

/// The JSON of a value that may be absent.
pub fn optional_turn_coverage_json(v: &Option<TurnCoverage>) -> (r: Option<JsonValue>)
    ensures
        tree_option(r) == optional_turn_coverage(*v),
{
    match v {
        Some(v) => Some(v.to_json()),
        None => None,
    }
}

/// How the service detects user activity.
#[derive(Debug, Clone, PartialEq, Default)]
pub struct AutomaticActivityDetection {
    /// Whether detection is off.
    pub disabled: Option<bool>,
    /// How readily speech is taken to have started.
    pub start_of_speech_sensitivity: Option<StartSensitivity>,
    /// How much speech, in milliseconds, is needed before a start counts.
    pub prefix_padding_ms: Option<i32>,
    /// How readily speech is taken to have ended.
    pub end_of_speech_sensitivity: Option<EndSensitivity>,
    /// How much silence, in milliseconds, ends speech.
    pub silence_duration_ms: Option<i32>,
}

impl AutomaticActivityDetection {
    /// The JSON that stands for it.
    pub open spec fn wire(self) -> Json {
        Json::object()
            .with_optional("disabled"@, flag_json(self.disabled))
            .with_optional(
                "startOfSpeechSensitivity"@,
                optional_start_sensitivity(self.start_of_speech_sensitivity),
            )
            .with_optional("prefixPaddingMs"@, integer_json(self.prefix_padding_ms))
            .with_optional(
                "endOfSpeechSensitivity"@,
                optional_end_sensitivity(self.end_of_speech_sensitivity),
            )
            .with_optional("silenceDurationMs"@, integer_json(self.silence_duration_ms))
    }

    /// The JSON that stands for it.
    pub fn to_json(&self) -> (r: JsonValue)
        ensures
            r@ == self.wire(),
    {
        let object = JsonObject::new();
        let object = object.with_optional("disabled", flag_to_json(self.disabled));
        let object = object.with_optional(
            "startOfSpeechSensitivity",
            optional_start_sensitivity_json(&self.start_of_speech_sensitivity),
        );
        let object = object.with_optional(
            "prefixPaddingMs",
            integer_to_json(self.prefix_padding_ms),
        );
        let object = object.with_optional(
            "endOfSpeechSensitivity",
            optional_end_sensitivity_json(&self.end_of_speech_sensitivity),
        );
        let object = object.with_optional(
            "silenceDurationMs",
            integer_to_json(self.silence_duration_ms),
        );
        JsonValue::Object(object)
    }
}

/// The JSON of a value that may be absent.
pub open spec fn optional_automatic_activity_detection(
    v: Option<AutomaticActivityDetection>,
) -> Option<Json> {
    match v {
        Some(v) => Some(v.wire()),
        None => None,
    }
}

/// The JSON of a value that may be absent.
pub fn optional_automatic_activity_detection_json(v: &Option<AutomaticActivityDetection>) -> (
    r: Option<JsonValue>
)
    ensures
        tree_option(r) == optional_automatic_activity_detection(*v),
{
    match v {
        Some(v) => Some(v.to_json()),
        None => None,
    }
}

/// How realtime input is treated.
#[derive(Debug, Clone, PartialEq, Default)]
pub struct RealtimeInputConfig {
    /// How activity is detected.
    pub automatic_activity_detection: Option<AutomaticActivityDetection>,
    /// What activity does to the model's output.
    pub activity_handling: Option<ActivityHandling>,
    /// Which input a turn covers.
    pub turn_coverage: Option<TurnCoverage>,
}

impl RealtimeInputConfig {
    /// The JSON that stands for it.
    pub open spec fn wire(self) -> Json {
        Json::object()
            .with_optional(
                "automaticActivityDetection"@,
                optional_automatic_activity_detection(self.automatic_activity_detection),
            )
            .with_optional("activityHandling"@, optional_activity_handling(self.activity_handling))
            .with_optional("turnCoverage"@, optional_turn_coverage(self.turn_coverage))
    }

    /// The JSON that stands for it.
    pub fn to_json(&self) -> (r: JsonValue)
        ensures
            r@ == self.wire(),
    {
        let object = JsonObject::new();
        let object = object.with_optional(
            "automaticActivityDetection",
            optional_automatic_activity_detection_json(&self.automatic_activity_detection),
        );
        let object = object.with_optional(
            "activityHandling",
            optional_activity_handling_json(&self.activity_handling),
        );
        let object = object.with_optional(
            "turnCoverage",
            optional_turn_coverage_json(&self.turn_coverage),
        );
        JsonValue::Object(object)
    }
}

/// The JSON of a value that may be absent.
pub open spec fn optional_realtime_input_config(v: Option<RealtimeInputConfig>) -> Option<Json> {
    match v {
        Some(v) => Some(v.wire()),
        None => None,
    }
}

/// The JSON of a value that may be absent.
pub fn optional_realtime_input_config_json(v: &Option<RealtimeInputConfig>) -> (
    r: Option<JsonValue>
)
    ensures
        tree_option(r) == optional_realtime_input_config(*v),
{
    match v {
        Some(v) => Some(v.to_json()),
        None => None,
    }
}

/// The schema of a value, as Gemini writes it.
#[derive(Debug, PartialEq, Default)]
pub struct Schema {
    /// The type's name, such as `OBJECT` or `STRING`.
    pub schema_type: String,
    /// The schemas of an object's properties, by name. Where a name occurs
    /// again, the later schema counts.
    pub properties: Option<Vec<(String, Schema)>>,
    /// The names of the properties that must be there.
    pub required: Option<Vec<String>>,
    /// What the value means.
    pub description: Option<String>,
}

impl Schema {
    /// How many properties are listed.
    pub open spec fn listed(self) -> nat {
        match self.properties {
            Some(properties) => properties@.len(),
            None => 0,
        }
    }

    /// The object of the first `n` properties.
    pub open spec fn members(self, n: nat) -> Json
        decreases self, n,
    {
        if n == 0 || self.properties is None || n > self.listed() {
            Json::object()
        } else {
            let entry = self.properties->0@[n - 1];
            self.members((n - 1) as nat).with(entry.0@, entry.1.wire())
        }
    }

    /// The JSON that stands for it.
    pub open spec fn wire(self) -> Json
        decreases self, self.listed() + 1,
    {
        let properties = match self.properties {
            Some(_) => Some(self.members(self.listed())),
            None => None,
        };
        let required = match self.required {
            Some(names) => Some(texts_json(names@)),
            None => None,
        };
        Json::object()
            .with("type"@, Json::String(self.schema_type@))
            .with_optional("properties"@, properties)
            .with_optional("required"@, required)
            .with_optional("description"@, text_json(self.description))
    }

    /// The JSON that stands for it.
    pub fn to_json(&self) -> (r: JsonValue)
        ensures
            r@ == self.wire(),
        decreases self,
    {
        let properties = match &self.properties {
            Some(properties) => {
                let mut object = JsonObject::new();
                for i in 0..properties.len()
                    invariant
                        self.properties == Some(*properties),
                        Json::Object(object@) == self.members(i as nat),
                {
                    assert(decreases_to!(self => self.properties->0@[i as int].1));
                    object = object.with_value(
                        properties[i].0.as_str(),
                        properties[i].1.to_json(),
                    );
                }
                Some(JsonValue::Object(object))
            },
            None => None,
        };
        let required = match &self.required {
            Some(names) => Some(texts_to_json(names)),
            None => None,
        };
        let object = JsonObject::new();
        let object = object.with_text("type", self.schema_type.as_str());
        let object = object.with_optional("properties", properties);
        let object = object.with_optional("required", required);
        let object = object.with_optional("description", text_to_json(&self.description));
        JsonValue::Object(object)
    }
}

/// Schemas that list the same properties have the same members.
proof fn lemma_same_members(a: Schema, b: Schema, n: nat)
    requires
        a.properties is Some,
        b.properties is Some,
        a.listed() == b.listed(),
        n <= a.listed(),
        forall|i: int|
            0 <= i < a.listed() ==> (#[trigger] a.properties->0@[i]).0@ == b.properties->0@[i].0@
                && a.properties->0@[i].1.wire() == b.properties->0@[i].1.wire(),
    ensures
        a.members(n) == b.members(n),
    decreases n,
{
    if n > 0 {
        lemma_same_members(a, b, (n - 1) as nat);
        assert(a.properties->0@[n - 1].0@ == b.properties->0@[n - 1].0@);
    }
}

impl Clone for Schema {
    fn clone(&self) -> (r: Schema)
        ensures
            r.wire() == self.wire(),
        decreases self,
    {
        let properties = match &self.properties {
            Some(properties) => {
                let mut copy: Vec<(String, Schema)> = Vec::new();
                for i in 0..properties.len()
                    invariant
                        self.properties == Some(*properties),
                        copy.len() == i,
                        forall|j: int|
                            0 <= j < i ==> (#[trigger] copy@[j]).0@ == properties@[j].0@
                                && copy@[j].1.wire() == properties@[j].1.wire(),
                {
                    assert(decreases_to!(self => self.properties->0@[i as int].1));
                    copy.push((properties[i].0.clone(), properties[i].1.clone()));
                }
                Some(copy)
            },
            None => None,
        };
        let required = match &self.required {
            Some(names) => {
                let mut copy: Vec<String> = Vec::new();
                for i in 0..names.len()
                    invariant
                        copy.len() == i,
                        forall|j: int| 0 <= j < i ==> (#[trigger] copy@[j])@ == names@[j]@,
                {
                    copy.push(names[i].clone());
                }
                assert(texts_json(copy@)->Array_0 =~= texts_json(names@)->Array_0);
                Some(copy)
            },
            None => None,
        };
        let description = match &self.description {
            Some(text) => Some(text.clone()),
            None => None,
        };
        let r = Schema {
            schema_type: self.schema_type.clone(),
            properties,
            required,
            description,
        };
        proof {
            if r.properties is Some {
                lemma_same_members(r, *self, self.listed());
            }
        }
        r
    }
}

/// The JSON of a value that may be absent.
pub open spec fn optional_schema(v: Option<Schema>) -> Option<Json> {
    match v {
        Some(v) => Some(v.wire()),
        None => None,
    }
}

/// The JSON of a value that may be absent.
pub fn optional_schema_json(v: &Option<Schema>) -> (r: Option<JsonValue>)
    ensures
        tree_option(r) == optional_schema(*v),
{
    match v {
        Some(v) => Some(v.to_json()),
        None => None,
    }
}

/// A function that the model may call, as Gemini declares it.
#[derive(Debug, Clone, PartialEq, Default)]
pub struct FunctionDeclaration {
    /// The function's name.
    pub name: String,
    /// What it does.
    pub description: String,
    /// The schema of its arguments.
    pub parameters: Option<Schema>,
}

impl FunctionDeclaration {
    /// The JSON that stands for it.
    pub open spec fn wire(self) -> Json {
        Json::object()
            .with("name"@, Json::String(self.name@))
            .with("description"@, Json::String(self.description@))
            .with_optional("parameters"@, optional_schema(self.parameters))
    }

    /// The JSON that stands for it.
    pub fn to_json(&self) -> (r: JsonValue)
        ensures
            r@ == self.wire(),
    {
        let object = JsonObject::new();
        let object = object.with_text("name", self.name.as_str());
        let object = object.with_text("description", self.description.as_str());
        let object = object.with_optional("parameters", optional_schema_json(&self.parameters));
        JsonValue::Object(object)
    }
}

/// The JSON array of the values.
pub open spec fn function_declarations(values: Seq<FunctionDeclaration>) -> Json {
    Json::Array(Seq::new(values.len(), |i: int| values[i].wire()))
}

/// The JSON array of the values.
pub fn function_declarations_json(values: &Vec<FunctionDeclaration>) -> (r: JsonValue)
    ensures
        r@ == function_declarations(values@),
{
    let mut items: Vec<JsonValue> = Vec::new();
    for i in 0..values.len()
        invariant
            items.len() == i,
            forall|j: int| 0 <= j < i ==> (#[trigger] items@[j])@ == values@[j].wire(),
    {
        items.push(values[i].to_json());
    }
    let r = JsonValue::Array(items);
    assert(r@->Array_0 =~= function_declarations(values@)->Array_0);
    r
}

/// A group of functions that the model may call.
#[derive(Debug, Clone, PartialEq, Default)]
pub struct Tool {
    /// The functions.
    pub function_declarations: Vec<FunctionDeclaration>,
}

impl Tool {
    /// The JSON that stands for it.
    pub open spec fn wire(self) -> Json {
        Json::object()
            .with("functionDeclarations"@, function_declarations(self.function_declarations@))
    }

    /// The JSON that stands for it.
    pub fn to_json(&self) -> (r: JsonValue)
        ensures
            r@ == self.wire(),
    {
        let object = JsonObject::new();
        let object = object.with_value(
            "functionDeclarations",
            function_declarations_json(&self.function_declarations),
        );
        JsonValue::Object(object)
    }
}

/// A call that the model wants made.
#[derive(Debug, Clone, PartialEq, Default)]
pub struct FunctionCall {
    /// The function's name.
    pub name: String,
    /// The arguments.
    pub args: Option<JsonValue>,
    /// What a response refers to the call by.
    pub id: Option<String>,
}

/// The result of a call.
#[derive(Debug, Clone, PartialEq, Default)]
pub struct FunctionResponse {
    /// The function's name.
    pub name: String,
    /// What it returned.
    pub response: JsonValue,
    /// The id of the call that it answers.
    pub id: Option<String>,
}

impl FunctionResponse {
    /// The JSON that stands for it.
    pub open spec fn wire(self) -> Json {
        Json::object()
            .with("name"@, Json::String(self.name@))
            .with("response"@, self.response@)
            .with_optional("id"@, text_json(self.id))
    }

    /// The JSON that stands for it.
    pub fn to_json(&self) -> (r: JsonValue)
        ensures
            r@ == self.wire(),
    {
        let object = JsonObject::new();
        let object = object.with_text("name", self.name.as_str());
        let object = object.with_value("response", self.response.clone());
        let object = object.with_optional("id", text_to_json(&self.id));
        JsonValue::Object(object)
    }
}

/// The JSON array of the values.
pub open spec fn function_responses(values: Seq<FunctionResponse>) -> Json {
    Json::Array(Seq::new(values.len(), |i: int| values[i].wire()))
}

/// The JSON array of the values.
pub fn function_responses_json(values: &Vec<FunctionResponse>) -> (r: JsonValue)
    ensures
        r@ == function_responses(values@),
{
    let mut items: Vec<JsonValue> = Vec::new();
    for i in 0..values.len()
        invariant
            items.len() == i,
            forall|j: int| 0 <= j < i ==> (#[trigger] items@[j])@ == values@[j].wire(),
    {
        items.push(values[i].to_json());
    }
    let r = JsonValue::Array(items);
    assert(r@->Array_0 =~= function_responses(values@)->Array_0);
    r
}

/// How many tokens an exchange took.
#[derive(Debug, Clone, PartialEq, Default)]
pub struct UsageMetadata {
    pub prompt_token_count: Option<i32>,
    pub cached_content_token_count: Option<i32>,
    pub response_token_count: Option<i32>,
    pub tool_use_prompt_token_count: Option<i32>,
    pub thoughts_token_count: Option<i32>,
    pub total_token_count: Option<i32>,
    pub input_token_details: Option<JsonValue>,
    pub output_token_details: Option<JsonValue>,
}

/// What Gemini says of the model's output.
#[derive(Debug, Clone, PartialEq, Default)]
pub struct BidiGenerateContentServerContent {
    pub generation_complete: bool,
    pub turn_complete: bool,
    pub interrupted: bool,
    pub grounding_metadata: Option<JsonValue>,
    pub output_transcription: Option<BidiGenerateContentTranscription>,
    pub model_turn: Option<Content>,
}

/// A transcription of audio.
#[derive(Debug, Clone, PartialEq, Default)]
pub struct BidiGenerateContentTranscription {
    pub text: String,
}

/// The calls that Gemini wants made.
#[derive(Debug, Clone, PartialEq, Default)]
pub struct BidiGenerateContentToolCall {
    pub function_calls: Vec<FunctionCall>,
}

/// A message from Gemini, with what the session acts on. That the setup is
/// complete and that the server is about to go away are marks without content.
#[derive(Debug, Clone, PartialEq, Default)]
pub struct ServerMessage {
    pub usage_metadata: Option<UsageMetadata>,
    pub setup_complete: bool,
    pub server_content: Option<BidiGenerateContentServerContent>,
    pub tool_call: Option<BidiGenerateContentToolCall>,
    pub go_away: bool,
}

/// A text, an integer or a flag that is there is written as itself; one that is not
/// there is not written.
pub proof fn law_optional_scalars(text: String, n: i32, flag: bool)
    ensures
        text_json(Some(text)) == Some(Json::String(text@)),
        text_json(None) is None,
        text_option(Some(text)) == Some(text@),
        text_option(None) is None,
        integer_json(Some(n)) == Some(Json::Number(integer_number(n as i128))),
        integer_json(None) is None,
        flag_json(Some(flag)) == Some(Json::Bool(flag)),
        flag_json(None) is None,
{
}

/// The words for roles and for the forms of a response.
pub proof fn law_words()
    ensures
        Role::User.wire() == Json::String("user"@),
        Role::Model.wire() == Json::String("model"@),
        Role::System.wire() == Json::String("system"@),
        ResponseModality::Text.wire() == Json::String("TEXT"@),
        ResponseModality::Audio.wire() == Json::String("AUDIO"@),
{
}

/// A setting that is named is written as its name.
pub proof fn law_named_settings(name: String)
    ensures
        ActivityHandling::Named(name).wire() == Json::String(name@),
        StartSensitivity::Named(name).wire() == Json::String(name@),
        EndSensitivity::Named(name).wire() == Json::String(name@),
        TurnCoverage::Named(name).wire() == Json::String(name@),
{
}

/// A temperature is written as its number, or as null where it is none.
pub proof fn law_temperature_wire(n: serde_json::Number)
    ensures
        Temperature::Number(n).wire() == Json::Number(n),
        Temperature::NotFinite.wire() == Json::Null,
{
}

/// Lists are written as arrays of as many elements, each in its own place.
pub proof fn law_lists_in_order(
    texts: Seq<String>,
    turns: Seq<Content>,
    responses: Seq<FunctionResponse>,
)
    ensures
        texts_json(texts) matches Json::Array(items) && items.len() == texts.len() && forall|i: int|
            0 <= i < items.len() ==> (#[trigger] items[i]) == Json::String(texts[i]@),
        contents(turns) matches Json::Array(items) && items.len() == turns.len() && forall|i: int|
            0 <= i < items.len() ==> (#[trigger] items[i]) == turns[i].wire(),
        function_responses(responses) matches Json::Array(items) && items.len() == responses.len()
            && forall|i: int|
            0 <= i < items.len() ==> (#[trigger] items[i]) == responses[i].wire(),
{
}

/// Inline data is written with its kind and its base64 text.
pub proof fn law_blob_wire(blob: Blob)
    ensures
        ({
            let w = blob.wire();
            &&& w.member("mimeType"@) == Some(Json::String(blob.mime_type@))
            &&& w.member("data"@) == Some(Json::String(blob.data@))
            &&& forall|other: Seq<char>| other != "mimeType"@
                && other != "data"@ ==> (#[trigger] w.member(other)) is None
        }),
{
    reveal_strlit("mimeType");
    reveal_strlit("data");
    assert("mimeType"@.len() == 8);
    assert("data"@.len() == 4);
    let w0 = Json::object();
    assert forall|key: Seq<char>| #[trigger] w0.member(key) is None by {}
    let w1 = w0.with_optional("mimeType"@, Some(Json::String(blob.mime_type@)));
    lemma_members_with(w0, "mimeType"@, Some(Json::String(blob.mime_type@)));
    let w2 = w1.with_optional("data"@, Some(Json::String(blob.data@)));
    lemma_members_with(w1, "data"@, Some(Json::String(blob.data@)));
    assert(blob.wire() == w2);
}

/// A part is written with the text and the inline data that it has.
pub proof fn law_part_wire(part: Part)
    ensures
        ({
            let w = part.wire();
            &&& part.text matches Some(text) ==> w.member("text"@) == Some(Json::String(text@))
            &&& part.text is None ==> w.member("text"@) is None
            &&& part.inline_data matches Some(blob) ==> w.member("inlineData"@) == Some(blob.wire())
            &&& part.inline_data is None ==> w.member("inlineData"@) is None
            &&& forall|other: Seq<char>| other != "text"@
                && other != "inlineData"@ ==> (#[trigger] w.member(other)) is None
        }),
{
    reveal_strlit("text");
    reveal_strlit("inlineData");
    assert("text"@.len() == 4);
    assert("inlineData"@.len() == 10);
    let w0 = Json::object();
    assert forall|key: Seq<char>| #[trigger] w0.member(key) is None by {}
    let w1 = w0.with_optional("text"@, text_json(part.text));
    lemma_members_with(w0, "text"@, text_json(part.text));
    let w2 = w1.with_optional("inlineData"@, optional_blob(part.inline_data));
    lemma_members_with(w1, "inlineData"@, optional_blob(part.inline_data));
    assert(part.wire() == w2);
}

/// A piece of content is written with all of its parts, in order, and with the word
/// for whom it comes from.
pub proof fn law_content_wire(content: Content)
    ensures
        ({
            let w = content.wire();
            &&& w.member("parts"@) matches Some(Json::Array(items))
                && items.len() == content.parts@.len()
                && forall|i: int| 0 <= i < items.len() ==> (#[trigger] items[i]) == content.parts@[i].wire()
            &&& content.role == Some(Role::User) ==> w.member("role"@) == Some(Json::String("user"@))
            &&& content.role == Some(Role::Model) ==> w.member("role"@) == Some(Json::String("model"@))
            &&& content.role == Some(Role::System) ==> w.member("role"@) == Some(Json::String("system"@))
            &&& content.role is None ==> w.member("role"@) is None
            &&& forall|other: Seq<char>| other != "parts"@
                && other != "role"@ ==> (#[trigger] w.member(other)) is None
        }),
{
    reveal_strlit("parts");
    reveal_strlit("role");
    assert("parts"@.len() == 5);
    assert("role"@.len() == 4);
    let w0 = Json::object();
    assert forall|key: Seq<char>| #[trigger] w0.member(key) is None by {}
    let w1 = w0.with_optional("parts"@, Some(parts(content.parts@)));
    lemma_members_with(w0, "parts"@, Some(parts(content.parts@)));
    let w2 = w1.with_optional("role"@, optional_role(content.role));
    lemma_members_with(w1, "role"@, optional_role(content.role));
    assert(content.wire() == w2);
}

/// How the model generates is written with what is set of it.
pub proof fn law_generation_wire(generation: GenerationConfig)
    ensures
        ({
            let w = generation.wire();
            &&& generation.response_modalities matches Some(forms) ==> (w.member("responseModalities"@) matches Some(
                Json::Array(items),
            ) && items.len() == forms@.len() && forall|i: int|
                0 <= i < items.len() ==> (#[trigger] items[i]) == forms@[i].wire())
            &&& generation.response_modalities is None ==> w.member("responseModalities"@) is None
            &&& generation.temperature matches Some(t) ==> w.member("temperature"@) == Some(t.wire())
            &&& generation.temperature is None ==> w.member("temperature"@) is None
            &&& generation.speech_config matches Some(c) ==> w.member("speechConfig"@) == Some(Json::object())
            &&& generation.speech_config is None ==> w.member("speechConfig"@) is None
            &&& forall|other: Seq<char>| other != "responseModalities"@ && other != "temperature"@
                && other != "speechConfig"@ ==> (#[trigger] w.member(other)) is None
        }),
{
    reveal_strlit("responseModalities");
    reveal_strlit("temperature");
    reveal_strlit("speechConfig");
    assert("responseModalities"@.len() == 18);
    assert("temperature"@.len() == 11);
    assert("speechConfig"@.len() == 12);
    let w0 = Json::object();
    assert forall|key: Seq<char>| #[trigger] w0.member(key) is None by {}
    let w1 = w0.with_optional("responseModalities"@, optional_response_modalities(generation.response_modalities));
    lemma_members_with(w0, "responseModalities"@, optional_response_modalities(generation.response_modalities));
    let w2 = w1.with_optional("temperature"@, optional_temperature(generation.temperature));
    lemma_members_with(w1, "temperature"@, optional_temperature(generation.temperature));
    let w3 = w2.with_optional("speechConfig"@, optional_speech_config(generation.speech_config));
    lemma_members_with(w2, "speechConfig"@, optional_speech_config(generation.speech_config));
    assert(generation.wire() == w3);
}

/// How activity is detected is written with what is set of it, each setting under its
/// own name.
pub proof fn law_detection_wire(d: AutomaticActivityDetection)
    ensures
        ({
            let w = d.wire();
            &&& d.disabled matches Some(flag) ==> w.member("disabled"@) == Some(Json::Bool(flag))
            &&& d.disabled is None ==> w.member("disabled"@) is None
            &&& d.start_of_speech_sensitivity matches Some(s) ==> w.member("startOfSpeechSensitivity"@) == Some(s.wire())
            &&& d.start_of_speech_sensitivity is None ==> w.member("startOfSpeechSensitivity"@) is None
            &&& d.prefix_padding_ms matches Some(n) ==> w.member("prefixPaddingMs"@) == Some(Json::Number(integer_number(n as i128)))
            &&& d.prefix_padding_ms is None ==> w.member("prefixPaddingMs"@) is None
            &&& d.end_of_speech_sensitivity matches Some(s) ==> w.member("endOfSpeechSensitivity"@) == Some(s.wire())
            &&& d.end_of_speech_sensitivity is None ==> w.member("endOfSpeechSensitivity"@) is None
            &&& d.silence_duration_ms matches Some(n) ==> w.member("silenceDurationMs"@) == Some(Json::Number(integer_number(n as i128)))
            &&& d.silence_duration_ms is None ==> w.member("silenceDurationMs"@) is None
            &&& forall|other: Seq<char>| other != "disabled"@
                && other != "startOfSpeechSensitivity"@ && other != "prefixPaddingMs"@
                && other != "endOfSpeechSensitivity"@
                && other != "silenceDurationMs"@ ==> (#[trigger] w.member(other)) is None
        }),
{
    reveal_strlit("disabled");
    reveal_strlit("startOfSpeechSensitivity");
    reveal_strlit("prefixPaddingMs");
    reveal_strlit("endOfSpeechSensitivity");
    reveal_strlit("silenceDurationMs");
    assert("disabled"@.len() == 8);
    assert("startOfSpeechSensitivity"@.len() == 24);
    assert("prefixPaddingMs"@.len() == 15);
    assert("endOfSpeechSensitivity"@.len() == 22);
    assert("silenceDurationMs"@.len() == 17);
    let w0 = Json::object();
    assert forall|key: Seq<char>| #[trigger] w0.member(key) is None by {}
    let w1 = w0.with_optional("disabled"@, flag_json(d.disabled));
    lemma_members_with(w0, "disabled"@, flag_json(d.disabled));
    let w2 = w1.with_optional("startOfSpeechSensitivity"@, optional_start_sensitivity(d.start_of_speech_sensitivity));
    lemma_members_with(w1, "startOfSpeechSensitivity"@, optional_start_sensitivity(d.start_of_speech_sensitivity));
    let w3 = w2.with_optional("prefixPaddingMs"@, integer_json(d.prefix_padding_ms));
    lemma_members_with(w2, "prefixPaddingMs"@, integer_json(d.prefix_padding_ms));
    let w4 = w3.with_optional("endOfSpeechSensitivity"@, optional_end_sensitivity(d.end_of_speech_sensitivity));
    lemma_members_with(w3, "endOfSpeechSensitivity"@, optional_end_sensitivity(d.end_of_speech_sensitivity));
    let w5 = w4.with_optional("silenceDurationMs"@, integer_json(d.silence_duration_ms));
    lemma_members_with(w4, "silenceDurationMs"@, integer_json(d.silence_duration_ms));
    assert(d.wire() == w5);
}

/// How realtime input is treated is written with what is set of it.
pub proof fn law_realtime_input_wire(input: RealtimeInputConfig)
    ensures
        ({
            let w = input.wire();
            &&& input.automatic_activity_detection matches Some(v) ==> w.member("automaticActivityDetection"@) == Some(v.wire())
            &&& input.automatic_activity_detection is None ==> w.member("automaticActivityDetection"@) is None
            &&& input.activity_handling matches Some(v) ==> w.member("activityHandling"@) == Some(v.wire())
            &&& input.activity_handling is None ==> w.member("activityHandling"@) is None
            &&& input.turn_coverage matches Some(v) ==> w.member("turnCoverage"@) == Some(v.wire())
            &&& input.turn_coverage is None ==> w.member("turnCoverage"@) is None
            &&& forall|other: Seq<char>| other != "automaticActivityDetection"@
                && other != "activityHandling"@
                && other != "turnCoverage"@ ==> (#[trigger] w.member(other)) is None
        }),
{
    reveal_strlit("automaticActivityDetection");
    reveal_strlit("activityHandling");
    reveal_strlit("turnCoverage");
    assert("automaticActivityDetection"@.len() == 26);
    assert("activityHandling"@.len() == 16);
    assert("turnCoverage"@.len() == 12);
    let w0 = Json::object();
    assert forall|key: Seq<char>| #[trigger] w0.member(key) is None by {}
    let w1 = w0.with_optional("automaticActivityDetection"@, optional_automatic_activity_detection(input.automatic_activity_detection));
    lemma_members_with(w0, "automaticActivityDetection"@, optional_automatic_activity_detection(input.automatic_activity_detection));
    let w2 = w1.with_optional("activityHandling"@, optional_activity_handling(input.activity_handling));
    lemma_members_with(w1, "activityHandling"@, optional_activity_handling(input.activity_handling));
    let w3 = w2.with_optional("turnCoverage"@, optional_turn_coverage(input.turn_coverage));
    lemma_members_with(w2, "turnCoverage"@, optional_turn_coverage(input.turn_coverage));
    assert(input.wire() == w3);
}

/// A declaration is written with the name, the description and the schema of its
/// arguments.
pub proof fn law_declaration_wire(declaration: FunctionDeclaration)
    ensures
        ({
            let w = declaration.wire();
            &&& w.member("name"@) == Some(Json::String(declaration.name@))
            &&& w.member("description"@) == Some(Json::String(declaration.description@))
            &&& declaration.parameters matches Some(schema) ==> w.member("parameters"@) == Some(schema.wire())
            &&& declaration.parameters is None ==> w.member("parameters"@) is None
            &&& forall|other: Seq<char>| other != "name"@ && other != "description"@
                && other != "parameters"@ ==> (#[trigger] w.member(other)) is None
        }),
{
    reveal_strlit("name");
    reveal_strlit("description");
    reveal_strlit("parameters");
    assert("name"@.len() == 4);
    assert("description"@.len() == 11);
    assert("parameters"@.len() == 10);
    let w0 = Json::object();
    assert forall|key: Seq<char>| #[trigger] w0.member(key) is None by {}
    let w1 = w0.with_optional("name"@, Some(Json::String(declaration.name@)));
    lemma_members_with(w0, "name"@, Some(Json::String(declaration.name@)));
    let w2 = w1.with_optional("description"@, Some(Json::String(declaration.description@)));
    lemma_members_with(w1, "description"@, Some(Json::String(declaration.description@)));
    let w3 = w2.with_optional("parameters"@, optional_schema(declaration.parameters));
    lemma_members_with(w2, "parameters"@, optional_schema(declaration.parameters));
    assert(declaration.wire() == w3);
}

/// A group of functions is written with the declaration of each, in order.
pub proof fn law_tool_wire(tool: Tool)
    ensures
        ({
            let w = tool.wire();
            &&& w.member("functionDeclarations"@) matches Some(Json::Array(items))
                && items.len() == tool.function_declarations@.len()
                && forall|i: int| 0 <= i < items.len() ==> (#[trigger] items[i]) == tool.function_declarations@[i].wire()
            &&& forall|other: Seq<char>| other != "functionDeclarations"@ ==> (#[trigger] w.member(other)) is None
        }),
{
    reveal_strlit("functionDeclarations");
    assert("functionDeclarations"@.len() == 20);
    let w0 = Json::object();
    assert forall|key: Seq<char>| #[trigger] w0.member(key) is None by {}
    let w1 = w0.with_optional("functionDeclarations"@, Some(function_declarations(tool.function_declarations@)));
    lemma_members_with(w0, "functionDeclarations"@, Some(function_declarations(tool.function_declarations@)));
    assert(tool.wire() == w1);
}

/// The result of a call is written with the name of the function, what it returned,
/// and the id of the call where it has one.
pub proof fn law_response_wire(response: FunctionResponse)
    ensures
        ({
            let w = response.wire();
            &&& w.member("name"@) == Some(Json::String(response.name@))
            &&& w.member("response"@) == Some(response.response@)
            &&& response.id matches Some(id) ==> w.member("id"@) == Some(Json::String(id@))
            &&& response.id is None ==> w.member("id"@) is None
            &&& forall|other: Seq<char>| other != "name"@ && other != "response"@
                && other != "id"@ ==> (#[trigger] w.member(other)) is None
        }),
{
    reveal_strlit("name");
    reveal_strlit("response");
    reveal_strlit("id");
    assert("name"@.len() == 4);
    assert("response"@.len() == 8);
    assert("id"@.len() == 2);
    let w0 = Json::object();
    assert forall|key: Seq<char>| #[trigger] w0.member(key) is None by {}
    let w1 = w0.with_optional("name"@, Some(Json::String(response.name@)));
    lemma_members_with(w0, "name"@, Some(Json::String(response.name@)));
    let w2 = w1.with_optional("response"@, Some(response.response@));
    lemma_members_with(w1, "response"@, Some(response.response@));
    let w3 = w2.with_optional("id"@, text_json(response.id));
    lemma_members_with(w2, "id"@, text_json(response.id));
    assert(response.wire() == w3);
}

/// A schema is written with its type, and with what it says of properties, of what
/// is required, and of the meaning.
pub proof fn law_schema_wire(schema: Schema)
    ensures
        ({
            let w = schema.wire();
            &&& w.member("type"@) == Some(Json::String(schema.schema_type@))
            &&& w.member("properties"@) is Some <==> schema.properties is Some
            &&& schema.required matches Some(names) ==> (w.member("required"@) matches Some(Json::Array(items))
                && items.len()
                == names@.len() && forall|i: int|
                0 <= i < items.len() ==> (#[trigger] items[i]) == Json::String(names@[i]@))
            &&& schema.required is None ==> w.member("required"@) is None
            &&& schema.description matches Some(text) ==> w.member("description"@) == Some(Json::String(text@))
            &&& schema.description is None ==> w.member("description"@) is None
            &&& forall|other: Seq<char>| other != "type"@ && other != "properties"@
                && other != "required"@
                && other != "description"@ ==> (#[trigger] w.member(other)) is None
        }),
{
    reveal_strlit("type");
    reveal_strlit("properties");
    reveal_strlit("required");
    reveal_strlit("description");
    assert("type"@.len() == 4);
    assert("properties"@.len() == 10);
    assert("required"@.len() == 8);
    assert("description"@.len() == 11);
    let properties = match schema.properties {
        Some(_) => Some(schema.members(schema.listed())),
        None => None,
    };
    let required = match schema.required {
        Some(names) => Some(texts_json(names@)),
        None => None,
    };
    let w0 = Json::object();
    assert forall|key: Seq<char>| #[trigger] w0.member(key) is None by {}
    let w1 = w0.with_optional("type"@, Some(Json::String(schema.schema_type@)));
    lemma_members_with(w0, "type"@, Some(Json::String(schema.schema_type@)));
    let w2 = w1.with_optional("properties"@, properties);
    lemma_members_with(w1, "properties"@, properties);
    let w3 = w2.with_optional("required"@, required);
    lemma_members_with(w2, "required"@, required);
    let w4 = w3.with_optional("description"@, text_json(schema.description));
    lemma_members_with(w3, "description"@, text_json(schema.description));
    assert(schema.wire() == w4);
}

/// The members of a schema's first properties are an object without a key twice.
proof fn lemma_members_distinct(schema: Schema, n: nat)
    ensures
        well_formed_object(schema.members(n)),
    decreases n,
{
    if !(n == 0 || schema.properties is None || n > schema.listed()) {
        lemma_members_distinct(schema, (n - 1) as nat);
        let entry = schema.properties->0@[n - 1];
        lemma_members_with(schema.members((n - 1) as nat), entry.0@, Some(entry.1.wire()));
    }
}

/// Of the first properties that a schema lists, the last under a name is the one
/// that is written under it, and no other name is.
proof fn lemma_member_of_schema(schema: Schema, n: nat, i: int)
    requires
        schema.properties is Some,
        n <= schema.listed(),
        0 <= i < n,
        forall|j: int|
            i < j < n ==> (#[trigger] schema.properties->0@[j]).0@ != schema.properties->0@[i].0@,
    ensures
        schema.members(n).member(schema.properties->0@[i].0@) == Some(
            schema.properties->0@[i].1.wire(),
        ),
    decreases n,
{
    lemma_members_distinct(schema, (n - 1) as nat);
    let entry = schema.properties->0@[n - 1];
    lemma_members_with(schema.members((n - 1) as nat), entry.0@, Some(entry.1.wire()));
    if i < n - 1 {
        lemma_member_of_schema(schema, (n - 1) as nat, i);
        assert(entry.0@ != schema.properties->0@[i].0@);
    }
}

/// A name that none of the first properties has is not written.
proof fn lemma_no_member_of_schema(schema: Schema, n: nat, other: Seq<char>)
    requires
        schema.properties is Some,
        n <= schema.listed(),
        forall|j: int| 0 <= j < n ==> (#[trigger] schema.properties->0@[j]).0@ != other,
    ensures
        schema.members(n).member(other) is None,
    decreases n,
{
    if n > 0 {
        lemma_members_distinct(schema, (n - 1) as nat);
        let entry = schema.properties->0@[n - 1];
        lemma_members_with(schema.members((n - 1) as nat), entry.0@, Some(entry.1.wire()));
        lemma_no_member_of_schema(schema, (n - 1) as nat, other);
        assert(entry.0@ != other);
    }
}

/// Each property of a schema is written under its name with its own schema; where a
/// name occurs again, the last one counts. Nothing else is written.
pub proof fn law_schema_properties(schema: Schema, i: int, other: Seq<char>)
    requires
        schema.properties is Some,
        0 <= i < schema.properties->0@.len(),
        forall|j: int|
            i < j < schema.properties->0@.len() ==> (#[trigger] schema.properties->0@[j]).0@
                != schema.properties->0@[i].0@,
    ensures
        schema.wire().member("properties"@) matches Some(properties) && {
            &&& properties.member(schema.properties->0@[i].0@) == Some(
                schema.properties->0@[i].1.wire(),
            )
            &&& (forall|j: int|
                0 <= j < schema.properties->0@.len() ==> (#[trigger] schema.properties->0@[j]).0@
                    != other) ==> properties.member(other) is None
        },
{
    let n = schema.listed();
    lemma_member_of_schema(schema, n, i);
    if forall|j: int| 0 <= j < n ==> (#[trigger] schema.properties->0@[j]).0@ != other {
        lemma_no_member_of_schema(schema, n, other);
    }
    let properties = Some(schema.members(n));
    let required = match schema.required {
        Some(names) => Some(texts_json(names@)),
        None => None,
    };
    reveal_strlit("type");
    reveal_strlit("properties");
    reveal_strlit("required");
    reveal_strlit("description");
    assert("type"@.len() == 4);
    assert("properties"@.len() == 10);
    assert("required"@.len() == 8);
    assert("description"@.len() == 11);
    let w0 = Json::object();
    assert forall|key: Seq<char>| #[trigger] w0.member(key) is None by {}
    let w1 = w0.with_optional("type"@, Some(Json::String(schema.schema_type@)));
    lemma_members_with(w0, "type"@, Some(Json::String(schema.schema_type@)));
    let w2 = w1.with_optional("properties"@, properties);
    lemma_members_with(w1, "properties"@, properties);
    let w3 = w2.with_optional("required"@, required);
    lemma_members_with(w2, "required"@, required);
    let w4 = w3.with_optional("description"@, text_json(schema.description));
    lemma_members_with(w3, "description"@, text_json(schema.description));
    assert(schema.wire() == w4);
}

} // verus!
