//! The builder of a session.
use crate::client::backend::{BackendConfig, ToolDefinition};
use crate::client::gemini_backend::GeminiBackend;
use crate::client::handle::{share, AiLiveClient, Link};
use crate::client::handlers::Handlers;
use crate::client::openai_backend::OpenAiBackend;
use crate::json::JsonValue;
use crate::types::{
    AudioTranscriptionConfig, Content, FunctionDeclaration, GenerationConfig,
    InputAudioNoiseReduction, RealtimeInputConfig,
};
use std::sync::Arc;
use vstd::prelude::*;

verus! {

/// How many messages wait to be sent at most.
pub const OUTGOING_CAPACITY: usize = 100;

/// How long, in milliseconds, a new connection is given before the session is
/// handed out.
pub const CONNECT_DELAY_MS: u64 = 200;

/// Collects what a session is set up with.
pub struct AiClientBuilder<S, C, U, T> {
    api_key: String,
    backend_config: BackendConfig,
    handlers: Handlers<C, U, T>,
    state: S,
    tool_declarations: Vec<ToolDefinition>,
}

/// A builder as mathematics: what an [`AiClientBuilder`] stands for.
#[verifier::reject_recursive_types(S)]
#[verifier::reject_recursive_types(C)]
#[verifier::reject_recursive_types(U)]
#[verifier::reject_recursive_types(T)]
pub struct Build<S, C, U, T> {
    pub api_key: String,
    pub config: BackendConfig,
    pub on_server_content: Option<C>,
    pub on_usage_metadata: Option<U>,
    pub tool_handlers: Map<Seq<char>, T>,
    pub state: S,
    pub tools: Seq<ToolDefinition>,
}

/// What the connection works with.
pub struct TaskSetup<S, B, C, U, T> {
    pub api_key: String,
    pub backend: Arc<B>,
    pub backend_config: Arc<BackendConfig>,
    pub handlers: Handlers<C, U, T>,
    pub state: Arc<S>,
}

/// The names with a handler are those of the tools.
pub open spec fn names_match<T>(tools: Seq<ToolDefinition>, handlers: Map<Seq<char>, T>) -> bool {
    forall|name: Seq<char>| #[trigger]
        handlers.dom().contains(name) <==> exists|i: int|
            0 <= i < tools.len() && (#[trigger] tools[i]).name@ == name
}

/// A tool and a handler under its name, added together, leave the names matched.
proof fn lemma_names_match_with<T>(
    tools: Seq<ToolDefinition>,
    handlers: Map<Seq<char>, T>,
    handler: T,
)
    requires
        tools.len() > 0,
        names_match(tools.drop_last(), handlers),
    ensures
        names_match(tools, handlers.insert(tools.last().name@, handler)),
{
    let before = tools.drop_last();
    let after = handlers.insert(tools.last().name@, handler);
    assert forall|name: Seq<char>| #[trigger] after.dom().contains(name) <==> exists|i: int|
        0 <= i < tools.len() && (#[trigger] tools[i]).name@ == name by {
        if after.dom().contains(name) {
            if name == tools.last().name@ {
                assert(tools[tools.len() - 1].name@ == name);
            } else {
                assert(handlers.dom().contains(name));
                let i = choose|i: int| 0 <= i < before.len()
                    && (#[trigger] before[i]).name@ == name;
                assert(tools[i].name@ == name);
            }
        }
        if exists|i: int| 0 <= i < tools.len() && (#[trigger] tools[i]).name@ == name {
            let i = choose|i: int| 0 <= i < tools.len() && (#[trigger] tools[i]).name@ == name;
            if i < tools.len() - 1 {
                assert(before[i].name@ == name);
                assert(handlers.dom().contains(name));
            }
        }
    }
}

impl<S, C, U, T> AiClientBuilder<S, C, U, T> {
    #[verifier::type_invariant]
    spec fn every_tool_has_its_handler(self) -> bool {
        names_match(self.tool_declarations@, self.handlers.tool_handlers@)
    }
}

impl<S, C, U, T> View for AiClientBuilder<S, C, U, T> {
    type V = Build<S, C, U, T>;

    closed spec fn view(&self) -> Build<S, C, U, T> {
        Build {
            api_key: self.api_key,
            config: self.backend_config,
            on_server_content: self.handlers.on_server_content,
            on_usage_metadata: self.handlers.on_usage_metadata,
            tool_handlers: self.handlers.tool_handlers@,
            state: self.state,
            tools: self.tool_declarations@,
        }
    }
}

/// The configuration with this under `input_audio_noise_reduction`.
pub open spec fn set_input_audio_noise_reduction(config: BackendConfig, value: InputAudioNoiseReduction) -> BackendConfig {
    BackendConfig { input_audio_noise_reduction: Some(value), ..config }
}

/// The configuration with this under `generation_config`.
pub open spec fn set_generation_config(config: BackendConfig, value: GenerationConfig) -> BackendConfig {
    BackendConfig { generation_config: Some(value), ..config }
}

/// The configuration with this under `system_instruction`.
pub open spec fn set_system_instruction(config: BackendConfig, value: Content) -> BackendConfig {
    BackendConfig { system_instruction: Some(value), ..config }
}

/// The configuration with this under `realtime_input_config`.
pub open spec fn set_realtime_input_config(config: BackendConfig, value: RealtimeInputConfig) -> BackendConfig {
    BackendConfig { realtime_input_config: Some(value), ..config }
}

/// The configuration with this under `output_audio_transcription`.
pub open spec fn set_output_audio_transcription(config: BackendConfig, value: AudioTranscriptionConfig) -> BackendConfig {
    BackendConfig { output_audio_transcription: Some(value), ..config }
}

/// The configuration with this under `voice`.
pub open spec fn set_voice(config: BackendConfig, value: String) -> BackendConfig {
    BackendConfig { voice: Some(value), ..config }
}

/// The configuration with this under `input_audio_format`.
pub open spec fn set_input_audio_format(config: BackendConfig, value: String) -> BackendConfig {
    BackendConfig { input_audio_format: Some(value), ..config }
}

/// The configuration with this under `output_audio_format`.
pub open spec fn set_output_audio_format(config: BackendConfig, value: String) -> BackendConfig {
    BackendConfig { output_audio_format: Some(value), ..config }
}

/// The configuration with this under `transcription_model`.
pub open spec fn set_transcription_model(config: BackendConfig, value: String) -> BackendConfig {
    BackendConfig { transcription_model: Some(value), ..config }
}

/// The configuration with this under `transcription_language`.
pub open spec fn set_transcription_language(config: BackendConfig, value: String) -> BackendConfig {
    BackendConfig { transcription_language: Some(value), ..config }
}

/// The configuration with this under `transcription_prompt`.
pub open spec fn set_transcription_prompt(config: BackendConfig, value: String) -> BackendConfig {
    BackendConfig { transcription_prompt: Some(value), ..config }
}

/// The configuration with this under `include_logprobs`.
pub open spec fn set_include_logprobs(config: BackendConfig, wanted: bool) -> BackendConfig {
    BackendConfig { include_logprobs: wanted, ..config }
}

impl<S: Default, C, U, T> AiClientBuilder<S, C, U, T> {
    /// A builder with the state's default value.
    pub fn new(api_key: String, model: String) -> (r: AiClientBuilder<S, C, U, T>)
        ensures
            r@.starts_with(api_key, model),
            call_ensures(S::default, (), r@.state),
    {
        AiClientBuilder::new_with_model_and_state(api_key, model, S::default())
    }
}

impl<S, C, U, T> Build<S, C, U, T> {
    /// Nothing is set up but the key and the model.
    pub open spec fn starts_with(self, api_key: String, model: String) -> bool {
        &&& self.api_key == api_key
        &&& self.config.model == model
        &&& self.config.only_model()
        &&& self.on_server_content is None
        &&& self.on_usage_metadata is None
        &&& self.tool_handlers == Map::<Seq<char>, T>::empty()
        &&& self.tools.len() == 0
    }

    /// The same, but for the configuration.
    pub open spec fn with_config(self, config: BackendConfig) -> Build<S, C, U, T> {
        Build { config, ..self }
    }

    /// The same, but for the handler for content.
    pub open spec fn with_content_handler(self, handler: C) -> Build<S, C, U, T> {
        Build { on_server_content: Some(handler), ..self }
    }

    /// The same, but for the handler for usage.
    pub open spec fn with_usage_handler(self, handler: U) -> Build<S, C, U, T> {
        Build { on_usage_metadata: Some(handler), ..self }
    }
}

/// The builder after is the one before with a tool at the end, and with the handler
/// under the tool's name.
pub open spec fn tool_added<S, C, U, T>(
    before: Build<S, C, U, T>,
    after: Build<S, C, U, T>,
    name: Seq<char>,
    gemini: FunctionDeclaration,
    openai: JsonValue,
    handler: T,
) -> bool {
    &&& after == (Build {
        tool_handlers: before.tool_handlers.insert(name, handler),
        tools: after.tools,
        ..before
    })
    &&& after.tools.len() == before.tools.len() + 1
    &&& after.tools.drop_last() == before.tools
    &&& after.tools.last().name@ == name
    &&& after.tools.last().gemini_declaration == gemini
    &&& after.tools.last().openai_definition == openai
}

impl<S, C, U, T> AiClientBuilder<S, C, U, T> {
    /// A builder with the application's state.
    pub fn new_with_model_and_state(api_key: String, model: String, state: S) -> (r:
        AiClientBuilder<S, C, U, T>)
        ensures
            r@.starts_with(api_key, model),
            r@.state == state,
    {
        AiClientBuilder {
            api_key,
            backend_config: BackendConfig::for_model(model),
            handlers: Handlers::none(),
            state,
            tool_declarations: Vec::new(),
        }
    }

    /// Has noise in the input audio reduced.
    pub fn input_audio_noise_reduction(self, config: InputAudioNoiseReduction) -> (
        r: AiClientBuilder<S, C, U, T>
    )
        ensures
            r@ == self@.with_config(set_input_audio_noise_reduction(self@.config, config)),
    {
        proof {
            use_type_invariant(&self);
        }
        let mut builder = self;
        builder.backend_config.input_audio_noise_reduction = Some(config);
        builder
    }

    /// Says how the model generates.
    pub fn generation_config(self, config: GenerationConfig) -> (r: AiClientBuilder<S, C, U, T>)
        ensures
            r@ == self@.with_config(set_generation_config(self@.config, config)),
    {
        proof {
            use_type_invariant(&self);
        }
        let mut builder = self;
        builder.backend_config.generation_config = Some(config);
        builder
    }

    /// Instructs the model for the whole session.
    pub fn system_instruction(self, instruction: Content) -> (r: AiClientBuilder<S, C, U, T>)
        ensures
            r@ == self@.with_config(set_system_instruction(self@.config, instruction)),
    {
        proof {
            use_type_invariant(&self);
        }
        let mut builder = self;
        builder.backend_config.system_instruction = Some(instruction);
        builder
    }

    /// Says how realtime input is treated.
    pub fn realtime_input_config(self, config: RealtimeInputConfig) -> (
        r: AiClientBuilder<S, C, U, T>
    )
        ensures
            r@ == self@.with_config(set_realtime_input_config(self@.config, config)),
    {
        proof {
            use_type_invariant(&self);
        }
        let mut builder = self;
        builder.backend_config.realtime_input_config = Some(config);
        builder
    }

    /// Has audio transcribed.
    pub fn output_audio_transcription(self, config: AudioTranscriptionConfig) -> (
        r: AiClientBuilder<S, C, U, T>
    )
        ensures
            r@ == self@.with_config(set_output_audio_transcription(self@.config, config)),
    {
        proof {
            use_type_invariant(&self);
        }
        let mut builder = self;
        builder.backend_config.output_audio_transcription = Some(config);
        builder
    }

    /// Chooses the voice of the model.
    pub fn voice(self, voice: String) -> (r: AiClientBuilder<S, C, U, T>)
        ensures
            r@ == self@.with_config(set_voice(self@.config, voice)),
    {
        proof {
            use_type_invariant(&self);
        }
        let mut builder = self;
        builder.backend_config.voice = Some(voice);
        builder
    }

    /// Names the format of input audio.
    pub fn input_audio_format(self, format: String) -> (r: AiClientBuilder<S, C, U, T>)
        ensures
            r@ == self@.with_config(set_input_audio_format(self@.config, format)),
    {
        proof {
            use_type_invariant(&self);
        }
        let mut builder = self;
        builder.backend_config.input_audio_format = Some(format);
        builder
    }

    /// Names the format of output audio.
    pub fn output_audio_format(self, format: String) -> (r: AiClientBuilder<S, C, U, T>)
        ensures
            r@ == self@.with_config(set_output_audio_format(self@.config, format)),
    {
        proof {
            use_type_invariant(&self);
        }
        let mut builder = self;
        builder.backend_config.output_audio_format = Some(format);
        builder
    }

    /// Chooses the model that transcribes.
    pub fn transcription_model(self, model: String) -> (r: AiClientBuilder<S, C, U, T>)
        ensures
            r@ == self@.with_config(set_transcription_model(self@.config, model)),
    {
        proof {
            use_type_invariant(&self);
        }
        let mut builder = self;
        builder.backend_config.transcription_model = Some(model);
        builder
    }

    /// Names the language to transcribe from.
    pub fn transcription_language(self, lang: String) -> (r: AiClientBuilder<S, C, U, T>)
        ensures
            r@ == self@.with_config(set_transcription_language(self@.config, lang)),
    {
        proof {
            use_type_invariant(&self);
        }
        let mut builder = self;
        builder.backend_config.transcription_language = Some(lang);
        builder
    }

    /// Guides the transcription.
    pub fn transcription_prompt(self, prompt: String) -> (r: AiClientBuilder<S, C, U, T>)
        ensures
            r@ == self@.with_config(set_transcription_prompt(self@.config, prompt)),
    {
        proof {
            use_type_invariant(&self);
        }
        let mut builder = self;
        builder.backend_config.transcription_prompt = Some(prompt);
        builder
    }

    /// Says whether transcriptions come with log probabilities.
    pub fn include_logprobs(self, wanted: bool) -> (r: AiClientBuilder<S, C, U, T>)
        ensures
            r@ == self@.with_config(set_include_logprobs(self@.config, wanted)),
    {
        proof {
            use_type_invariant(&self);
        }
        let mut builder = self;
        builder.backend_config.include_logprobs = wanted;
        builder
    }

    /// Registers a tool: its definitions, and the handler to call. The definitions
    /// of all tools are kept in order; of handlers under one name, the last counts.
    /// The names with a handler are always those of the tools.
    pub fn add_tool_internal(
        self,
        name: String,
        gemini_decl: FunctionDeclaration,
        openai_def: JsonValue,
        handler: T,
    ) -> (r: AiClientBuilder<S, C, U, T>)
        ensures
            tool_added(self@, r@, name@, gemini_decl, openai_def, handler),
            names_match(r@.tools, r@.tool_handlers),
    {
        proof {
            use_type_invariant(&self);
        }
        let AiClientBuilder { api_key, backend_config, handlers, state, tool_declarations } = self;
        let Handlers { on_server_content, on_usage_metadata, tool_handlers } = handlers;
        let ghost known = tool_handlers@;
        let mut tools = tool_declarations;
        tools.push(
            ToolDefinition {
                name: name.clone(),
                gemini_declaration: gemini_decl,
                openai_definition: openai_def,
            },
        );
        let table = tool_handlers.with(name, handler);
        proof {
            assert(tools@.drop_last() =~= self@.tools);
            lemma_names_match_with(tools@, known, handler);
        }
        AiClientBuilder {
            api_key,
            backend_config,
            handlers: Handlers { on_server_content, on_usage_metadata, tool_handlers: table },
            state,
            tool_declarations: tools,
        }
    }

    /// Has content reported to the handler.
    pub fn on_server_content(self, handler: C) -> (r: AiClientBuilder<S, C, U, T>)
        ensures
            r@ == self@.with_content_handler(handler),
    {
        proof {
            use_type_invariant(&self);
        }
        let mut builder = self;
        builder.handlers.on_server_content = Some(handler);
        builder
    }

    /// Has token usage reported to the handler.
    pub fn on_usage_metadata(self, handler: U) -> (r: AiClientBuilder<S, C, U, T>)
        ensures
            r@ == self@.with_usage_handler(handler),
    {
        proof {
            use_type_invariant(&self);
        }
        let mut builder = self;
        builder.handlers.on_usage_metadata = Some(handler);
        builder
    }

    /// The session's handle, and what its connection works with. Both share the
    /// backend, the state and the configuration, into which the tools have gone.
    fn connect_internal<B, Tx, Out>(self, backend: B, link: Link<Tx, Out>) -> (r: (
        AiLiveClient<S, B, Tx, Out>,
        TaskSetup<S, B, C, U, T>,
    ))
        ensures
            connected(self@, backend, link, r.0, r.1),
    {
        proof {
            use_type_invariant(&self);
        }
        let mut config = self.backend_config;
        config.tools = self.tool_declarations;
        let backend_config = Arc::new(config);
        let state = Arc::new(self.state);
        let backend = Arc::new(backend);
        let task = TaskSetup {
            api_key: self.api_key,
            backend: share(&backend),
            backend_config: share(&backend_config),
            handlers: self.handlers,
            state: share(&state),
        };
        (AiLiveClient::new(link, state, backend, backend_config), task)
    }

    /// A session with Gemini: its handle, and what its connection works with.
    pub fn connect_gemini<Tx, Out>(self, link: Link<Tx, Out>) -> (r: (
        AiLiveClient<S, GeminiBackend, Tx, Out>,
        TaskSetup<S, GeminiBackend, C, U, T>,
    ))
        ensures
            connected(self@, GeminiBackend, link, r.0, r.1),
    {
        self.connect_internal(GeminiBackend, link)
    }

    /// A session with OpenAI: its handle, and what its connection works with.
    pub fn connect_openai<Tx, Out>(self, link: Link<Tx, Out>) -> (r: (
        AiLiveClient<S, OpenAiBackend, Tx, Out>,
        TaskSetup<S, OpenAiBackend, C, U, T>,
    ))
        ensures
            connected(self@, OpenAiBackend, link, r.0, r.1),
    {
        self.connect_internal(OpenAiBackend, link)
    }
}

/// The configuration is `before` with the tools.
pub open spec fn with_tools(
    before: BackendConfig,
    tools: Seq<ToolDefinition>,
    after: BackendConfig,
) -> bool {
    after.tools@ == tools && after == (BackendConfig { tools: after.tools, ..before })
}

/// Handle and task are those of an open session that is set up as the builder
/// says: they share backend, state and configuration, and there is a handler for
/// each tool and for nothing else.
pub open spec fn connected<S, B, Tx, Out, C, U, T>(
    build: Build<S, C, U, T>,
    backend: B,
    link: Link<Tx, Out>,
    client: AiLiveClient<S, B, Tx, Out>,
    task: TaskSetup<S, B, C, U, T>,
) -> bool {
    &&& client.link() == Some(link)
    &&& *client.shared_state() == build.state
    &&& *client.service() == backend
    &&& with_tools(build.config, build.tools, *client.config())
    &&& task.api_key == build.api_key
    &&& task.backend == client.service()
    &&& task.backend_config == client.config()
    &&& task.handlers.on_server_content == build.on_server_content
    &&& task.handlers.on_usage_metadata == build.on_usage_metadata
    &&& task.handlers.tool_handlers@ == build.tool_handlers
    &&& names_match(task.backend_config.tools@, task.handlers.tool_handlers@)
    &&& task.state == client.shared_state()
}

/// Setting `input_audio_noise_reduction` makes it what is given, whatever it was, and leaves every other setting.
pub proof fn law_set_input_audio_noise_reduction(config: BackendConfig, value: InputAudioNoiseReduction)
    ensures
        ({
            let after = set_input_audio_noise_reduction(config, value);
            after.input_audio_noise_reduction == Some(value)
                && after.generation_config == config.generation_config
                && after.system_instruction == config.system_instruction
                && after.realtime_input_config == config.realtime_input_config
                && after.output_audio_transcription == config.output_audio_transcription
                && after.voice == config.voice
                && after.input_audio_format == config.input_audio_format
                && after.output_audio_format == config.output_audio_format
                && after.transcription_model == config.transcription_model
                && after.transcription_language == config.transcription_language
                && after.transcription_prompt == config.transcription_prompt
                && after.include_logprobs == config.include_logprobs && after.model == config.model
                && after.tools == config.tools
        }),
{
}

/// Setting `generation_config` makes it what is given, whatever it was, and leaves every other setting.
pub proof fn law_set_generation_config(config: BackendConfig, value: GenerationConfig)
    ensures
        ({
            let after = set_generation_config(config, value);
            after.generation_config == Some(value)
                && after.input_audio_noise_reduction == config.input_audio_noise_reduction
                && after.system_instruction == config.system_instruction
                && after.realtime_input_config == config.realtime_input_config
                && after.output_audio_transcription == config.output_audio_transcription
                && after.voice == config.voice
                && after.input_audio_format == config.input_audio_format
                && after.output_audio_format == config.output_audio_format
                && after.transcription_model == config.transcription_model
                && after.transcription_language == config.transcription_language
                && after.transcription_prompt == config.transcription_prompt
                && after.include_logprobs == config.include_logprobs && after.model == config.model
                && after.tools == config.tools
        }),
{
}

/// Setting `system_instruction` makes it what is given, whatever it was, and leaves every other setting.
pub proof fn law_set_system_instruction(config: BackendConfig, value: Content)
    ensures
        ({
            let after = set_system_instruction(config, value);
            after.system_instruction == Some(value)
                && after.input_audio_noise_reduction == config.input_audio_noise_reduction
                && after.generation_config == config.generation_config
                && after.realtime_input_config == config.realtime_input_config
                && after.output_audio_transcription == config.output_audio_transcription
                && after.voice == config.voice
                && after.input_audio_format == config.input_audio_format
                && after.output_audio_format == config.output_audio_format
                && after.transcription_model == config.transcription_model
                && after.transcription_language == config.transcription_language
                && after.transcription_prompt == config.transcription_prompt
                && after.include_logprobs == config.include_logprobs && after.model == config.model
                && after.tools == config.tools
        }),
{
}

/// Setting `realtime_input_config` makes it what is given, whatever it was, and leaves every other setting.
pub proof fn law_set_realtime_input_config(config: BackendConfig, value: RealtimeInputConfig)
    ensures
        ({
            let after = set_realtime_input_config(config, value);
            after.realtime_input_config == Some(value)
                && after.input_audio_noise_reduction == config.input_audio_noise_reduction
                && after.generation_config == config.generation_config
                && after.system_instruction == config.system_instruction
                && after.output_audio_transcription == config.output_audio_transcription
                && after.voice == config.voice
                && after.input_audio_format == config.input_audio_format
                && after.output_audio_format == config.output_audio_format
                && after.transcription_model == config.transcription_model
                && after.transcription_language == config.transcription_language
                && after.transcription_prompt == config.transcription_prompt
                && after.include_logprobs == config.include_logprobs && after.model == config.model
                && after.tools == config.tools
        }),
{
}

/// Setting `output_audio_transcription` makes it what is given, whatever it was, and leaves every other setting.
pub proof fn law_set_output_audio_transcription(config: BackendConfig, value: AudioTranscriptionConfig)
    ensures
        ({
            let after = set_output_audio_transcription(config, value);
            after.output_audio_transcription == Some(value)
                && after.input_audio_noise_reduction == config.input_audio_noise_reduction
                && after.generation_config == config.generation_config
                && after.system_instruction == config.system_instruction
                && after.realtime_input_config == config.realtime_input_config
                && after.voice == config.voice
                && after.input_audio_format == config.input_audio_format
                && after.output_audio_format == config.output_audio_format
                && after.transcription_model == config.transcription_model
                && after.transcription_language == config.transcription_language
                && after.transcription_prompt == config.transcription_prompt
                && after.include_logprobs == config.include_logprobs && after.model == config.model
                && after.tools == config.tools
        }),
{
}

/// Setting `voice` makes it what is given, whatever it was, and leaves every other setting.
pub proof fn law_set_voice(config: BackendConfig, value: String)
    ensures
        ({
            let after = set_voice(config, value);
            after.voice == Some(value)
                && after.input_audio_noise_reduction == config.input_audio_noise_reduction
                && after.generation_config == config.generation_config
                && after.system_instruction == config.system_instruction
                && after.realtime_input_config == config.realtime_input_config
                && after.output_audio_transcription == config.output_audio_transcription
                && after.input_audio_format == config.input_audio_format
                && after.output_audio_format == config.output_audio_format
                && after.transcription_model == config.transcription_model
                && after.transcription_language == config.transcription_language
                && after.transcription_prompt == config.transcription_prompt
                && after.include_logprobs == config.include_logprobs && after.model == config.model
                && after.tools == config.tools
        }),
{
}

/// Setting `input_audio_format` makes it what is given, whatever it was, and leaves every other setting.
pub proof fn law_set_input_audio_format(config: BackendConfig, value: String)
    ensures
        ({
            let after = set_input_audio_format(config, value);
            after.input_audio_format == Some(value)
                && after.input_audio_noise_reduction == config.input_audio_noise_reduction
                && after.generation_config == config.generation_config
                && after.system_instruction == config.system_instruction
                && after.realtime_input_config == config.realtime_input_config
                && after.output_audio_transcription == config.output_audio_transcription
                && after.voice == config.voice
                && after.output_audio_format == config.output_audio_format
                && after.transcription_model == config.transcription_model
                && after.transcription_language == config.transcription_language
                && after.transcription_prompt == config.transcription_prompt
                && after.include_logprobs == config.include_logprobs && after.model == config.model
                && after.tools == config.tools
        }),
{
}

/// Setting `output_audio_format` makes it what is given, whatever it was, and leaves every other setting.
pub proof fn law_set_output_audio_format(config: BackendConfig, value: String)
    ensures
        ({
            let after = set_output_audio_format(config, value);
            after.output_audio_format == Some(value)
                && after.input_audio_noise_reduction == config.input_audio_noise_reduction
                && after.generation_config == config.generation_config
                && after.system_instruction == config.system_instruction
                && after.realtime_input_config == config.realtime_input_config
                && after.output_audio_transcription == config.output_audio_transcription
                && after.voice == config.voice
                && after.input_audio_format == config.input_audio_format
                && after.transcription_model == config.transcription_model
                && after.transcription_language == config.transcription_language
                && after.transcription_prompt == config.transcription_prompt
                && after.include_logprobs == config.include_logprobs && after.model == config.model
                && after.tools == config.tools
        }),
{
}

/// Setting `transcription_model` makes it what is given, whatever it was, and leaves every other setting.
pub proof fn law_set_transcription_model(config: BackendConfig, value: String)
    ensures
        ({
            let after = set_transcription_model(config, value);
            after.transcription_model == Some(value)
                && after.input_audio_noise_reduction == config.input_audio_noise_reduction
                && after.generation_config == config.generation_config
                && after.system_instruction == config.system_instruction
                && after.realtime_input_config == config.realtime_input_config
                && after.output_audio_transcription == config.output_audio_transcription
                && after.voice == config.voice
                && after.input_audio_format == config.input_audio_format
                && after.output_audio_format == config.output_audio_format
                && after.transcription_language == config.transcription_language
                && after.transcription_prompt == config.transcription_prompt
                && after.include_logprobs == config.include_logprobs && after.model == config.model
                && after.tools == config.tools
        }),
{
}

/// Setting `transcription_language` makes it what is given, whatever it was, and leaves every other setting.
pub proof fn law_set_transcription_language(config: BackendConfig, value: String)
    ensures
        ({
            let after = set_transcription_language(config, value);
            after.transcription_language == Some(value)
                && after.input_audio_noise_reduction == config.input_audio_noise_reduction
                && after.generation_config == config.generation_config
                && after.system_instruction == config.system_instruction
                && after.realtime_input_config == config.realtime_input_config
                && after.output_audio_transcription == config.output_audio_transcription
                && after.voice == config.voice
                && after.input_audio_format == config.input_audio_format
                && after.output_audio_format == config.output_audio_format
                && after.transcription_model == config.transcription_model
                && after.transcription_prompt == config.transcription_prompt
                && after.include_logprobs == config.include_logprobs && after.model == config.model
                && after.tools == config.tools
        }),
{
}

/// Setting `transcription_prompt` makes it what is given, whatever it was, and leaves every other setting.
pub proof fn law_set_transcription_prompt(config: BackendConfig, value: String)
    ensures
        ({
            let after = set_transcription_prompt(config, value);
            after.transcription_prompt == Some(value)
                && after.input_audio_noise_reduction == config.input_audio_noise_reduction
                && after.generation_config == config.generation_config
                && after.system_instruction == config.system_instruction
                && after.realtime_input_config == config.realtime_input_config
                && after.output_audio_transcription == config.output_audio_transcription
                && after.voice == config.voice
                && after.input_audio_format == config.input_audio_format
                && after.output_audio_format == config.output_audio_format
                && after.transcription_model == config.transcription_model
                && after.transcription_language == config.transcription_language
                && after.include_logprobs == config.include_logprobs && after.model == config.model
                && after.tools == config.tools
        }),
{
}

/// Log probabilities are included exactly as wanted last; every other setting stays.
pub proof fn law_set_include_logprobs(config: BackendConfig, wanted: bool)
    ensures
        ({
            let after = set_include_logprobs(config, wanted);
            after.include_logprobs == wanted
                && after.input_audio_noise_reduction == config.input_audio_noise_reduction
                && after.generation_config == config.generation_config
                && after.system_instruction == config.system_instruction
                && after.realtime_input_config == config.realtime_input_config
                && after.output_audio_transcription == config.output_audio_transcription
                && after.voice == config.voice
                && after.input_audio_format == config.input_audio_format
                && after.output_audio_format == config.output_audio_format
                && after.transcription_model == config.transcription_model
                && after.transcription_language == config.transcription_language
                && after.transcription_prompt == config.transcription_prompt
                && after.model == config.model && after.tools == config.tools
        }),
{
}

/// Changing the configuration changes nothing else of a builder.
pub proof fn law_with_config<S, C, U, T>(build: Build<S, C, U, T>, config: BackendConfig)
    ensures
        ({
            let after = build.with_config(config);
            after.config == config && after.api_key == build.api_key && after.on_server_content
                == build.on_server_content && after.on_usage_metadata == build.on_usage_metadata
                && after.tool_handlers == build.tool_handlers && after.state == build.state
                && after.tools == build.tools
        }),
{
}

/// A handler that is registered is the one that counts, in place of any before it; it
/// changes nothing else of a builder.
pub proof fn law_with_handlers<S, C, U, T>(build: Build<S, C, U, T>, content: C, usage: U)
    ensures
        ({
            let after = build.with_content_handler(content);
            after.on_server_content == Some(content) && after.on_usage_metadata
                == build.on_usage_metadata && after.config == build.config && after.api_key
                == build.api_key && after.tool_handlers == build.tool_handlers && after.state
                == build.state && after.tools == build.tools
        }),
        ({
            let after = build.with_usage_handler(usage);
            after.on_usage_metadata == Some(usage) && after.on_server_content
                == build.on_server_content && after.config == build.config && after.api_key
                == build.api_key && after.tool_handlers == build.tool_handlers && after.state
                == build.state && after.tools == build.tools
        }),
{
}

/// A tool that is added comes last of the tools, under its own name and with its own
/// declarations, and the tools before it stay; its handler is the one under its name, and
/// the handlers under other names stay. Nothing else of the builder changes.
pub proof fn law_tool_added<S, C, U, T>(
    before: Build<S, C, U, T>,
    after: Build<S, C, U, T>,
    name: Seq<char>,
    gemini: FunctionDeclaration,
    openai: JsonValue,
    handler: T,
    other: Seq<char>,
)
    requires
        tool_added(before, after, name, gemini, openai, handler),
    ensures
        after.tools.len() == before.tools.len() + 1,
        forall|i: int|
            0 <= i < before.tools.len() ==> (#[trigger] after.tools[i]) == before.tools[i],
        after.tools.last().name@ == name,
        after.tools.last().gemini_declaration == gemini,
        after.tools.last().openai_definition == openai,
        after.tool_handlers.dom().contains(name) && after.tool_handlers[name] == handler,
        other != name ==> (after.tool_handlers.dom().contains(other)
            <==> before.tool_handlers.dom().contains(other)),
        other != name && before.tool_handlers.dom().contains(other) ==> after.tool_handlers[other]
            == before.tool_handlers[other],
        after.config == before.config && after.api_key == before.api_key && after.state
            == before.state && after.on_server_content == before.on_server_content
            && after.on_usage_metadata == before.on_usage_metadata,
{
    assert forall|i: int| 0 <= i < before.tools.len() implies (#[trigger] after.tools[i])
        == before.tools[i] by {
        assert(after.tools.drop_last()[i] == before.tools[i]);
    }
}

/// Where the names match, every tool has a handler, and every handler a tool.
pub proof fn law_names_match<T>(
    tools: Seq<ToolDefinition>,
    handlers: Map<Seq<char>, T>,
    i: int,
    name: Seq<char>,
)
    requires
        names_match(tools, handlers),
    ensures
        0 <= i < tools.len() ==> handlers.dom().contains(tools[i].name@),
        handlers.dom().contains(name) ==> exists|j: int|
            0 <= j < tools.len() && (#[trigger] tools[j]).name@ == name,
{
    if 0 <= i < tools.len() {
        assert(tools[i].name@ == tools[i].name@);
    }
}

/// A new builder has its key and its model, and nothing else.
pub proof fn law_starts_with<S, C, U, T>(
    build: Build<S, C, U, T>,
    api_key: String,
    model: String,
)
    requires
        build.starts_with(api_key, model),
    ensures
        build.api_key == api_key,
        build.config.model == model,
        build.config.only_model(),
        build.on_server_content is None,
        build.on_usage_metadata is None,
        build.tools.len() == 0,
        forall|name: Seq<char>| !#[trigger] build.tool_handlers.dom().contains(name),
{
}

/// The two ends of a new session work with what the builder holds: its key, its state,
/// its handlers, its settings and its tools, and with the same service. The session is
/// open on the ways to the connection that it was given.
pub proof fn law_connected<S, B, Tx, Out, C, U, T>(
    build: Build<S, C, U, T>,
    backend: B,
    link: Link<Tx, Out>,
    client: AiLiveClient<S, B, Tx, Out>,
    task: TaskSetup<S, B, C, U, T>,
)
    requires
        connected(build, backend, link, client, task),
    ensures
        client.open(),
        client.link() == Some(link),
        *client.shared_state() == build.state,
        *task.state == build.state,
        *client.service() == backend,
        *task.backend == backend,
        task.api_key == build.api_key,
        task.backend_config == client.config(),
        client.config().tools@ == build.tools,
        client.config().input_audio_noise_reduction == build.config.input_audio_noise_reduction,
        client.config().generation_config == build.config.generation_config,
        client.config().system_instruction == build.config.system_instruction,
        client.config().realtime_input_config == build.config.realtime_input_config,
        client.config().output_audio_transcription == build.config.output_audio_transcription,
        client.config().voice == build.config.voice,
        client.config().input_audio_format == build.config.input_audio_format,
        client.config().output_audio_format == build.config.output_audio_format,
        client.config().transcription_model == build.config.transcription_model,
        client.config().transcription_language == build.config.transcription_language,
        client.config().transcription_prompt == build.config.transcription_prompt,
        client.config().include_logprobs == build.config.include_logprobs,
        client.config().model == build.config.model,
        task.handlers.on_server_content == build.on_server_content,
        task.handlers.on_usage_metadata == build.on_usage_metadata,
        task.handlers.tool_handlers@ == build.tool_handlers,
        names_match(task.backend_config.tools@, task.handlers.tool_handlers@),
{
}

} // verus!
