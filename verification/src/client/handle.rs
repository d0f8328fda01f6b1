//! The handle that an application holds on a session.
use crate::audio::fits_audio_message;
use crate::client::backend::{texts, ApiProvider, BackendConfig, LiveApiBackend};
use crate::error::{text_outcome, unit_outcome, Failure, GeminiError};
use crate::types::FunctionResponse;
use std::sync::Arc;
use vstd::prelude::*;

verus! {

/// Calls `Arc::clone`. Claimed of it: the clone shares the value.
#[verifier::external_body]
pub(crate) fn share<T>(shared: &Arc<T>) -> (r: Arc<T>)
    ensures
        r == *shared,
{
    Arc::clone(shared)
}

/// The ways from the handle to the connection: a signal to shut it down, and a
/// queue of messages to send.
pub struct Link<Tx, Out> {
    pub shutdown: Tx,
    pub outgoing: Out,
}

/// A session that an application takes part in. It is closed when the ways to the
/// connection are gone.
pub struct AiLiveClient<S, B, Tx, Out> {
    link: Option<Link<Tx, Out>>,
    state: Arc<S>,
    backend: Arc<B>,
    backend_config: Arc<BackendConfig>,
}

/// What sending comes to: messages to queue, in order, and what is reported once
/// all of them are queued.
#[derive(Debug, PartialEq)]
pub struct SendPlan {
    pub messages: Vec<String>,
    pub outcome: Result<(), GeminiError>,
}

/// A plan as mathematics: what a [`SendPlan`] stands for.
#[verifier::ext_equal]
pub struct Plan {
    pub messages: Seq<Seq<char>>,
    pub outcome: Result<(), Failure>,
}

impl View for SendPlan {
    type V = Plan;

    open spec fn view(&self) -> Plan {
        Plan { messages: texts(self.messages@), outcome: unit_outcome(self.outcome) }
    }
}

/// Nothing to send, and nothing wrong.
pub open spec fn no_messages() -> Plan {
    Plan { messages: Seq::empty(), outcome: Ok(()) }
}

/// The plan for one message: where it could not be built, its error is reported;
/// where the session is closed, that it is not ready.
pub open spec fn one_message(open: bool, built: Result<Seq<char>, Failure>) -> Plan {
    match built {
        Err(e) => Plan { messages: Seq::empty(), outcome: Err(e) },
        Ok(message) => if open {
            Plan { messages: seq![message], outcome: Ok(()) }
        } else {
            Plan { messages: Seq::empty(), outcome: Err(Failure::NotReady) }
        },
    }
}

/// The plan for a chunk of audio: none for an empty one.
pub open spec fn audio_plan(
    open: bool,
    samples: Seq<i16>,
    built: Result<Seq<char>, Failure>,
) -> Plan {
    if samples.len() == 0 {
        no_messages()
    } else {
        one_message(open, built)
    }
}

/// The plan that asks for a response, of the service that has to be asked.
pub open spec fn ask(
    open: bool,
    provider: ApiProvider,
    request: Result<Seq<char>, Failure>,
) -> Plan {
    if provider == ApiProvider::OpenAi {
        one_message(open, request)
    } else {
        no_messages()
    }
}

/// The plan for one message that the model is to respond to.
pub open spec fn message_and_ask(
    open: bool,
    built: Result<Seq<char>, Failure>,
    provider: ApiProvider,
    request: Result<Seq<char>, Failure>,
) -> Plan {
    let first = one_message(open, built);
    if first.outcome is Err {
        first
    } else {
        let second = ask(open, provider, request);
        Plan { messages: first.messages + second.messages, outcome: second.outcome }
    }
}

/// The plan for a turn of text.
pub open spec fn text_plan<B: LiveApiBackend>(backend: B, open: bool, text: Seq<char>) -> Plan {
    message_and_ask(
        open,
        backend.text_turn(text),
        backend.provider(),
        backend.request_response(),
    )
}

/// The plan for the end of the audio stream.
pub open spec fn stream_end_plan<B: LiveApiBackend>(backend: B, open: bool) -> Plan {
    message_and_ask(
        open,
        backend.audio_stream_end(),
        backend.provider(),
        backend.request_response(),
    )
}

/// The plan for the results of calls.
pub open spec fn responses_plan<B: LiveApiBackend>(
    backend: B,
    open: bool,
    responses: Seq<FunctionResponse>,
) -> Plan {
    message_and_ask(
        open,
        backend.tool_response(responses),
        backend.provider(),
        backend.request_response(),
    )
}

/// The plan for a request for a response.
pub open spec fn request_plan<B: LiveApiBackend>(backend: B, open: bool) -> Plan {
    ask(open, backend.provider(), backend.request_response())
}

/// What is reported of a plan's outcome, given whether all its messages were queued.
pub open spec fn settled(outcome: Result<(), Failure>, all_queued: bool) -> Result<(), Failure> {
    if all_queued {
        outcome
    } else {
        Err(Failure::SendError)
    }
}

/// The signal that shuts a connection down, while there are ways to it.
pub open spec fn shutdown_signal<Tx, Out>(link: Option<Link<Tx, Out>>) -> Option<Tx> {
    match link {
        Some(link) => Some(link.shutdown),
        None => None,
    }
}

impl SendPlan {
    /// What is reported: that the connection no longer takes messages, where one
    /// could not be queued; otherwise what the plan says.
    pub fn settle(self, all_queued: bool) -> (r: Result<(), GeminiError>)
        ensures
            unit_outcome(r) == settled(self@.outcome, all_queued),
    {
        if all_queued {
            self.outcome
        } else {
            Err(GeminiError::SendError)
        }
    }
}

impl<S, B, Tx, Out> AiLiveClient<S, B, Tx, Out> {
    /// The ways to the connection.
    pub closed spec fn link(&self) -> Option<Link<Tx, Out>> {
        self.link
    }

    /// The application's state.
    pub closed spec fn shared_state(&self) -> Arc<S> {
        self.state
    }

    /// The backend.
    pub closed spec fn service(&self) -> Arc<B> {
        self.backend
    }

    /// How the session is set up.
    pub closed spec fn config(&self) -> Arc<BackendConfig> {
        self.backend_config
    }

    /// The session is open.
    pub open spec fn open(&self) -> bool {
        self.link() is Some
    }

    /// An open session.
    pub fn new(
        link: Link<Tx, Out>,
        state: Arc<S>,
        backend: Arc<B>,
        backend_config: Arc<BackendConfig>,
    ) -> (r: AiLiveClient<S, B, Tx, Out>)
        ensures
            r.link() == Some(link),
            r.shared_state() == state,
            r.service() == backend,
            r.config() == backend_config,
    {
        AiLiveClient { link: Some(link), state, backend, backend_config }
    }

    /// Closes the session. The first time, this gives the signal to raise; the
    /// queue of messages is gone.
    pub fn close(&mut self) -> (r: Option<Tx>)
        ensures
            r == shutdown_signal(old(self).link()),
            !final(self).open(),
            final(self).shared_state() == old(self).shared_state(),
            final(self).service() == old(self).service(),
            final(self).config() == old(self).config(),
    {
        match self.link.take() {
            Some(link) => Some(link.shutdown),
            None => None,
        }
    }

    /// Whether the session is closed.
    pub fn is_closed(&self) -> (r: bool)
        ensures
            r == !self.open(),
    {
        self.link.is_none()
    }

    /// The queue of messages, while the session is open.
    pub fn outgoing(&self) -> (r: Option<&Out>)
        ensures
            match r {
                Some(outgoing) => self.open() && *outgoing == self.link()->0.outgoing,
                None => !self.open(),
            },
    {
        match &self.link {
            Some(link) => Some(&link.outgoing),
            None => None,
        }
    }

    /// The application's state.
    pub fn state(&self) -> (r: Arc<S>)
        ensures
            r == self.shared_state(),
    {
        share(&self.state)
    }
}

impl<S, B: LiveApiBackend, Tx, Out> AiLiveClient<S, B, Tx, Out> {
    /// The service that the session is held with.
    pub fn provider(&self) -> (r: ApiProvider)
        ensures
            r == self.service().provider(),
    {
        self.backend.provider_type()
    }

    fn plan_one(&self, built: Result<String, GeminiError>) -> (r: SendPlan)
        ensures
            r@ == one_message(self.open(), text_outcome(built)),
    {
        let mut messages: Vec<String> = Vec::new();
        assert(texts(messages@) =~= Seq::empty());
        match built {
            Err(e) => SendPlan { messages, outcome: Err(e) },
            Ok(message) => if self.link.is_some() {
                let ghost text = message@;
                messages.push(message);
                assert(texts(messages@) =~= seq![text]);
                SendPlan { messages, outcome: Ok(()) }
            } else {
                SendPlan { messages, outcome: Err(GeminiError::NotReady) }
            },
        }
    }

    fn plan_and_ask(&self, built: Result<String, GeminiError>) -> (r: SendPlan)
        ensures
            r@ == message_and_ask(
                self.open(),
                text_outcome(built),
                self.service().provider(),
                self.service().request_response(),
            ),
    {
        let first = self.plan_one(built);
        match first.outcome {
            Err(e) => SendPlan { messages: first.messages, outcome: Err(e) },
            Ok(_) => {
                let ghost planned = first.messages@;
                let mut second = self.request_response();
                let ghost asked = second.messages@;
                let mut messages = first.messages;
                messages.append(&mut second.messages);
                assert(texts(messages@) =~= texts(planned) + texts(asked));
                SendPlan { messages, outcome: second.outcome }
            },
        }
    }

    /// Sends a turn of text, and asks for a response where that is needed.
    pub fn send_text_turn(&self, text: String) -> (r: SendPlan)
        ensures
            r@ == text_plan(*self.service(), self.open(), text@),
    {
        let built = self.backend.build_text_turn_message(text);
        self.plan_and_ask(built)
    }

    /// Sends a chunk of audio. There is nothing to send of an empty one.
    pub fn send_audio_chunk(&self, audio_samples: &[i16], sample_rate: u32) -> (r: SendPlan)
        requires
            fits_audio_message(audio_samples@.len()),
        ensures
            r@ == audio_plan(
                self.open(),
                audio_samples@,
                self.service().audio_chunk(audio_samples@, sample_rate, *self.config()),
            ),
    {
        if audio_samples.len() == 0 {
            let r = SendPlan { messages: Vec::new(), outcome: Ok(()) };
            assert(r@ =~= no_messages());
            return r;
        }
        let built = self.backend.build_audio_chunk_message(
            audio_samples,
            sample_rate,
            &*self.backend_config,
        );
        self.plan_one(built)
    }

    /// Ends the audio stream, and asks for a response where that is needed.
    pub fn send_audio_stream_end(&self) -> (r: SendPlan)
        ensures
            r@ == stream_end_plan(*self.service(), self.open()),
    {
        let built = self.backend.build_audio_stream_end_message();
        self.plan_and_ask(built)
    }

    /// Sends the results of calls, and asks for a response where that is needed.
    pub fn send_tool_responses(&self, responses: Vec<FunctionResponse>) -> (r: SendPlan)
        ensures
            r@ == responses_plan(*self.service(), self.open(), responses@),
    {
        let built = self.backend.build_tool_response_message(responses);
        self.plan_and_ask(built)
    }

    /// Asks for a response, of the service that has to be asked.
    pub fn request_response(&self) -> (r: SendPlan)
        ensures
            r@ == request_plan(*self.service(), self.open()),
    {
        if self.backend.provider_type() == ApiProvider::OpenAi {
            let built = self.backend.build_request_response_message();
            self.plan_one(built)
        } else {
            let r = SendPlan { messages: Vec::new(), outcome: Ok(()) };
            assert(r@ =~= no_messages());
            r
        }
    }
}

/// A closed session sends nothing, and says so: where the message could be built,
/// it reports that it is not ready.
pub proof fn law_closed_sends_nothing(
    built: Result<Seq<char>, Failure>,
    provider: ApiProvider,
    request: Result<Seq<char>, Failure>,
)
    ensures
        message_and_ask(false, built, provider, request).messages.len() == 0,
        message_and_ask(false, built, provider, request).outcome is Err,
        built is Ok ==> message_and_ask(false, built, provider, request).outcome == Err::<
            (),
            Failure,
        >(Failure::NotReady),
{
}

/// On an open session, a message that could be built goes out first. Gemini is
/// sent nothing else; OpenAI is then asked for a response.
pub proof fn law_openai_is_asked(message: Seq<char>, request: Seq<char>)
    ensures
        message_and_ask(true, Ok(message), ApiProvider::Gemini, Ok(request)) == (Plan {
            messages: seq![message],
            outcome: Ok(()),
        }),
        message_and_ask(true, Ok(message), ApiProvider::OpenAi, Ok(request)) == (Plan {
            messages: seq![message, request],
            outcome: Ok(()),
        }),
{
    assert(message_and_ask(true, Ok(message), ApiProvider::Gemini, Ok(request)).messages
        =~= seq![message]);
    assert(message_and_ask(true, Ok(message), ApiProvider::OpenAi, Ok(request)).messages
        =~= seq![message, request]);
}

/// A message that could not be built is not sent, nothing is asked for, and its own
/// error is reported, whether the session is open or not.
pub proof fn law_unbuilt_message_is_reported(
    open: bool,
    error: Failure,
    provider: ApiProvider,
    request: Result<Seq<char>, Failure>,
)
    ensures
        message_and_ask(open, Err(error), provider, request).messages.len() == 0,
        message_and_ask(open, Err(error), provider, request).outcome == Err::<(), Failure>(error),
        one_message(open, Err(error)).messages.len() == 0,
        one_message(open, Err(error)).outcome == Err::<(), Failure>(error),
{
}

/// On an open session a message that could be built goes out by itself, once; on a
/// closed one it does not, and that is reported.
pub proof fn law_one_message_goes_out(message: Seq<char>)
    ensures
        one_message(true, Ok(message)).messages == seq![message],
        one_message(true, Ok(message)).outcome is Ok,
        one_message(false, Ok(message)).messages.len() == 0,
        one_message(false, Ok(message)).outcome == Err::<(), Failure>(Failure::NotReady),
{
}

/// Only OpenAI is asked for a response: with the request by itself, on an open
/// session. Gemini is not asked, and that is no failure.
pub proof fn law_who_is_asked(open: bool, request: Seq<char>)
    ensures
        ask(open, ApiProvider::Gemini, Ok(request)).messages.len() == 0,
        ask(open, ApiProvider::Gemini, Ok(request)).outcome is Ok,
        ask(true, ApiProvider::OpenAi, Ok(request)).messages == seq![request],
        ask(true, ApiProvider::OpenAi, Ok(request)).outcome is Ok,
        ask(false, ApiProvider::OpenAi, Ok(request)).messages.len() == 0,
        ask(false, ApiProvider::OpenAi, Ok(request)).outcome == Err::<(), Failure>(
            Failure::NotReady,
        ),
        no_messages().messages.len() == 0,
        no_messages().outcome is Ok,
{
}

/// A request for a response that cannot be built is reported, after the message that
/// went before it is sent all the same.
pub proof fn law_message_goes_out_unasked(message: Seq<char>, error: Failure)
    ensures
        message_and_ask(true, Ok(message), ApiProvider::OpenAi, Err(error)).messages =~= seq![
            message,
        ],
        message_and_ask(true, Ok(message), ApiProvider::OpenAi, Err(error)).outcome == Err::<
            (),
            Failure,
        >(error),
        message_and_ask(true, Ok(message), ApiProvider::Gemini, Err(error)).messages =~= seq![
            message,
        ],
        message_and_ask(true, Ok(message), ApiProvider::Gemini, Err(error)).outcome is Ok,
{
}

/// What is reported of a plan is its own outcome where all its messages were queued,
/// and that the connection takes no more where one was not.
pub proof fn law_settled(outcome: Result<(), Failure>)
    ensures
        settled(outcome, true) == outcome,
        settled(outcome, false) == Err::<(), Failure>(Failure::SendError),
{
}

/// A session gives the signal to shut it down that it was opened with, while it is
/// open, and none after that.
pub proof fn law_signal_of_link<Tx, Out>(link: Link<Tx, Out>)
    ensures
        shutdown_signal(Some(link)) == Some(link.shutdown),
        shutdown_signal(None::<Link<Tx, Out>>) is None,
{
}

/// A chunk of audio goes out by itself on an open session, and nothing is asked for it. An
/// empty one is passed over without a word, even on a closed session.
pub proof fn law_audio_goes_out(
    open: bool,
    samples: Seq<i16>,
    message: Seq<char>,
    built: Result<Seq<char>, Failure>,
)
    ensures
        samples.len() == 0 ==> audio_plan(open, samples, built).messages.len() == 0 && audio_plan(
            open,
            samples,
            built,
        ).outcome is Ok,
        samples.len() > 0 ==> audio_plan(true, samples, Ok(message)).messages == seq![message]
            && audio_plan(true, samples, Ok(message)).outcome is Ok,
        samples.len() > 0 ==> audio_plan(false, samples, Ok(message)).messages.len() == 0
            && audio_plan(false, samples, Ok(message)).outcome == Err::<(), Failure>(
            Failure::NotReady,
        ),
        samples.len() > 0 ==> (built matches Err(e) ==> audio_plan(open, samples, built).outcome
            == Err::<(), Failure>(e) && audio_plan(open, samples, built).messages.len() == 0),
{
}

/// A plan stands for its messages, in order, and for its outcome.
pub proof fn law_view_of_plan(plan: SendPlan)
    ensures
        plan@.messages == texts(plan.messages@),
        plan@.outcome == unit_outcome(plan.outcome),
{
}

/// On an open session, a turn of text, the end of the audio stream and the results of
/// calls each go out as the backend writes them. A backend of OpenAI's is then asked for a
/// response, each time; one of Gemini's never is.
pub proof fn law_what_is_sent<B: LiveApiBackend>(
    backend: B,
    text: Seq<char>,
    responses: Seq<FunctionResponse>,
)
    ensures
        backend.provider() == ApiProvider::Gemini ==> {
            &&& backend.text_turn(text) matches Ok(message) ==> text_plan(backend, true, text).messages
                =~= seq![message]
            &&& backend.audio_stream_end() matches Ok(message) ==> stream_end_plan(
                backend,
                true,
            ).messages =~= seq![message]
            &&& backend.tool_response(responses) matches Ok(message) ==> responses_plan(
                backend,
                true,
                responses,
            ).messages =~= seq![message]
            &&& request_plan(backend, true).messages.len() == 0
            &&& request_plan(backend, true).outcome is Ok
        },
        backend.provider() == ApiProvider::OpenAi ==> (backend.request_response() matches Ok(
            request,
        ) ==> {
            &&& backend.text_turn(text) matches Ok(message) ==> text_plan(backend, true, text).messages
                =~= seq![message, request]
            &&& backend.audio_stream_end() matches Ok(message) ==> stream_end_plan(
                backend,
                true,
            ).messages =~= seq![message, request]
            &&& backend.tool_response(responses) matches Ok(message) ==> responses_plan(
                backend,
                true,
                responses,
            ).messages =~= seq![message, request]
            &&& request_plan(backend, true).messages =~= seq![request]
        }),
{
}

/// On a closed session nothing goes out of any of these.
pub proof fn law_nothing_is_sent_when_closed<B: LiveApiBackend>(
    backend: B,
    text: Seq<char>,
    responses: Seq<FunctionResponse>,
)
    ensures
        text_plan(backend, false, text).messages.len() == 0,
        text_plan(backend, false, text).outcome is Err,
        stream_end_plan(backend, false).messages.len() == 0,
        stream_end_plan(backend, false).outcome is Err,
        responses_plan(backend, false, responses).messages.len() == 0,
        responses_plan(backend, false, responses).outcome is Err,
        request_plan(backend, false).messages.len() == 0,
{
}

} // verus!
