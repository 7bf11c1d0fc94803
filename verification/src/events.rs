//! The events that describe one logical request, and the record that they
//! are folded into.

use crate::headers::{Header, Headers};
use vstd::prelude::*;

verus! {

/// What a game client sent: headers, the raw query string, and the payload
/// as it came over the wire, well-formed or not.
#[derive(Clone, Debug, PartialEq, Eq)]
pub struct ServiceRequest {
    pub headers: Headers,
    pub params: String,
    pub body: Vec<u8>,
}

/// What the relay answered to the game client.
#[derive(Clone, Debug, PartialEq, Eq)]
pub struct ServiceResponse {
    pub headers: Headers,
    pub body: Vec<u8>,
}

/// A chat completion call: the model asked, the cap on the answer's length,
/// the instructions, and the screenshot as a data URL.
#[derive(Clone, Debug, PartialEq, Eq)]
pub struct ChatRequest {
    pub model: String,
    pub max_tokens: u32,
    pub system: String,
    pub image_url: String,
}

/// A speech synthesis call: the text to be read aloud, the model and the
/// voice that read it, the audio format, and the speed in hundredths of the
/// normal speed.
#[derive(Clone, Debug, PartialEq, Eq)]
pub struct SpeechRequest {
    pub input: String,
    pub model: String,
    pub voice: String,
    pub response_format: String,
    pub speed_percent: u32,
}

/// A chat completion result: the text of each choice, where it has any.
#[derive(Clone, Debug, PartialEq, Eq)]
pub struct ChatResponse {
    pub choices: Vec<Option<String>>,
}

/// A speech synthesis result: the audio as it came from the provider.
#[derive(Clone, Debug, PartialEq, Eq)]
pub struct SpeechResponse {
    pub bytes: Vec<u8>,
}

/// One exchange with the provider, outbound or inbound.
#[derive(Clone, Debug, PartialEq, Eq)]
pub enum OpenAiMessage {
    CreateChatCompletionRequest(ChatRequest),
    CreateSpeechRequest(SpeechRequest),
    CreateChatCompletionResponse(ChatResponse),
    /// Synthesised speech, as raw audio bytes.
    CreateSpeechResponse(Vec<u8>),
}

/// An event on the channel between the request handlers and the
/// consolidator. It travels paired with the identifier of its request.
#[derive(Clone, Debug, PartialEq, Eq)]
pub enum ServiceMessage {
    /// Headers, raw query string and payload of an inbound client request.
    ClientRequest(Vec<Header>, String, Vec<u8>),
    /// A call to the provider, or its result.
    OpenAiMessage(OpenAiMessage),
    /// Headers and payload of the final answer to the client.
    ClientResponse(Vec<Header>, Vec<u8>),
}

impl From<ChatRequest> for ServiceMessage {
    fn from(request: ChatRequest) -> (message: Self) {
        ServiceMessage::OpenAiMessage(OpenAiMessage::CreateChatCompletionRequest(request))
    }
}

impl vstd::std_specs::convert::FromSpecImpl<ChatRequest> for ServiceMessage {
    open spec fn obeys_from_spec() -> bool {
        true
    }

    open spec fn from_spec(request: ChatRequest) -> Self {
        ServiceMessage::OpenAiMessage(OpenAiMessage::CreateChatCompletionRequest(request))
    }
}

impl From<SpeechRequest> for ServiceMessage {
    fn from(request: SpeechRequest) -> (message: Self) {
        ServiceMessage::OpenAiMessage(OpenAiMessage::CreateSpeechRequest(request))
    }
}

impl vstd::std_specs::convert::FromSpecImpl<SpeechRequest> for ServiceMessage {
    open spec fn obeys_from_spec() -> bool {
        true
    }

    open spec fn from_spec(request: SpeechRequest) -> Self {
        ServiceMessage::OpenAiMessage(OpenAiMessage::CreateSpeechRequest(request))
    }
}

impl From<ChatResponse> for ServiceMessage {
    fn from(response: ChatResponse) -> (message: Self) {
        ServiceMessage::OpenAiMessage(OpenAiMessage::CreateChatCompletionResponse(response))
    }
}

impl vstd::std_specs::convert::FromSpecImpl<ChatResponse> for ServiceMessage {
    open spec fn obeys_from_spec() -> bool {
        true
    }

    open spec fn from_spec(response: ChatResponse) -> Self {
        ServiceMessage::OpenAiMessage(OpenAiMessage::CreateChatCompletionResponse(response))
    }
}

impl From<SpeechResponse> for ServiceMessage {
    fn from(response: SpeechResponse) -> (message: Self) {
        ServiceMessage::OpenAiMessage(OpenAiMessage::CreateSpeechResponse(response.bytes))
    }
}

impl vstd::std_specs::convert::FromSpecImpl<SpeechResponse> for ServiceMessage {
    open spec fn obeys_from_spec() -> bool {
        true
    }

    open spec fn from_spec(response: SpeechResponse) -> Self {
        ServiceMessage::OpenAiMessage(OpenAiMessage::CreateSpeechResponse(response.bytes))
    }
}

/// Everything known about one logical request.
#[derive(Clone, Debug, PartialEq, Eq)]
pub struct ServiceCall {
    pub client_request: ServiceRequest,
    pub openai_messages: Vec<OpenAiMessage>,
    pub client_response: Option<ServiceResponse>,
}

/// A client request as a mathematical value.
pub struct RequestView {
    pub headers: Map<Seq<char>, Seq<char>>,
    pub params: Seq<char>,
    pub body: Seq<u8>,
}

/// An answer to a client as a mathematical value.
pub struct ResponseView {
    pub headers: Map<Seq<char>, Seq<char>>,
    pub body: Seq<u8>,
}

impl View for ServiceRequest {
    type V = RequestView;

    open spec fn view(&self) -> RequestView {
        RequestView { headers: self.headers@, params: self.params@, body: self.body@ }
    }
}

impl View for ServiceResponse {
    type V = ResponseView;

    open spec fn view(&self) -> ResponseView {
        ResponseView { headers: self.headers@, body: self.body@ }
    }
}

/// A record as a mathematical value: the provider exchanges as a sequence in
/// arrival order.
pub struct CallView {
    pub client_request: RequestView,
    pub openai_messages: Seq<OpenAiMessage>,
    pub client_response: Option<ResponseView>,
}

impl CallView {
    /// The record of a request that has only just arrived.
    pub open spec fn fresh(client_request: RequestView) -> CallView {
        CallView { client_request, openai_messages: Seq::empty(), client_response: None }
    }

    /// This record with one more provider exchange at its end.
    pub open spec fn appended(self, message: OpenAiMessage) -> CallView {
        CallView { openai_messages: self.openai_messages.push(message), ..self }
    }

    /// This record with the final answer filled in.
    pub open spec fn answered(self, response: ResponseView) -> CallView {
        CallView { client_response: Some(response), ..self }
    }
}

impl View for ServiceCall {
    type V = CallView;

    open spec fn view(&self) -> CallView {
        CallView {
            client_request: self.client_request@,
            openai_messages: self.openai_messages@,
            client_response: match self.client_response {
                Some(response) => Some(response@),
                None => None,
            },
        }
    }
}

impl ServiceCall {
    /// Opens the record of a request: no provider exchange yet, no answer.
    pub fn new(client_request: ServiceRequest) -> (call: Self)
        ensures
            call@ == CallView::fresh(client_request@),
    {
        Self { client_request, openai_messages: Vec::new(), client_response: None }
    }
}

impl OpenAiMessage {
    /// The audio that this message carries, if it is synthesised speech.
    pub open spec fn audio(self) -> Option<Seq<u8>> {
        match self {
            OpenAiMessage::CreateSpeechResponse(bytes) => Some(bytes@),
            _ => None,
        }
    }
}

} // verus!
