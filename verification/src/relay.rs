//! The decisions of a request handler: which provider calls a request needs,
//! which events describe them, and what is answered in the end. The handler
//! itself makes the calls and sends the events.

use crate::audio::{repair_wav_header, repaired, HEADER_LEN};
use crate::codec::base64_encoded;
use crate::events::{ChatRequest, ChatResponse, OpenAiMessage, SpeechRequest};
use crate::params::texts_of;
use crate::types::{
    selected_output, ImageOutputFormat, OutputKind, RequestBody, RequestParams, ResponseBody,
    ResponseText,
};
use vstd::prelude::*;
use vstd::string::StringExecFns;

verus! {

/// The model that describes screenshots.
pub const MODEL: &'static str = "gpt-4o-mini";

/// The cap on the length of a description, in tokens.
pub const MAX_TOKENS: u32 = 300;

/// The instructions that go with every screenshot.
pub const SYSTEM_PROMPT: &'static str =
    "You are a narration service helping a visually impaired player understand the scene for the game they're playing. Describe the contents of the screenshots you will be given. Limit your response to one sentence. Do not use headings or explicit section makers. Do not speculate about the image's contents. Use video game terminology if appropriate.";

/// The model that reads descriptions aloud.
pub const SPEECH_MODEL: &'static str = "tts-1";

/// The voice that reads descriptions aloud.
pub const VOICE: &'static str = "fable";

/// The audio format of synthesised speech.
pub const SPEECH_FORMAT: &'static str = "wav";

/// The speed of synthesised speech, in hundredths of the normal speed.
pub const SPEED_PERCENT: u32 = 110;

/// The answer to a request for an annotated image.
pub const NOT_IMPLEMENTED: &'static str = "Not implemented";

/// The beginning of the answer to a request for an unknown output.
pub const UNKNOWN_OUTPUT: &'static str = "Unknown output format ";

/// The answer where the provider's description has no text.
pub const NO_CONTENT: &'static str = "\"No content in response\"";

/// The answer where the provider's audio is shorter than a WAV header.
pub const TOO_SHORT: &'static str = "\"WAV file is too short\"";

/// What a request handler does next.
#[derive(Clone, Debug, PartialEq, Eq)]
pub enum Next {
    /// Ask the provider to describe the screenshot.
    Chat(ChatRequest),
    /// Ask the provider to read the description aloud.
    Speech(SpeechRequest),
    /// Answer the client; the request is done.
    Reply(ResponseBody),
}

/// One decision: the events to send to the consolidator, in order, and what
/// to do after that.
#[derive(Clone, Debug, PartialEq, Eq)]
pub struct Step {
    pub emit: Vec<OpenAiMessage>,
    pub next: Next,
}

/// The text that `std`'s `Debug` formatting gives for a list of strings.
pub uninterp spec fn debug_text(items: Seq<Seq<char>>) -> Seq<char>;

/// Formats a list of strings with `format!` and `{:?}`. Trusted: the text
/// depends on the strings alone, and is the one that `debug_text` names.
#[verifier::external_body]
fn format_debug(items: &Vec<String>) -> (text: String)
    ensures
        text@ == debug_text(texts_of(items@)),
{
    format!("{:?}", items)
}

/// The name of an image format in a data URL; PNG where none is given.
pub open spec fn format_name(format: Option<ImageOutputFormat>) -> Seq<char> {
    match format {
        Some(ImageOutputFormat::Bmp) => "Bmp"@,
        Some(ImageOutputFormat::PngA) => "PngA"@,
        _ => "Png"@,
    }
}

/// The data URL of a screenshot given as base64 text.
pub open spec fn data_url(format: Option<ImageOutputFormat>, image: Seq<char>) -> Seq<char> {
    "data:image/"@ + format_name(format) + ";base64,"@ + image
}

/// Whether `request` is the chat completion call that describes the
/// screenshot of `body`.
pub open spec fn describes(request: ChatRequest, body: RequestBody) -> bool {
    &&& request.model@ == MODEL@
    &&& request.max_tokens == MAX_TOKENS
    &&& request.system@ == SYSTEM_PROMPT@
    &&& request.image_url@ == data_url(body.format, body.image@)
}

/// Whether `request` is the speech call that reads `text` aloud.
pub open spec fn reads_aloud(request: SpeechRequest, text: Seq<char>) -> bool {
    &&& request.input@ == text
    &&& request.model@ == SPEECH_MODEL@
    &&& request.voice@ == VOICE@
    &&& request.response_format@ == SPEECH_FORMAT@
    &&& request.speed_percent == SPEED_PERCENT
}

/// A response that carries this error and nothing else.
pub open spec fn is_error(reply: ResponseBody, message: Seq<char>) -> bool {
    reply.plain() && reply.texts() == (ResponseText { error: Some(message), ..ResponseText::none() })
}

/// A response that carries this text and nothing else.
pub open spec fn is_text(reply: ResponseBody, text: Seq<char>) -> bool {
    reply.plain() && reply.texts() == (ResponseText { text: Some(text), ..ResponseText::none() })
}

/// A response that carries this sound and nothing else.
pub open spec fn is_sound(reply: ResponseBody, sound: Seq<char>) -> bool {
    reply.plain() && reply.texts() == (ResponseText { sound: Some(sound), ..ResponseText::none() })
}

impl Step {
    /// The step sends nothing and answers with this error.
    pub open spec fn fails_with(self, message: Seq<char>) -> bool {
        &&& self.emit@.len() == 0
        &&& match self.next {
            Next::Reply(reply) => is_error(reply, message),
            _ => false,
        }
    }

    /// The step announces the chat completion call for `body`, and makes it.
    pub open spec fn asks_description(self, body: RequestBody) -> bool {
        &&& self.emit@.len() == 1
        &&& match self.emit@[0] {
            OpenAiMessage::CreateChatCompletionRequest(announced) => describes(announced, body),
            _ => false,
        }
        &&& match self.next {
            Next::Chat(request) => describes(request, body),
            _ => false,
        }
    }

    /// The step records the description and answers with its text, or with
    /// an error where it has none.
    pub open spec fn answers_description(self, description: ChatResponse) -> bool {
        &&& self.emit@ == seq![OpenAiMessage::CreateChatCompletionResponse(description)]
        &&& match self.next {
            Next::Reply(reply) => match description.choices@[0] {
                Some(text) => is_text(reply, text@),
                None => is_error(reply, NO_CONTENT@),
            },
            _ => false,
        }
    }

    /// The step records the description and, where it has text, announces
    /// and makes the speech call for it; where it has none, it answers with
    /// an error.
    pub open spec fn asks_speech(self, description: ChatResponse) -> bool {
        match description.choices@[0] {
            Some(text) => {
                &&& self.emit@.len() == 2
                &&& self.emit@[0] == OpenAiMessage::CreateChatCompletionResponse(description)
                &&& match self.emit@[1] {
                    OpenAiMessage::CreateSpeechRequest(announced) => reads_aloud(announced, text@),
                    _ => false,
                }
                &&& match self.next {
                    Next::Speech(request) => reads_aloud(request, text@),
                    _ => false,
                }
            },
            None => {
                &&& self.emit@ == seq![OpenAiMessage::CreateChatCompletionResponse(description)]
                &&& match self.next {
                    Next::Reply(reply) => is_error(reply, NO_CONTENT@),
                    _ => false,
                }
            },
        }
    }

    /// The step records the repaired audio and answers with it as base64
    /// text.
    pub open spec fn answers_sound(self, audio: Seq<u8>) -> bool {
        &&& self.emit@.len() == 1
        &&& match self.emit@[0] {
            OpenAiMessage::CreateSpeechResponse(recorded) => recorded@ == repaired(audio),
            _ => false,
        }
        &&& match self.next {
            Next::Reply(reply) => is_sound(reply, base64_encoded(repaired(audio))),
            _ => false,
        }
    }
}

/// The step that only answers with an error.
fn fail(message: &str) -> (step: Step)
    ensures
        step.fails_with(message@),
{
    Step { emit: Vec::new(), next: Next::Reply(ResponseBody::error(message)) }
}

/// Builds the data URL of a screenshot.
pub fn image_data_url(format: Option<ImageOutputFormat>, image: &str) -> (url: String)
    ensures
        url@ == data_url(format, image@),
{
    let name: &str = match format {
        Some(ImageOutputFormat::Bmp) => "Bmp",
        Some(ImageOutputFormat::PngA) => "PngA",
        _ => "Png",
    };
    String::from_str("data:image/").concat(name).concat(";base64,").concat(image)
}

/// Builds the chat completion call that describes the screenshot of `body`.
pub fn chat_completion(body: &RequestBody) -> (request: ChatRequest)
    ensures
        describes(request, *body),
{
    ChatRequest {
        model: String::from_str(MODEL),
        max_tokens: MAX_TOKENS,
        system: String::from_str(SYSTEM_PROMPT),
        image_url: image_data_url(body.format, body.image.as_str()),
    }
}

/// Builds the speech call that reads `text` aloud.
pub fn speech_request(text: &str) -> (request: SpeechRequest)
    ensures
        reads_aloud(request, text@),
{
    SpeechRequest {
        input: String::from_str(text),
        model: String::from_str(SPEECH_MODEL),
        voice: String::from_str(VOICE),
        response_format: String::from_str(SPEECH_FORMAT),
        speed_percent: SPEED_PERCENT,
    }
}

/// The first step for a request: a description is asked for where the
/// client accepts text or sound; every other request is answered at once
/// with an error.
pub fn query_service(params: &RequestParams, body: &RequestBody) -> (step: Step)
    ensures
        match selected_output(params.output@) {
            OutputKind::Text | OutputKind::Sound => step.asks_description(*body),
            OutputKind::Image => step.fails_with(NOT_IMPLEMENTED@),
            OutputKind::Unknown => step.fails_with(
                UNKNOWN_OUTPUT@ + debug_text(texts_of(params.output@)),
            ),
        },
{
    match params.output_kind() {
        OutputKind::Text | OutputKind::Sound => {
            let mut emit: Vec<OpenAiMessage> = Vec::new();
            emit.push(OpenAiMessage::CreateChatCompletionRequest(chat_completion(body)));
            Step { emit, next: Next::Chat(chat_completion(body)) }
        },
        OutputKind::Image => fail(NOT_IMPLEMENTED),
        OutputKind::Unknown => {
            let listed = format_debug(&params.output);
            let message = String::from_str(UNKNOWN_OUTPUT).concat(listed.as_str());
            fail(message.as_str())
        },
    }
}

/// The step after the chat completion call of a request for text: a failed
/// call is answered with its error; a description is recorded and its first
/// choice is the answer.
pub fn send_chat_request(outcome: Result<ChatResponse, String>) -> (step: Step)
    requires
        outcome matches Ok(description) ==> description.choices@.len() > 0,
    ensures
        match outcome {
            Ok(description) => step.answers_description(description),
            Err(error) => step.fails_with(error@),
        },
{
    match outcome {
        Err(error) => fail(error.as_str()),
        Ok(description) => {
            let reply = match &description.choices[0] {
                Some(text) => ResponseBody::text(text.as_str()),
                None => ResponseBody::error(NO_CONTENT),
            };
            let mut emit: Vec<OpenAiMessage> = Vec::new();
            emit.push(OpenAiMessage::CreateChatCompletionResponse(description));
            Step { emit, next: Next::Reply(reply) }
        },
    }
}

/// The step after the chat completion call of a request for sound: a failed
/// call is answered with its error; a description is recorded and its first
/// choice is handed on to be read aloud.
pub fn send_sound_request(outcome: Result<ChatResponse, String>) -> (step: Step)
    requires
        outcome matches Ok(description) ==> description.choices@.len() > 0,
    ensures
        match outcome {
            Ok(description) => step.asks_speech(description),
            Err(error) => step.fails_with(error@),
        },
{
    match outcome {
        Err(error) => fail(error.as_str()),
        Ok(description) => {
            let mut emit: Vec<OpenAiMessage> = Vec::new();
            match &description.choices[0] {
                Some(text) => {
                    let announced = speech_request(text.as_str());
                    let request = speech_request(text.as_str());
                    emit.push(OpenAiMessage::CreateChatCompletionResponse(description));
                    emit.push(OpenAiMessage::CreateSpeechRequest(announced));
                    Step { emit, next: Next::Speech(request) }
                },
                None => {
                    emit.push(OpenAiMessage::CreateChatCompletionResponse(description));
                    Step { emit, next: Next::Reply(ResponseBody::error(NO_CONTENT)) }
                },
            }
        },
    }
}

/// The last step of a request for sound: a failed call is answered with its
/// error, audio shorter than a WAV header with an error of its own; any
/// other audio has its header repaired, is recorded and is the answer.
pub fn finish_sound_request(outcome: Result<Vec<u8>, String>) -> (step: Step)
    requires
        outcome matches Ok(audio) ==> audio@.len() <= isize::MAX,
    ensures
        match outcome {
            Ok(audio) => if audio@.len() < HEADER_LEN {
                step.fails_with(TOO_SHORT@)
            } else {
                step.answers_sound(audio@)
            },
            Err(error) => step.fails_with(error@),
        },
{
    match outcome {
        Err(error) => fail(error.as_str()),
        Ok(audio) => {
            let mut audio = audio;
            match repair_wav_header(&mut audio) {
                Err(_) => fail(TOO_SHORT),
                Ok(()) => {
                    let reply = ResponseBody::sound(audio.as_slice());
                    let mut emit: Vec<OpenAiMessage> = Vec::new();
                    emit.push(OpenAiMessage::CreateSpeechResponse(audio));
                    Step { emit, next: Next::Reply(reply) }
                },
            }
        },
    }
}

} // verus!
