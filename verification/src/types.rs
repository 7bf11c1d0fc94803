//! The vocabulary of the game client's narration protocol: what a request
//! asks for and what a response may carry.

use crate::codec::{base64_encoded, encode_bytes};
use vstd::prelude::*;
use vstd::string::StringExecFns;

verus! {

/// The query parameters of a client request.
#[derive(Clone, Debug, PartialEq, Eq)]
pub struct RequestParams {
    pub source_lang: Option<String>,
    pub target_lang: Option<String>,
    /// The output formats that the client accepts, most general first.
    pub output: Vec<String>,
}

/// Audio encodings that a response may use.
#[derive(Clone, Copy, Debug, PartialEq, Eq, Structural)]
pub enum SoundOutputFormat {
    Wav,
}

/// Image encodings that a request or a response may use.
#[derive(Clone, Copy, Debug, PartialEq, Eq, Structural)]
pub enum ImageOutputFormat {
    Bmp,
    Png,
    PngA,
}

/// Whether the client should ask again by itself.
#[derive(Clone, Copy, Debug, PartialEq, Eq, Structural)]
pub enum AutoRequest {
    Auto,
    Continue,
}

/// Where on the screen the client should show a text.
#[derive(Clone, Copy, Debug, PartialEq, Eq, Structural)]
pub enum TextPosition {
    Bottom,
    Top,
}

/// The state of the controller when the screenshot was taken, one counter
/// per button.
#[derive(Clone, Copy, Debug, PartialEq, Eq)]
pub struct InputState {
    pub paused: u8,
    pub b: u8,
    pub y: u8,
    pub select: u8,
    pub start: u8,
    pub up: u8,
    pub down: u8,
    pub left: u8,
    pub right: u8,
    pub a: u8,
    pub x: u8,
    pub l: u8,
    pub r: u8,
    pub l2: u8,
    pub r2: u8,
    pub l3: u8,
    pub r3: u8,
}

/// The payload of a client request, once it has been read as JSON.
#[derive(Clone, Debug, PartialEq, Eq)]
pub struct RequestBody {
    /// The screenshot, as base64 text.
    pub image: String,
    pub format: Option<ImageOutputFormat>,
    pub coords: Option<(i32, i32, i32, i32)>,
    pub viewport: Option<(i32, i32)>,
    pub label: String,
    pub state: InputState,
}

/// The payload of a client request could not be read.
#[derive(Clone, Copy, Debug, PartialEq, Eq, Structural)]
pub struct InvalidRequestBody;

/// The payload of the answer to a client. Every part is optional.
#[derive(Clone, Debug, PartialEq, Eq)]
pub struct ResponseBody {
    pub image: Option<String>,
    pub sound: Option<String>,
    pub text: Option<String>,
    pub text_position: Option<TextPosition>,
    pub press: Option<Vec<String>>,
    pub error: Option<String>,
    pub auto_request: Option<AutoRequest>,
}

/// The characters of an optional string.
pub open spec fn chars_of(text: Option<String>) -> Option<Seq<char>> {
    match text {
        Some(text) => Some(text@),
        None => None,
    }
}

/// The textual parts of a response as mathematical values.
pub struct ResponseText {
    pub image: Option<Seq<char>>,
    pub sound: Option<Seq<char>>,
    pub text: Option<Seq<char>>,
    pub error: Option<Seq<char>>,
}

impl ResponseText {
    /// No part is present.
    pub open spec fn none() -> ResponseText {
        ResponseText { image: None, sound: None, text: None, error: None }
    }
}

impl ResponseBody {
    /// The textual parts of this response.
    pub open spec fn texts(self) -> ResponseText {
        ResponseText {
            image: chars_of(self.image),
            sound: chars_of(self.sound),
            text: chars_of(self.text),
            error: chars_of(self.error),
        }
    }

    /// Whether the response carries nothing but its textual parts.
    pub open spec fn plain(self) -> bool {
        self.text_position.is_none() && self.press.is_none() && self.auto_request.is_none()
    }

    /// A response with no part present.
    pub fn empty() -> (body: Self)
        ensures
            body.plain(),
            body.texts() == ResponseText::none(),
    {
        ResponseBody {
            image: None,
            sound: None,
            text: None,
            text_position: None,
            press: None,
            error: None,
            auto_request: None,
        }
    }

    /// A response that carries the given text and nothing else.
    pub fn text(text: &str) -> (body: Self)
        ensures
            body.plain(),
            body.texts() == (ResponseText { text: Some(text@), ..ResponseText::none() }),
    {
        let mut body = Self::empty();
        body.text = Some(String::from_str(text));
        body
    }

    /// A response that reports the given error and nothing else.
    pub fn error(error: &str) -> (body: Self)
        ensures
            body.plain(),
            body.texts() == (ResponseText { error: Some(error@), ..ResponseText::none() }),
    {
        let mut body = Self::empty();
        body.error = Some(String::from_str(error));
        body
    }

    /// A response that carries the given audio, as base64 text, and nothing
    /// else.
    pub fn sound(audio: &[u8]) -> (body: Self)
        requires
            audio@.len() <= isize::MAX,
        ensures
            body.plain(),
            body.texts() == (ResponseText {
                sound: Some(base64_encoded(audio@)),
                ..ResponseText::none()
            }),
    {
        let mut body = Self::empty();
        body.sound = Some(encode_bytes(audio));
        body
    }
}

impl Default for ResponseBody {
    fn default() -> (body: Self)
        ensures
            body.plain(),
            body.texts() == ResponseText::none(),
    {
        Self::empty()
    }
}

/// An output format as the client names it, with the encodings it accepts.
#[derive(Clone, Debug, PartialEq, Eq)]
pub enum OutputFormat {
    Text,
    Sound(SoundOutputFormat),
    Image(Vec<ImageOutputFormat>),
}

/// What kind of answer a request asks for.
#[derive(Clone, Copy, Debug, PartialEq, Eq, Structural)]
pub enum OutputKind {
    /// A description as text.
    Text,
    /// A description read aloud.
    Sound,
    /// An annotated image.
    Image,
    /// None that the relay knows.
    Unknown,
}

/// Whether `output` begins with the entries of `prefix`.
pub open spec fn begins_with(output: Seq<String>, prefix: Seq<Seq<char>>) -> bool {
    &&& prefix.len() <= output.len()
    &&& forall|i: int| 0 <= i < prefix.len() ==> (#[trigger] output[i])@ == prefix[i]
}

/// The kind of answer that a list of accepted output formats selects: text
/// where the list begins with `text`; sound where it begins with `sound`,
/// `wav`; an image where it begins with `image`, `png`, `png-a`.
pub open spec fn selected_output(output: Seq<String>) -> OutputKind {
    if begins_with(output, seq!["text"@]) {
        OutputKind::Text
    } else if begins_with(output, seq!["sound"@, "wav"@]) {
        OutputKind::Sound
    } else if begins_with(output, seq!["image"@, "png"@, "png-a"@]) {
        OutputKind::Image
    } else {
        OutputKind::Unknown
    }
}

/// Whether entry `at` of `output` exists and reads `word`.
fn entry_is(output: &Vec<String>, at: usize, word: &str) -> (same: bool)
    ensures
        same == (at < output.len() && output@[at as int]@ == word@),
{
    if at < output.len() {
        let word = String::from_str(word);
        output[at] == word
    } else {
        false
    }
}

impl RequestParams {
    /// Decides what kind of answer these parameters ask for.
    pub fn output_kind(&self) -> (kind: OutputKind)
        ensures
            kind == selected_output(self.output@),
    {
        if entry_is(&self.output, 0, "text") {
            OutputKind::Text
        } else if entry_is(&self.output, 0, "sound") && entry_is(&self.output, 1, "wav") {
            OutputKind::Sound
        } else if entry_is(&self.output, 0, "image") && entry_is(&self.output, 1, "png")
            && entry_is(&self.output, 2, "png-a") {
            OutputKind::Image
        } else {
            OutputKind::Unknown
        }
    }
}

} // verus!
