//! The cache as a mathematical value, and the effect of each event on it.

use crate::codec::{image_in_body, is_json_document, MalformedPayload};
use crate::events::{CallView, OpenAiMessage, RequestView, ResponseView, ServiceMessage};
use crate::headers::{collected, Header};
use vstd::prelude::*;

verus! {

/// An event sequence violated the producer protocol.
#[derive(Clone, Copy, Debug, PartialEq, Eq, Structural)]
pub enum ProtocolViolation {
    /// A client request arrived for an identifier that already has a record.
    DuplicateRequest,
    /// A provider exchange or a client response arrived for an identifier
    /// that has no record.
    UnknownRequest,
    /// A client response arrived for a record that already has one.
    DuplicateResponse,
}

/// What became of an event that was handed to the consolidator.
#[derive(Clone, Copy, Debug, PartialEq, Eq, Structural)]
pub enum Outcome {
    /// The event is part of its record now.
    Recorded,
    /// The event is part of its record now, although its payload could not
    /// be read; for a client request the record has no image.
    Degraded(MalformedPayload),
    /// The event was dropped and the cache is as it was.
    Rejected(ProtocolViolation),
}

/// The cache contents: the identifiers in the order in which their records
/// were opened, the records, and the two side tables of binary payloads.
pub struct CacheView {
    pub ids: Seq<u64>,
    pub calls: Map<u64, CallView>,
    pub images: Map<u64, Seq<u8>>,
    pub sounds: Map<u64, Seq<u8>>,
}

/// All that a cache holds for one identifier.
pub struct Slice {
    pub call: Option<CallView>,
    pub image: Option<Seq<u8>>,
    pub sound: Option<Seq<u8>>,
}

/// A sequence of events, each paired with the identifier of its request.
pub type Events = Seq<(u64, ServiceMessage)>;

impl CacheView {
    /// The cache at start-up.
    pub open spec fn empty() -> CacheView {
        CacheView { ids: Seq::empty(), calls: Map::empty(), images: Map::empty(), sounds: Map::empty() }
    }

    /// Whether a record exists for `id`.
    pub open spec fn knows(self, id: u64) -> bool {
        self.calls.contains_key(id)
    }

    /// The tables agree with each other: the identifier list names each
    /// record once, the side tables hold entries for recorded requests only,
    /// and the sound of a request is the audio of the latest synthesised
    /// speech in its record.
    pub open spec fn consistent(self) -> bool {
        &&& self.ids.no_duplicates()
        &&& forall|id: u64| self.ids.contains(id) <==> #[trigger] self.calls.contains_key(id)
        &&& forall|id: u64| #[trigger] self.images.contains_key(id) ==> self.calls.contains_key(id)
        &&& forall|id: u64| #[trigger] self.sounds.contains_key(id) ==> self.calls.contains_key(id)
        &&& forall|id: u64| #[trigger]
            self.calls.contains_key(id) ==> self.slice(id).sound == last_audio(
                self.calls[id].openai_messages,
            )
    }

    /// What the cache holds for `id`.
    pub open spec fn slice(self, id: u64) -> Slice {
        Slice {
            call: if self.calls.contains_key(id) { Some(self.calls[id]) } else { None },
            image: if self.images.contains_key(id) { Some(self.images[id]) } else { None },
            sound: if self.sounds.contains_key(id) { Some(self.sounds[id]) } else { None },
        }
    }

    /// The violation that a client request for `id` would commit, if any.
    pub open spec fn request_violation(self, id: u64) -> Option<ProtocolViolation> {
        if self.knows(id) {
            Some(ProtocolViolation::DuplicateRequest)
        } else {
            None
        }
    }

    /// The violation that a provider exchange for `id` would commit, if any.
    pub open spec fn message_violation(self, id: u64) -> Option<ProtocolViolation> {
        if self.knows(id) {
            None
        } else {
            Some(ProtocolViolation::UnknownRequest)
        }
    }

    /// The violation that a client response for `id` would commit, if any.
    pub open spec fn response_violation(self, id: u64) -> Option<ProtocolViolation> {
        if !self.knows(id) {
            Some(ProtocolViolation::UnknownRequest)
        } else if self.calls[id].client_response.is_some() {
            Some(ProtocolViolation::DuplicateResponse)
        } else {
            None
        }
    }

    /// The cache after a client request: a new record at the end of the
    /// identifier list, and its image, where one was decoded. A request for
    /// an identifier that has a record changes nothing.
    pub open spec fn with_request(self, id: u64, request: RequestView, image: Option<Seq<u8>>) -> CacheView {
        if self.request_violation(id).is_some() {
            self
        } else {
            CacheView {
                ids: self.ids.push(id),
                calls: self.calls.insert(id, CallView::fresh(request)),
                images: match image {
                    Some(bytes) => self.images.insert(id, bytes),
                    None => self.images,
                },
                sounds: self.sounds,
            }
        }
    }

    /// The cache after a provider exchange: the message at the end of the
    /// record's sequence, and its audio, where it carries any, in the sound
    /// table. A message for an identifier without a record changes nothing.
    pub open spec fn with_message(self, id: u64, message: OpenAiMessage) -> CacheView {
        if self.message_violation(id).is_some() {
            self
        } else {
            CacheView {
                ids: self.ids,
                calls: self.calls.insert(id, self.calls[id].appended(message)),
                images: self.images,
                sounds: match message.audio() {
                    Some(bytes) => self.sounds.insert(id, bytes),
                    None => self.sounds,
                },
            }
        }
    }

    /// The cache after a client response: the record's answer filled in. A
    /// response for an identifier without a record, or with an answer
    /// already, changes nothing.
    pub open spec fn with_response(self, id: u64, response: ResponseView) -> CacheView {
        if self.response_violation(id).is_some() {
            self
        } else {
            CacheView {
                ids: self.ids,
                calls: self.calls.insert(id, self.calls[id].answered(response)),
                images: self.images,
                sounds: self.sounds,
            }
        }
    }

    /// The cache after one event of the channel.
    pub open spec fn step(self, id: u64, message: ServiceMessage) -> CacheView {
        match message {
            ServiceMessage::ClientRequest(headers, params, body) => self.with_request(
                id,
                request_of(headers@, params@, body@),
                image_of(image_in_body(body@)),
            ),
            ServiceMessage::OpenAiMessage(exchange) => self.with_message(id, exchange),
            ServiceMessage::ClientResponse(headers, body) => self.with_response(
                id,
                response_of(headers@, body@),
            ),
        }
    }

    /// What the consolidator reports for one event of the channel.
    pub open spec fn outcome(self, id: u64, message: ServiceMessage) -> Outcome {
        match message {
            ServiceMessage::ClientRequest(_, _, body) => match self.request_violation(id) {
                Some(violation) => Outcome::Rejected(violation),
                None => match image_in_body(body@) {
                    Ok(_) => Outcome::Recorded,
                    Err(reason) => Outcome::Degraded(reason),
                },
            },
            ServiceMessage::OpenAiMessage(_) => match self.message_violation(id) {
                Some(violation) => Outcome::Rejected(violation),
                None => Outcome::Recorded,
            },
            ServiceMessage::ClientResponse(_, body) => match self.response_violation(id) {
                Some(violation) => Outcome::Rejected(violation),
                None => if is_json_document(body@) {
                    Outcome::Recorded
                } else {
                    Outcome::Degraded(MalformedPayload::NotJson)
                },
            },
        }
    }

    /// The cache after a sequence of events, taken front to back.
    pub open spec fn fold(self, events: Events) -> CacheView
        decreases events.len(),
    {
        if events.len() == 0 {
            self
        } else {
            self.step(events[0].0, events[0].1).fold(events.drop_first())
        }
    }
}

/// The audio of the last message that carries any.
pub open spec fn last_audio(messages: Seq<OpenAiMessage>) -> Option<Seq<u8>>
    decreases messages.len(),
{
    if messages.len() == 0 {
        None
    } else {
        match messages.last().audio() {
            Some(bytes) => Some(bytes),
            None => last_audio(messages.drop_last()),
        }
    }
}

/// The client request that header lines, query string and payload make up.
pub open spec fn request_of(headers: Seq<Header>, params: Seq<char>, body: Seq<u8>) -> RequestView {
    RequestView { headers: collected(headers), params, body }
}

/// The answer that header lines and payload make up.
pub open spec fn response_of(headers: Seq<Header>, body: Seq<u8>) -> ResponseView {
    ResponseView { headers: collected(headers), body }
}

/// The image of a decoding attempt, where it succeeded.
pub open spec fn image_of(decoded: Result<Seq<u8>, MalformedPayload>) -> Option<Seq<u8>> {
    match decoded {
        Ok(bytes) => Some(bytes),
        Err(_) => None,
    }
}

/// The events of `events` that belong to `id`, in their order.
pub open spec fn only(events: Events, id: u64) -> Events
    decreases events.len(),
{
    if events.len() == 0 {
        Seq::empty()
    } else if events[0].0 == id {
        seq![events[0]] + only(events.drop_first(), id)
    } else {
        only(events.drop_first(), id)
    }
}

/// The provider exchanges among `events` that belong to `id`, in their order.
pub open spec fn exchanges(events: Events, id: u64) -> Seq<OpenAiMessage>
    decreases events.len(),
{
    if events.len() == 0 {
        Seq::empty()
    } else {
        match events[0].1 {
            ServiceMessage::OpenAiMessage(exchange) if events[0].0 == id => seq![exchange]
                + exchanges(events.drop_first(), id),
            _ => exchanges(events.drop_first(), id),
        }
    }
}

/// The events of one request as the producer protocol wants them: the
/// client request first, then provider exchanges, and at most one client
/// response, which comes last.
pub open spec fn in_protocol(mine: Events) -> bool {
    &&& mine.len() > 0
    &&& mine[0].1 is ClientRequest
    &&& forall|i: int|
        0 < i < mine.len() ==> (#[trigger] mine[i]).1 is OpenAiMessage || (i == mine.len() - 1
            && mine[i].1 is ClientResponse)
}

/// The record that the events of one request leave, where they are in
/// protocol: the client request, every provider exchange in the order sent,
/// and the client response, if one was sent.
pub open spec fn record_of(mine: Events) -> CallView
    recommends
        in_protocol(mine),
{
    CallView {
        client_request: match mine[0].1 {
            ServiceMessage::ClientRequest(headers, params, body) => request_of(
                headers@,
                params@,
                body@,
            ),
            _ => arbitrary(),
        },
        openai_messages: exchanges(mine.drop_first(), mine[0].0),
        client_response: match mine.last().1 {
            ServiceMessage::ClientResponse(headers, body) => Some(response_of(headers@, body@)),
            _ => None,
        },
    }
}

/// Whether `events` holds a client request for `id`.
pub open spec fn requested(events: Events, id: u64) -> bool {
    exists|i: int|
        0 <= i < events.len() && (#[trigger] events[i]).0 == id
            && events[i].1 is ClientRequest
}

} // verus!
