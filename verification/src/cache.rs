//! The shared cache: the records, the side tables of images and sounds, the
//! consolidator's writes and the console's reads.

use crate::codec::{embedded_image, is_json, MalformedPayload};
use crate::events::{OpenAiMessage, ServiceCall, ServiceMessage, ServiceRequest, ServiceResponse};
use crate::headers::{Header, Headers};
use crate::model::{CacheView, Outcome, ProtocolViolation};
use std::collections::HashMap;
use vstd::prelude::*;

verus! {

broadcast use vstd::std_specs::hash::group_hash_axioms;

/// A query named an identifier, or a part of a record, that the cache does
/// not hold.
#[derive(Clone, Copy, Debug, PartialEq, Eq, Structural)]
pub enum CacheError {
    NotFound,
}

/// Records by request identifier, with the decoded screenshots and the
/// synthesised audio kept beside them.
pub struct MessageCache {
    ids: Vec<u64>,
    service_calls: HashMap<u64, ServiceCall>,
    request_images: HashMap<u64, Vec<u8>>,
    response_sounds: HashMap<u64, Vec<u8>>,
}

impl View for MessageCache {
    type V = CacheView;

    closed spec fn view(&self) -> CacheView {
        CacheView {
            ids: self.ids@,
            calls: Map::new(
                |id: u64| self.service_calls@.contains_key(id),
                |id: u64| self.service_calls@[id]@,
            ),
            images: Map::new(
                |id: u64| self.request_images@.contains_key(id),
                |id: u64| self.request_images@[id]@,
            ),
            sounds: Map::new(
                |id: u64| self.response_sounds@.contains_key(id),
                |id: u64| self.response_sounds@[id]@,
            ),
        }
    }
}

/// A copy of a byte string.
fn copy_bytes(bytes: &Vec<u8>) -> (copy: Vec<u8>)
    ensures
        copy@ == bytes@,
{
    let mut copy: Vec<u8> = Vec::new();
    let mut i: usize = 0;
    while i < bytes.len()
        invariant
            i <= bytes.len(),
            copy@ == bytes@.take(i as int),
        decreases bytes.len() - i,
    {
        copy.push(bytes[i]);
        assert(bytes@.take(i + 1) =~= bytes@.take(i as int).push(bytes@[i as int]));
        i += 1;
    }
    assert(bytes@.take(bytes.len() as int) =~= bytes@);
    copy
}

impl MessageCache {
    /// The invariant of the cache: its tables agree with each other.
    pub closed spec fn wf(&self) -> bool {
        self@.consistent()
    }

    /// What `wf` means for the cache's contents.
    pub proof fn lemma_wf_is_consistency(&self)
        ensures
            self.wf() == self@.consistent(),
    {
    }

    /// An empty cache.
    pub fn new() -> (cache: Self)
        ensures
            cache.wf(),
            cache@ == CacheView::empty(),
    {
        let cache = MessageCache {
            ids: Vec::new(),
            service_calls: HashMap::new(),
            request_images: HashMap::new(),
            response_sounds: HashMap::new(),
        };
        assert(cache@.calls =~= Map::empty());
        assert(cache@.images =~= Map::empty());
        assert(cache@.sounds =~= Map::empty());
        cache
    }

    /// Opens the record of `id` with the given client request and, where a
    /// screenshot was decoded from it, files the screenshot under the same
    /// identifier. Rejected, with the cache untouched, if `id` has a record.
    pub fn record_client_request(
        &mut self,
        id: u64,
        request: ServiceRequest,
        image: Option<Vec<u8>>,
    ) -> (result: Result<(), ProtocolViolation>)
        requires
            old(self).wf(),
        ensures
            final(self).wf(),
            final(self)@ == old(self)@.with_request(id, request@, bytes_of(image)),
            result == refusal(old(self)@.request_violation(id)),
    {
        if self.service_calls.contains_key(&id) {
            return Err(ProtocolViolation::DuplicateRequest);
        }
        let ghost before = self@;
        self.ids.push(id);
        self.service_calls.insert(id, ServiceCall::new(request));
        if let Some(bytes) = image {
            self.request_images.insert(id, bytes);
        }
        proof {
            let after = before.with_request(id, request@, bytes_of(image));
            assert(self@.calls =~= after.calls);
            assert(self@.images =~= after.images);
            assert(self@.sounds =~= after.sounds);
            crate::laws::lemma_request_keeps_consistency(before, id, request@, bytes_of(image));
        }
        Ok(())
    }

    /// Appends a provider exchange to the record of `id`; synthesised speech
    /// is also filed in the sound table. Rejected, with the cache untouched,
    /// if `id` has no record.
    pub fn record_openai_message(&mut self, id: u64, message: OpenAiMessage) -> (result: Result<
        (),
        ProtocolViolation,
    >)
        requires
            old(self).wf(),
        ensures
            final(self).wf(),
            final(self)@ == old(self)@.with_message(id, message),
            result == refusal(old(self)@.message_violation(id)),
    {
        let ghost before = self@;
        match self.service_calls.remove(&id) {
            None => {
                assert(self@.calls =~= before.calls);
                Err(ProtocolViolation::UnknownRequest)
            },
            Some(call) => {
                let mut call = call;
                if let OpenAiMessage::CreateSpeechResponse(audio) = &message {
                    let sound = copy_bytes(audio);
                    self.response_sounds.insert(id, sound);
                }
                call.openai_messages.push(message);
                self.service_calls.insert(id, call);
                proof {
                    let after = before.with_message(id, message);
                    assert(self@.calls =~= after.calls);
                    assert(self@.images =~= after.images);
                    assert(self@.sounds =~= after.sounds);
                    crate::laws::lemma_message_keeps_consistency(before, id, message);
                }
                Ok(())
            },
        }
    }

    /// Fills in the final answer of the record of `id`. Rejected, with the
    /// cache untouched, if `id` has no record or its record has an answer.
    pub fn record_client_response(&mut self, id: u64, response: ServiceResponse) -> (result:
        Result<(), ProtocolViolation>)
        requires
            old(self).wf(),
        ensures
            final(self).wf(),
            final(self)@ == old(self)@.with_response(id, response@),
            result == refusal(old(self)@.response_violation(id)),
    {
        let ghost before = self@;
        match self.service_calls.remove(&id) {
            None => {
                assert(self@.calls =~= before.calls);
                Err(ProtocolViolation::UnknownRequest)
            },
            Some(call) => {
                let mut call = call;
                if call.client_response.is_some() {
                    self.service_calls.insert(id, call);
                    assert(self.service_calls@ =~= old(self).service_calls@);
                    assert(self@.calls =~= before.calls);
                    return Err(ProtocolViolation::DuplicateResponse);
                }
                call.client_response = Some(response);
                self.service_calls.insert(id, call);
                proof {
                    let after = before.with_response(id, response@);
                    assert(self@.calls =~= after.calls);
                    crate::laws::lemma_response_keeps_consistency(before, id, response@);
                }
                Ok(())
            },
        }
    }

    /// Consolidates a client request: decodes the screenshot in its payload
    /// and opens the record. A payload that cannot be read still opens the
    /// record, without an image.
    pub fn handle_client_request(
        &mut self,
        id: u64,
        headers: Vec<Header>,
        params: String,
        body: Vec<u8>,
    ) -> (outcome: Outcome)
        requires
            old(self).wf(),
        ensures
            final(self).wf(),
            final(self)@ == old(self)@.step(id, ServiceMessage::ClientRequest(headers, params, body)),
            outcome == old(self)@.outcome(id, ServiceMessage::ClientRequest(headers, params, body)),
    {
        let decoded = embedded_image(body.as_slice());
        let (image, reason): (Option<Vec<u8>>, Option<MalformedPayload>) = match decoded {
            Ok(bytes) => (Some(bytes), None),
            Err(reason) => (None, Some(reason)),
        };
        let request = ServiceRequest { headers: Headers::from_lines(headers), params, body };
        match self.record_client_request(id, request, image) {
            Err(violation) => Outcome::Rejected(violation),
            Ok(()) => match reason {
                None => Outcome::Recorded,
                Some(reason) => Outcome::Degraded(reason),
            },
        }
    }

    /// Consolidates a client response: fills in the record's answer, and
    /// reports whether its payload is a JSON document.
    pub fn handle_client_response(&mut self, id: u64, headers: Vec<Header>, body: Vec<u8>) -> (outcome:
        Outcome)
        requires
            old(self).wf(),
        ensures
            final(self).wf(),
            final(self)@ == old(self)@.step(id, ServiceMessage::ClientResponse(headers, body)),
            outcome == old(self)@.outcome(id, ServiceMessage::ClientResponse(headers, body)),
    {
        let valid = is_json(body.as_slice());
        let response = ServiceResponse { headers: Headers::from_lines(headers), body };
        match self.record_client_response(id, response) {
            Err(violation) => Outcome::Rejected(violation),
            Ok(()) => if valid {
                Outcome::Recorded
            } else {
                Outcome::Degraded(MalformedPayload::NotJson)
            },
        }
    }

    /// Folds one event of the channel into the cache. An event that breaks
    /// the producer protocol is dropped: the cache stays as it was and the
    /// outcome names the violation.
    pub fn consolidate(&mut self, id: u64, message: ServiceMessage) -> (outcome: Outcome)
        requires
            old(self).wf(),
        ensures
            final(self).wf(),
            final(self)@ == old(self)@.step(id, message),
            outcome == old(self)@.outcome(id, message),
            outcome is Rejected ==> final(self)@ == old(self)@,
    {
        match message {
            ServiceMessage::ClientRequest(headers, params, body) => self.handle_client_request(
                id,
                headers,
                params,
                body,
            ),
            ServiceMessage::OpenAiMessage(exchange) => match self.record_openai_message(
                id,
                exchange,
            ) {
                Err(violation) => Outcome::Rejected(violation),
                Ok(()) => Outcome::Recorded,
            },
            ServiceMessage::ClientResponse(headers, body) => self.handle_client_response(
                id,
                headers,
                body,
            ),
        }
    }

    /// Folds a batch of events into the cache, front to back, and reports
    /// what became of each.
    pub fn consolidate_all(&mut self, events: Vec<(u64, ServiceMessage)>) -> (outcomes: Vec<
        Outcome,
    >)
        requires
            old(self).wf(),
        ensures
            final(self).wf(),
            final(self)@ == old(self)@.fold(events@),
            outcomes@.len() == events@.len(),
            forall|i: int|
                0 <= i < events@.len() ==> #[trigger] outcomes@[i] == old(self)@.fold(
                    events@.take(i),
                ).outcome(events@[i].0, events@[i].1),
    {
        let ghost before = self@;
        let mut outcomes: Vec<Outcome> = Vec::new();
        assert(events@.take(0) =~= Seq::empty());
        for event in it: events
            invariant
                it.seq() == events@,
                self.wf(),
                self@ == before.fold(events@.take(it.index() as int)),
                outcomes@.len() == it.index(),
                forall|i: int|
                    0 <= i < it.index() ==> #[trigger] outcomes@[i] == before.fold(
                        events@.take(i),
                    ).outcome(events@[i].0, events@[i].1),
        {
            let ghost done = events@.take(it.index() as int);
            let (id, message) = event;
            proof {
                crate::laws::lemma_fold_one_more(before, done, id, message);
                assert(events@.take(it.index() + 1) =~= done.push((id, message)));
            }
            let outcome = self.consolidate(id, message);
            outcomes.push(outcome);
        }
        assert(events@.take(events@.len() as int) =~= events@);
        outcomes
    }

    /// The identifiers that have a record, in the order in which the records
    /// were opened.
    pub fn list_ids(&self) -> (ids: Vec<u64>)
        requires
            self.wf(),
        ensures
            ids@ == self@.ids,
            ids@.no_duplicates(),
            forall|id: u64| ids@.contains(id) <==> self@.knows(id),
    {
        let mut ids: Vec<u64> = Vec::new();
        let mut i: usize = 0;
        while i < self.ids.len()
            invariant
                i <= self.ids.len(),
                ids@ == self.ids@.take(i as int),
            decreases self.ids.len() - i,
        {
            ids.push(self.ids[i]);
            assert(self.ids@.take(i + 1) =~= self.ids@.take(i as int).push(self.ids@[i as int]));
            i += 1;
        }
        assert(self.ids@.take(self.ids.len() as int) =~= self.ids@);
        ids
    }

    /// The record of `id`; `NotFound` exactly if there is none.
    pub fn get_record(&self, id: u64) -> (result: Result<&ServiceCall, CacheError>)
        requires
            self.wf(),
        ensures
            match result {
                Ok(call) => self@.knows(id) && call@ == self@.calls[id],
                Err(_) => !self@.knows(id),
            },
    {
        match self.service_calls.get(&id) {
            Some(call) => Ok(call),
            None => Err(CacheError::NotFound),
        }
    }

    /// The screenshot filed under `id`; `NotFound` exactly if there is none,
    /// be it that `id` has no record or that its request carried no image
    /// that could be decoded.
    pub fn get_image(&self, id: u64) -> (result: Result<&Vec<u8>, CacheError>)
        requires
            self.wf(),
        ensures
            match result {
                Ok(bytes) => self@.images.contains_key(id) && bytes@ == self@.images[id],
                Err(_) => !self@.images.contains_key(id),
            },
            !self@.knows(id) ==> result is Err,
    {
        match self.request_images.get(&id) {
            Some(bytes) => {
                assert(self@.images.contains_key(id));
                Ok(bytes)
            },
            None => Err(CacheError::NotFound),
        }
    }

    /// The audio filed under `id`; `NotFound` exactly if there is none, be
    /// it that `id` has no record or that no speech was synthesised for it.
    pub fn get_sound(&self, id: u64) -> (result: Result<&Vec<u8>, CacheError>)
        requires
            self.wf(),
        ensures
            match result {
                Ok(bytes) => self@.sounds.contains_key(id) && bytes@ == self@.sounds[id],
                Err(_) => !self@.sounds.contains_key(id),
            },
            !self@.knows(id) ==> result is Err,
    {
        match self.response_sounds.get(&id) {
            Some(bytes) => {
                assert(self@.sounds.contains_key(id));
                Ok(bytes)
            },
            None => Err(CacheError::NotFound),
        }
    }
}

/// The bytes of an optional byte string.
pub open spec fn bytes_of(bytes: Option<Vec<u8>>) -> Option<Seq<u8>> {
    match bytes {
        Some(bytes) => Some(bytes@),
        None => None,
    }
}

/// The result of a write: an error exactly where the event commits a
/// violation.
pub open spec fn refusal(violation: Option<ProtocolViolation>) -> Result<(), ProtocolViolation> {
    match violation {
        Some(violation) => Err(violation),
        None => Ok(()),
    }
}

} // verus!
