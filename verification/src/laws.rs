//! What holds of every run of the consolidator: the laws of the cache,
//! proved over its mathematical model.

use crate::codec::image_in_body;
use crate::events::{CallView, OpenAiMessage, RequestView, ResponseView, ServiceMessage};
use crate::model::{
    exchanges, image_of, in_protocol, last_audio, only, record_of, request_of, requested,
    response_of, CacheView, Events, Outcome, ProtocolViolation, Slice,
};
use vstd::prelude::*;

verus! {

/// Opening a record keeps the tables in agreement with each other.
pub proof fn lemma_request_keeps_consistency(
    cache: CacheView,
    id: u64,
    request: RequestView,
    image: Option<Seq<u8>>,
)
    requires
        cache.consistent(),
    ensures
        cache.with_request(id, request, image).consistent(),
{
    let after = cache.with_request(id, request, image);
    if !cache.knows(id) {
        assert(!cache.ids.contains(id));
        assert forall|other: u64| after.ids.contains(other) <==> #[trigger] after.calls.contains_key(
            other,
        ) by {
            if after.ids.contains(other) {
                let i = choose|i: int| 0 <= i < after.ids.len() && after.ids[i] == other;
                if i < cache.ids.len() {
                    assert(cache.ids[i] == other);
                    assert(cache.ids.contains(other));
                }
            }
            if after.calls.contains_key(other) {
                if other == id {
                    assert(after.ids[cache.ids.len() as int] == id);
                } else {
                    assert(cache.ids.contains(other));
                    let i = choose|i: int| 0 <= i < cache.ids.len() && cache.ids[i] == other;
                    assert(after.ids[i] == other);
                }
            }
        }
        assert forall|i: int, j: int|
            0 <= i < after.ids.len() && 0 <= j < after.ids.len() && i != j implies after.ids[i]
            != after.ids[j] by {
            if i < cache.ids.len() {
                assert(cache.ids.contains(after.ids[i]));
            }
            if j < cache.ids.len() {
                assert(cache.ids.contains(after.ids[j]));
            }
        }
        assert forall|other: u64| #[trigger] after.calls.contains_key(other) implies after.slice(
            other,
        ).sound == last_audio(after.calls[other].openai_messages) by {
            if other != id {
                assert(cache.calls.contains_key(other));
            } else {
                assert(!cache.sounds.contains_key(id));
            }
        }
    }
}

/// Appending a provider exchange keeps the tables in agreement with each
/// other.
pub proof fn lemma_message_keeps_consistency(cache: CacheView, id: u64, message: OpenAiMessage)
    requires
        cache.consistent(),
    ensures
        cache.with_message(id, message).consistent(),
{
    let after = cache.with_message(id, message);
    if cache.knows(id) {
        let longer = cache.calls[id].openai_messages.push(message);
        assert(longer.drop_last() =~= cache.calls[id].openai_messages);
        assert(longer.last() == message);
        assert forall|other: u64| #[trigger] after.calls.contains_key(other) implies after.slice(
            other,
        ).sound == last_audio(after.calls[other].openai_messages) by {
            if other != id {
                assert(cache.calls.contains_key(other));
            }
        }
    }
}

/// Filling in an answer keeps the tables in agreement with each other.
pub proof fn lemma_response_keeps_consistency(cache: CacheView, id: u64, response: ResponseView)
    requires
        cache.consistent(),
    ensures
        cache.with_response(id, response).consistent(),
{
    let after = cache.with_response(id, response);
    assert forall|other: u64| #[trigger] after.calls.contains_key(other) implies after.slice(
        other,
    ).sound == last_audio(after.calls[other].openai_messages) by {
        assert(cache.calls.contains_key(other));
    }
}

/// Every event keeps the tables in agreement with each other, so a reader
/// that looks at the cache between two events never finds a record that is
/// half there.
pub proof fn lemma_step_keeps_consistency(cache: CacheView, id: u64, message: ServiceMessage)
    requires
        cache.consistent(),
    ensures
        cache.step(id, message).consistent(),
{
    match message {
        ServiceMessage::ClientRequest(headers, params, body) => {
            lemma_request_keeps_consistency(
                cache,
                id,
                request_of(headers@, params@, body@),
                image_of(image_in_body(body@)),
            );
        },
        ServiceMessage::OpenAiMessage(exchange) => {
            lemma_message_keeps_consistency(cache, id, exchange);
        },
        ServiceMessage::ClientResponse(headers, body) => {
            lemma_response_keeps_consistency(
                cache,
                id,
                response_of(headers@, body@),
            );
        },
    }
}

/// A sequence of events keeps the tables in agreement with each other.
pub proof fn lemma_fold_keeps_consistency(cache: CacheView, events: Events)
    requires
        cache.consistent(),
    ensures
        cache.fold(events).consistent(),
    decreases events.len(),
{
    if events.len() > 0 {
        lemma_step_keeps_consistency(cache, events[0].0, events[0].1);
        lemma_fold_keeps_consistency(cache.step(events[0].0, events[0].1), events.drop_first());
    }
}

/// A provider exchange or a client response for an identifier without a
/// record is rejected and leaves the cache as it was; for an identifier with
/// a record a provider exchange is never rejected.
pub proof fn lemma_record_comes_first(cache: CacheView, id: u64, message: ServiceMessage)
    requires
        !(message is ClientRequest),
    ensures
        !cache.knows(id) ==> cache.step(id, message) == cache && cache.outcome(id, message)
            == Outcome::Rejected(ProtocolViolation::UnknownRequest),
        cache.outcome(id, message) == Outcome::Recorded ==> cache.knows(id),
        cache.knows(id) && message is OpenAiMessage ==> cache.outcome(id, message)
            == Outcome::Recorded,
{
}

/// Folding a sequence with one more event at its end is folding the
/// sequence and then taking the event.
pub proof fn lemma_fold_one_more(cache: CacheView, events: Events, id: u64, message: ServiceMessage)
    ensures
        cache.fold(events.push((id, message))) == cache.fold(events).step(id, message),
    decreases events.len(),
{
    let longer = events.push((id, message));
    if events.len() == 0 {
        assert(longer.drop_first() =~= events);
        assert(cache.step(id, message).fold(events) == cache.step(id, message));
    } else {
        assert(longer.drop_first() =~= events.drop_first().push((id, message)));
        lemma_fold_one_more(cache.step(events[0].0, events[0].1), events.drop_first(), id, message);
    }
}

/// An event for one identifier leaves all that the cache holds for every
/// other identifier as it was.
pub proof fn lemma_step_frame(cache: CacheView, id: u64, message: ServiceMessage, other: u64)
    requires
        other != id,
    ensures
        cache.step(id, message).slice(other) == cache.slice(other),
{
}

/// What an event does to the holdings of its own identifier depends on
/// those holdings alone.
pub proof fn lemma_step_local(a: CacheView, b: CacheView, id: u64, message: ServiceMessage)
    requires
        a.slice(id) == b.slice(id),
    ensures
        a.step(id, message).slice(id) == b.step(id, message).slice(id),
        a.outcome(id, message) == b.outcome(id, message),
{
}

/// Two caches that hold the same for `id` still do so after the events of
/// `id` among `events`.
pub proof fn lemma_fold_local(a: CacheView, b: CacheView, events: Events, id: u64)
    requires
        a.slice(id) == b.slice(id),
    ensures
        a.fold(only(events, id)).slice(id) == b.fold(only(events, id)).slice(id),
    decreases events.len(),
{
    if events.len() > 0 {
        let rest = events.drop_first();
        if events[0].0 == id {
            let mine = only(events, id);
            assert(mine[0] == events[0]);
            assert(mine.drop_first() =~= only(rest, id));
            lemma_step_local(a, b, id, events[0].1);
            lemma_fold_local(a.step(id, events[0].1), b.step(id, events[0].1), rest, id);
        } else {
            lemma_fold_local(a, b, rest, id);
        }
    }
}

/// Isolation: whatever events of other requests are interleaved with those
/// of `id`, the cache ends up holding for `id` exactly what the events of
/// `id` alone would have produced.
pub proof fn lemma_isolation(cache: CacheView, events: Events, id: u64)
    ensures
        cache.fold(events).slice(id) == cache.fold(only(events, id)).slice(id),
    decreases events.len(),
{
    if events.len() > 0 {
        let first = events[0];
        let rest = events.drop_first();
        let next = cache.step(first.0, first.1);
        lemma_isolation(next, rest, id);
        if first.0 == id {
            let mine = only(events, id);
            assert(mine[0] == first);
            assert(mine.drop_first() =~= only(rest, id));
        } else {
            lemma_step_frame(cache, first.0, first.1, id);
            lemma_fold_local(next, cache, rest, id);
        }
    }
}

/// Order preservation: after any sequence of events, the record of a request
/// that was already open holds the exchanges it had, followed by the
/// exchanges of that request among the events, in the order in which they
/// were sent.
pub proof fn lemma_order_preserved(cache: CacheView, events: Events, id: u64)
    requires
        cache.knows(id),
    ensures
        cache.fold(events).knows(id),
        cache.fold(events).calls[id].openai_messages == cache.calls[id].openai_messages
            + exchanges(events, id),
        cache.fold(events).calls[id].client_request == cache.calls[id].client_request,
    decreases events.len(),
{
    if events.len() > 0 {
        let first = events[0];
        let rest = events.drop_first();
        let next = cache.step(first.0, first.1);
        lemma_order_preserved(next, rest, id);
        assert(next.calls[id].openai_messages + exchanges(rest, id)
            =~= cache.calls[id].openai_messages + exchanges(events, id));
    } else {
        assert(cache.calls[id].openai_messages + exchanges(events, id)
            =~= cache.calls[id].openai_messages);
    }
}

/// From the client request that opens it, a record collects the exchanges
/// of its request in the order in which they were sent, and nothing else;
/// exchanges that came before the client request are not part of it.
pub proof fn lemma_order_after_request(cache: CacheView, events: Events, id: u64)
    requires
        !cache.knows(id),
        events.len() > 0,
        events[0].0 == id,
        events[0].1 is ClientRequest,
    ensures
        cache.fold(events).knows(id),
        cache.fold(events).calls[id].openai_messages == exchanges(events.drop_first(), id),
{
    let opened = cache.step(id, events[0].1);
    lemma_order_preserved(opened, events.drop_first(), id);
    assert(opened.calls[id].openai_messages + exchanges(events.drop_first(), id) =~= exchanges(
        events.drop_first(),
        id,
    ));
}

/// The events of `id` among any events all carry `id`.
pub proof fn lemma_only_belongs(events: Events, id: u64)
    ensures
        forall|i: int| 0 <= i < only(events, id).len() ==> (#[trigger] only(events, id)[i]).0 == id,
    decreases events.len(),
{
    if events.len() > 0 {
        let rest = only(events.drop_first(), id);
        lemma_only_belongs(events.drop_first(), id);
        assert forall|i: int| 0 <= i < only(events, id).len() implies (#[trigger] only(
            events,
            id,
        )[i]).0 == id by {
            if events[0].0 == id && i > 0 {
                assert(only(events, id)[i] == rest[i - 1]);
            }
        }
    }
}

/// An event that is no provider exchange, written after a sequence, adds no
/// exchange to it.
pub proof fn lemma_exchanges_ignore(events: Events, last: (u64, ServiceMessage), id: u64)
    requires
        !(last.1 is OpenAiMessage),
    ensures
        exchanges(events.push(last), id) == exchanges(events, id),
    decreases events.len(),
{
    let longer = events.push(last);
    if events.len() == 0 {
        assert(longer.drop_first() =~= events);
    } else {
        assert(longer.drop_first() =~= events.drop_first().push(last));
        lemma_exchanges_ignore(events.drop_first(), last, id);
    }
}

/// Provider exchanges of a request that has a record are all appended to
/// it, and leave the rest of the record as it is.
pub proof fn lemma_exchanges_run(cache: CacheView, events: Events, id: u64)
    requires
        cache.knows(id),
        forall|i: int|
            0 <= i < events.len() ==> (#[trigger] events[i]).0 == id && events[i].1 is OpenAiMessage,
    ensures
        cache.fold(events).knows(id),
        cache.fold(events).calls[id] == (CallView {
            openai_messages: cache.calls[id].openai_messages + exchanges(events, id),
            ..cache.calls[id]
        }),
    decreases events.len(),
{
    if events.len() == 0 {
        assert(cache.calls[id].openai_messages + exchanges(events, id)
            =~= cache.calls[id].openai_messages);
    } else {
        let first = events[0];
        let rest = events.drop_first();
        let next = cache.step(first.0, first.1);
        assert forall|i: int| 0 <= i < rest.len() implies (#[trigger] rest[i]).0 == id
            && rest[i].1 is OpenAiMessage by {
            assert(rest[i] == events[i + 1]);
        }
        lemma_exchanges_run(next, rest, id);
        assert(next.calls[id].openai_messages + exchanges(rest, id)
            =~= cache.calls[id].openai_messages + exchanges(events, id));
    }
}

/// A request whose events are in protocol ends up, in a cache that started
/// empty, with exactly the record of those events, whatever events of other
/// requests came in between; its image is the one in the payload of its
/// client request, and its sound the latest audio among its exchanges.
pub proof fn lemma_protocol_run(events: Events, id: u64)
    requires
        in_protocol(only(events, id)),
    ensures
        CacheView::empty().fold(events).slice(id) == (Slice {
            call: Some(record_of(only(events, id))),
            image: match only(events, id)[0].1 {
                ServiceMessage::ClientRequest(_, _, body) => image_of(image_in_body(body@)),
                _ => None,
            },
            sound: last_audio(record_of(only(events, id)).openai_messages),
        }),
{
    let mine = only(events, id);
    let rest = mine.drop_first();
    let start = CacheView::empty();
    lemma_isolation(start, events, id);
    lemma_only_belongs(events, id);
    assert(mine[0].0 == id);
    let opened = start.step(id, mine[0].1);
    assert(start.fold(mine) == opened.fold(rest));
    assert(opened.knows(id));
    lemma_record_only_grows(opened, rest, id);
    assert(start.consistent());
    lemma_fold_keeps_consistency(start, mine);
    assert(opened.calls[id].openai_messages =~= Seq::empty());
    assert forall|i: int| 0 <= i < rest.len() implies (#[trigger] rest[i]).0 == id by {
        assert(rest[i] == mine[i + 1]);
    }
    if mine.len() > 1 && mine.last().1 is ClientResponse {
        let front = rest.drop_last();
        let last = rest.last();
        assert(last == mine.last());
        assert(rest =~= front.push(last));
        assert forall|i: int| 0 <= i < front.len() implies (#[trigger] front[i]).0 == id
            && front[i].1 is OpenAiMessage by {
            assert(front[i] == mine[i + 1]);
        }
        lemma_exchanges_run(opened, front, id);
        lemma_fold_one_more(opened, front, id, last.1);
        lemma_exchanges_ignore(front, last, id);
        assert(Seq::<OpenAiMessage>::empty() + exchanges(front, id) =~= exchanges(front, id));
    } else {
        assert forall|i: int| 0 <= i < rest.len() implies (#[trigger] rest[i]).0 == id
            && rest[i].1 is OpenAiMessage by {
            assert(rest[i] == mine[i + 1]);
        }
        lemma_exchanges_run(opened, rest, id);
        assert(Seq::<OpenAiMessage>::empty() + exchanges(rest, id) =~= exchanges(rest, id));
    }
}

/// A record is written to in two ways only: exchanges are appended, and the
/// answer is filled in once. Its image and an answer that it has stay as
/// they are, whatever events follow.
pub proof fn lemma_record_only_grows(cache: CacheView, events: Events, id: u64)
    requires
        cache.knows(id),
    ensures
        cache.fold(events).knows(id),
        cache.fold(events).slice(id).image == cache.slice(id).image,
        cache.calls[id].client_response.is_some() ==> cache.fold(events).calls[id].client_response
            == cache.calls[id].client_response,
    decreases events.len(),
{
    if events.len() > 0 {
        let first = events[0];
        lemma_record_only_grows(cache.step(first.0, first.1), events.drop_first(), id);
    }
}

/// A record exists after a sequence of events exactly if it existed before
/// or a client request for its identifier is among the events.
pub proof fn lemma_record_iff_requested(cache: CacheView, events: Events, id: u64)
    ensures
        cache.fold(events).knows(id) <==> cache.knows(id) || requested(events, id),
    decreases events.len(),
{
    if events.len() > 0 {
        let first = events[0];
        let rest = events.drop_first();
        let next = cache.step(first.0, first.1);
        lemma_record_iff_requested(next, rest, id);
        if requested(rest, id) {
            let i = choose|i: int|
                0 <= i < rest.len() && (#[trigger] rest[i]).0 == id && rest[i].1 is ClientRequest;
            assert(events[i + 1] == rest[i]);
        }
        if requested(events, id) {
            let i = choose|i: int|
                0 <= i < events.len() && (#[trigger] events[i]).0 == id
                    && events[i].1 is ClientRequest;
            if i > 0 {
                assert(rest[i - 1] == events[i]);
            }
        }
    }
}

/// An identifier that no event has named has nothing in a cache that
/// started empty: no record, no image, no sound.
pub proof fn lemma_unseen_id_is_absent(events: Events, id: u64)
    requires
        forall|i: int| 0 <= i < events.len() ==> (#[trigger] events[i]).0 != id,
    ensures
        CacheView::empty().fold(events).slice(id) == (Slice {
            call: None,
            image: None,
            sound: None,
        }),
    decreases events.len(),
{
    lemma_isolation(CacheView::empty(), events, id);
    lemma_only_of_strangers(events, id);
}

/// Where no event belongs to `id`, the events of `id` are none.
pub proof fn lemma_only_of_strangers(events: Events, id: u64)
    requires
        forall|i: int| 0 <= i < events.len() ==> (#[trigger] events[i]).0 != id,
    ensures
        only(events, id) == Seq::<(u64, ServiceMessage)>::empty(),
    decreases events.len(),
{
    if events.len() > 0 {
        let rest = events.drop_first();
        assert forall|i: int| 0 <= i < rest.len() implies (#[trigger] rest[i]).0 != id by {
            assert(rest[i] == events[i + 1]);
        }
        lemma_only_of_strangers(rest, id);
    }
}

} // verus!
