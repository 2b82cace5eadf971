use vstd::prelude::*;

use crate::session::{
    acknowledgment, next_state, responses, run, sent_on, Incoming, SessionState,
};

verus! {

/// The payload of a text frame (empty for any other frame).
pub open spec fn payload_of(event: Incoming) -> Seq<char> {
    match event {
        Incoming::Text(p) => p@,
        _ => Seq::empty(),
    }
}

/// Every frame in `events` is a text frame.
pub open spec fn all_text(events: Seq<Incoming>) -> bool {
    forall|i: int| 0 <= i < events.len() ==> (#[trigger] events[i]) is Text
}

/// The frames that client `c` sent, in the order the server read them, out
/// of frames from many clients tagged with their client.
pub open spec fn own_events(tagged: Seq<(u64, Incoming)>, c: u64) -> Seq<Incoming>
    decreases tagged.len(),
{
    if tagged.len() == 0 {
        Seq::empty()
    } else {
        let rest = own_events(tagged.drop_last(), c);
        if tagged.last().0 == c {
            rest.push(tagged.last().1)
        } else {
            rest
        }
    }
}

/// Every client's session state and the texts sent to it, after the server
/// has read the tagged frames of all its clients in the given global order;
/// a client appears once its first frame has been read.
pub open spec fn serve(tagged: Seq<(u64, Incoming)>) -> Map<
    u64,
    (SessionState, Seq<Seq<char>>),
>
    decreases tagged.len(),
{
    if tagged.len() == 0 {
        Map::empty()
    } else {
        let m = serve(tagged.drop_last());
        let c = tagged.last().0;
        let ev = tagged.last().1;
        let cur = if m.contains_key(c) {
            m[c]
        } else {
            (SessionState::AwaitingMessage, Seq::empty())
        };
        let out = match sent_on(cur.0, ev) {
            Some(t) => cur.1.push(t),
            None => cur.1,
        };
        m.insert(c, (next_state(cur.0, ev), out))
    }
}

/// Reading `a` and then `b` is reading `a + b`: the texts sent for `a`
/// come first, then those for `b`.
pub proof fn lemma_run_append(state: SessionState, a: Seq<Incoming>, b: Seq<Incoming>)
    ensures
        run(state, a + b) == (run(run(state, a).0, b).0, run(state, a).1 + run(
            run(state, a).0,
            b,
        ).1),
    decreases b.len(),
{
    if b.len() == 0 {
        assert(a + b =~= a);
        assert(run(state, a).1 + Seq::<Seq<char>>::empty() =~= run(state, a).1);
    } else {
        lemma_run_append(state, a, b.drop_last());
        assert((a + b).drop_last() =~= a + b.drop_last());
        assert((a + b).last() == b.last());
        let s1 = run(state, a).0;
        let o1 = run(state, a).1;
        let o2 = run(s1, b.drop_last()).1;
        let s2 = run(s1, b.drop_last()).0;
        if let Some(t) = sent_on(s2, b.last()) {
            assert((o1 + o2).push(t) =~= o1 + o2.push(t));
        }
    }
}

/// A closed session stays closed and sends nothing more, whatever it reads.
pub proof fn lemma_closed_is_silent(events: Seq<Incoming>)
    ensures
        run(SessionState::Closed, events) == (SessionState::Closed, Seq::<Seq<char>>::empty()),
    decreases events.len(),
{
    if events.len() > 0 {
        lemma_closed_is_silent(events.drop_last());
    }
}

/// Ordering: while the session is open, a text frame is answered with the
/// prefix followed by its payload, after every answer to earlier frames.
pub proof fn lemma_reply_follows_earlier(earlier: Seq<Incoming>, payload: String)
    requires
        run(SessionState::AwaitingMessage, earlier).0 == SessionState::AwaitingMessage,
    ensures
        responses(earlier.push(Incoming::Text(payload))) == responses(earlier).push(
            acknowledgment(payload@),
        ),
{
    assert(earlier.push(Incoming::Text(payload)).drop_last() =~= earlier);
}

/// Ordering: answers to earlier frames are never changed or reordered by
/// later frames; they stand first in what the client receives.
pub proof fn lemma_earlier_answers_first(earlier: Seq<Incoming>, later: Seq<Incoming>)
    ensures
        responses(earlier).is_prefix_of(responses(earlier + later)),
{
    lemma_run_append(SessionState::AwaitingMessage, earlier, later);
    let a = responses(earlier);
    let b = run(run(SessionState::AwaitingMessage, earlier).0, later).1;
    assert((a + b).subrange(0, a.len() as int) =~= a);
}

/// N text frames in a row on one connection are answered by exactly N
/// texts, the i-th being the prefix followed by the i-th payload, and the
/// session stays open.
pub proof fn lemma_n_messages_n_answers(events: Seq<Incoming>)
    requires
        all_text(events),
    ensures
        run(SessionState::AwaitingMessage, events).0 == SessionState::AwaitingMessage,
        responses(events).len() == events.len(),
        forall|i: int|
            0 <= i < events.len() ==> #[trigger] responses(events)[i] == acknowledgment(
                payload_of(events[i]),
            ),
    decreases events.len(),
{
    if events.len() > 0 {
        let prev = events.drop_last();
        assert(all_text(prev)) by {
            assert forall|i: int| 0 <= i < prev.len() implies (#[trigger] prev[i]) is Text by {
                assert(prev[i] == events[i]);
            }
        }
        lemma_n_messages_n_answers(prev);
        assert(events[events.len() - 1] is Text);
        assert forall|i: int| 0 <= i < events.len() implies #[trigger] responses(events)[i]
            == acknowledgment(payload_of(events[i])) by {
            if i < events.len() - 1 {
                assert(prev[i] == events[i]);
                assert(responses(events)[i] == responses(prev)[i]);
            }
        }
    }
}

/// A close frame ends the session: nothing read after it is answered, and
/// the session ends closed.
pub proof fn lemma_close_ends_session(before: Seq<Incoming>, after: Seq<Incoming>)
    ensures
        run(SessionState::AwaitingMessage, before.push(Incoming::Close) + after).0
            == SessionState::Closed,
        responses(before.push(Incoming::Close) + after) == responses(before),
{
    let closed = before.push(Incoming::Close);
    assert(closed.drop_last() =~= before);
    lemma_run_append(SessionState::AwaitingMessage, closed, after);
    lemma_closed_is_silent(after);
    assert(responses(closed) + Seq::<Seq<char>>::empty() =~= responses(closed));
}

/// Sessions are independent: however the frames of many clients interleave
/// in the server's global order, each client's session ends in the state,
/// and has sent the texts in the order, that it would reach serving that
/// client's own frames alone.
pub proof fn lemma_sessions_independent(tagged: Seq<(u64, Incoming)>, c: u64)
    ensures
        serve(tagged).contains_key(c) <==> own_events(tagged, c).len() > 0,
        serve(tagged).contains_key(c) ==> serve(tagged)[c] == run(
            SessionState::AwaitingMessage,
            own_events(tagged, c),
        ),
    decreases tagged.len(),
{
    if tagged.len() > 0 {
        let prev = tagged.drop_last();
        lemma_sessions_independent(prev, c);
        if tagged.last().0 == c {
            let own = own_events(tagged, c);
            assert(own.drop_last() =~= own_events(prev, c));
            let m = serve(prev);
            let cur = if m.contains_key(c) {
                m[c]
            } else {
                (SessionState::AwaitingMessage, Seq::<Seq<char>>::empty())
            };
            assert(cur == run(SessionState::AwaitingMessage, own_events(prev, c)));
            assert(own.last() == tagged.last().1);
            assert(serve(tagged)[c] == run(SessionState::AwaitingMessage, own));
        }
    }
}

} // verus!
