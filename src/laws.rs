//! Properties that hold across the encoder and across successive calls of
//! the sequencer.
use vstd::prelude::*;
use crate::encode::{json_object, record_body, record_time, value_text};
use crate::event::{key_is_not, lookup, message_key, removed, stamp_of, structured, timestamp_key, Field};
use crate::sequencer::{accept_allowed, after_accept, after_polls, after_slot, token_of, SlotOutcome, State};

verus! {

/// A record of an event without a timestamp carries the time at which it
/// was encoded.
pub proof fn untimed_record_takes_encode_time(fields: Seq<Field>, now: i64)
    requires
        stamp_of(fields) is None,
    ensures
        record_time(fields, now) == now,
{
}

/// With no encoding configured, a structured event becomes a JSON object of
/// all its fields but the timestamp: every other field is among them, and no
/// member has the timestamp's key.
pub proof fn structured_body_omits_timestamp(fields: Seq<Field>)
    requires
        structured(removed(fields, timestamp_key())),
    ensures
        record_body(None, fields) == json_object(removed(fields, timestamp_key())),
        forall|i: int| 0 <= i < removed(fields, timestamp_key()).len()
            ==> (#[trigger] removed(fields, timestamp_key())[i]).key@ != timestamp_key(),
        forall|i: int| 0 <= i < fields.len() && (#[trigger] fields[i]).key@ != timestamp_key()
            ==> removed(fields, timestamp_key()).contains(fields[i]),
{
    let p = key_is_not(timestamp_key());
    assert forall|i: int| 0 <= i < removed(fields, timestamp_key()).len()
        implies (#[trigger] removed(fields, timestamp_key())[i]).key@ != timestamp_key() by {
        fields.lemma_filter_pred(p, i);
    }
    assert forall|i: int| 0 <= i < fields.len() && (#[trigger] fields[i]).key@ != timestamp_key()
        implies removed(fields, timestamp_key()).contains(fields[i]) by {
        fields.lemma_filter_contains_rev(p, fields[i]);
    }
}

proof fn lemma_lookup_removed(s: Seq<Field>, gone: Seq<char>, k: Seq<char>)
    requires
        gone != k,
    ensures
        lookup(removed(s, gone), k) == lookup(s, k),
    decreases s.len(),
{
    reveal(Seq::filter);
    if s.len() > 0 {
        lemma_lookup_removed(s.drop_last(), gone, k);
        let r = removed(s.drop_last(), gone);
        if s.last().key@ != gone {
            assert(removed(s, gone) == r.push(s.last()));
            assert(r.push(s.last()).drop_last() =~= r);
        } else {
            assert(removed(s, gone) == r);
        }
    }
}

/// With no encoding configured, an unstructured event becomes the text of
/// its message field, or nothing where it has none.
pub proof fn unstructured_body_is_message(fields: Seq<Field>)
    requires
        !structured(removed(fields, timestamp_key())),
    ensures
        record_body(None, fields) == match lookup(fields, message_key()) {
            Some(v) => value_text(v),
            None => Seq::<char>::empty(),
        },
{
    reveal_strlit("message");
    reveal_strlit("timestamp");
    assert(message_key().len() != timestamp_key().len());
    lemma_lookup_removed(fields, timestamp_key(), message_key());
}

/// A batch is accepted only in `Ready`, never in `Idle`, `Describing` or
/// `Writing`. Once one is accepted the sequencer is `Writing`, and no number
/// of readiness polls makes it ready again: only a delivered outcome of that
/// write does, while a closed completion slot sends it back to `Idle`.
pub proof fn one_write_in_flight(s: State, polls: nat)
    requires
        accept_allowed(s),
    ensures
        s is Ready,
        !accept_allowed(State::Idle),
        !accept_allowed(State::Describing),
        !accept_allowed(State::Writing),
        after_polls(after_accept(), polls) == after_accept(),
        !accept_allowed(after_polls(after_accept(), polls)),
        forall|o: SlotOutcome| accept_allowed(#[trigger] after_slot(o)) <==> o is Delivered,
    decreases polls,
{
    if polls > 0 {
        one_write_in_flight(s, (polls - 1) as nat);
    }
}

/// The tokens that successive writes carry, starting in state `s`, where the
/// response to the k-th write names `replies[k]` as the next token.
pub open spec fn tokens_used(s: State, replies: Seq<Option<String>>) -> Seq<Option<String>>
    decreases replies.len(),
{
    if replies.len() == 0 || !accept_allowed(s) {
        Seq::empty()
    } else {
        seq![token_of(s)] + tokens_used(
            after_slot(SlotOutcome::Delivered(replies[0])),
            replies.drop_first(),
        )
    }
}

/// Over successive successful writes, each write after the first carries the
/// token that the response to the write before it named.
pub proof fn tokens_follow_responses(first: Option<String>, replies: Seq<Option<String>>)
    ensures
        tokens_used(State::Ready(first), replies).len() == replies.len(),
        replies.len() > 0 ==> tokens_used(State::Ready(first), replies)[0] == first,
        forall|k: int| 1 <= k < replies.len()
            ==> #[trigger] tokens_used(State::Ready(first), replies)[k] == replies[k - 1],
    decreases replies.len(),
{
    if replies.len() > 0 {
        let rest = replies.drop_first();
        tokens_follow_responses(replies[0], rest);
        let inner = tokens_used(State::Ready(replies[0]), rest);
        assert(tokens_used(State::Ready(first), replies) == seq![first] + inner);
        assert forall|k: int| 1 <= k < replies.len()
            implies #[trigger] tokens_used(State::Ready(first), replies)[k] == replies[k - 1] by {
            assert(tokens_used(State::Ready(first), replies)[k] == inner[k - 1]);
            if k >= 2 {
                assert(rest[k - 2] == replies[k - 1]);
            }
        }
    }
}

} // verus!
