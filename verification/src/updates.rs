//! The update normalizer: collapses the envelope shapes one round-trip can
//! deliver into a canonical event sequence plus the entities referenced by
//! it.
//!
//! The transport round-trip itself is an external collaborator. A caller
//! performs one round-trip, hands the decoded envelopes to [`next_updates`],
//! and repeats while it reports that nothing arrived. Compact single-message
//! envelopes are expanded into full new-message events here, using the
//! caller's own identity to decide which side of the conversation is sender
//! and which is recipient.

use vstd::prelude::*;

use crate::entity_set::{batch_entities, EntitySet};
use crate::wire::{Envelope, Message, MsgData, Peer, ShortChatMessage, ShortMessage, Update};

verus! {

/// A broken protocol or session contract, distinct from any transport
/// failure: the condition cannot be recovered from by retrying.
#[derive(Clone, Copy, Debug, PartialEq, Eq, Structural)]
pub enum FatalError {
    /// More than one envelope arrived in a single round-trip; the transport
    /// contract guarantees at most one.
    MultipleEnvelopes,
    /// The resync-required signal arrived on the passive update path.
    ResponseOnlyTooLong,
    /// The sent-message echo arrived on the passive update path.
    ResponseOnlySentMessage,
    /// A compact single-message envelope arrived before the caller's own
    /// identity was known.
    MissingSelfId,
}

/// The canonical sequence of events still to be yielded by one
/// normalization result, in server order.
#[derive(Clone, Debug)]
pub enum UpdateIter {
    Single(Option<Update>),
    Multiple(Vec<Update>),
}

impl View for UpdateIter {
    type V = Seq<Update>;

    open spec fn view(&self) -> Seq<Update> {
        match self {
            UpdateIter::Single(u) => match u {
                Some(u) => seq![*u],
                None => Seq::empty(),
            },
            UpdateIter::Multiple(updates) => updates@.reverse(),
        }
    }
}

impl UpdateIter {
    /// An iterator over exactly the one given event.
    fn single(update: Update) -> (r: Self)
        ensures
            r@ == seq![update],
    {
        UpdateIter::Single(Some(update))
    }

    /// An iterator over the given events in their given order. The backing
    /// sequence is reversed so each yield is one pop from the end.
    fn multiple(updates: Vec<Update>) -> (r: Self)
        ensures
            r@ == updates@,
    {
        let ghost updates0 = updates@;
        let mut updates = updates;
        let mut rev: Vec<Update> = Vec::new();
        while updates.len() > 0
            invariant
                updates0 == updates@ + rev@.reverse(),
            decreases updates.len(),
        {
            let u = updates.pop().unwrap();
            rev.push(u);
            proof {
                assert(updates@ + rev@.reverse() =~= updates0);
            }
        }
        proof {
            assert(rev@.reverse() =~= updates0);
            assert(rev@.reverse().reverse() =~= rev@);
        }
        UpdateIter::Multiple(rev)
    }

    /// Yields the next event in server order, or none when the sequence is
    /// exhausted.
    pub fn next(&mut self) -> (r: Option<Update>)
        ensures
            old(self)@.len() == 0 ==> r is None && final(self)@ == old(self)@,
            old(self)@.len() > 0 ==> r == Some(old(self)@.first()) && final(self)@ == old(
                self,
            )@.drop_first(),
    {
        match self {
            UpdateIter::Single(update) => update.take(),
            UpdateIter::Multiple(updates) => {
                let r = updates.pop();
                proof {
                    if old(self)@.len() > 0 {
                        assert(updates@.reverse() =~= old(self)@.drop_first());
                    }
                }
                r
            },
        }
    }
}

/// The caller's identity used for synthesis; zero when unknown (in which
/// case no synthesizing classification succeeds).
pub open spec fn own_or_zero(own_user_id: Option<i32>) -> i32 {
    match own_user_id {
        Some(id) => id,
        None => 0,
    }
}

/// The full new-message event synthesized from a compact single-user
/// envelope: the direction bit and the caller's own id decide sender and
/// recipient, and every field the compact form lacks is explicitly absent.
pub open spec fn synth_short_message(u: ShortMessage, own_id: i32) -> Update {
    Update::NewMessage {
        message: Message::Message(
            MsgData {
                out: u.out,
                mentioned: u.mentioned,
                media_unread: u.media_unread,
                silent: u.silent,
                post: false,
                from_scheduled: false,
                legacy: false,
                edit_hide: false,
                id: u.id,
                from_id: Some(
                    Peer::User {
                        user_id: if u.out {
                            own_id
                        } else {
                            u.user_id
                        },
                    },
                ),
                peer_id: Peer::User {
                    user_id: if u.out {
                        u.user_id
                    } else {
                        own_id
                    },
                },
                fwd_from: u.fwd_from,
                via_bot_id: u.via_bot_id,
                reply_to: u.reply_to,
                date: u.date,
                message: u.message,
                media: None,
                reply_markup: None,
                entities: u.entities,
                views: None,
                forwards: None,
                replies: None,
                edit_date: None,
                post_author: None,
                grouped_id: None,
                restriction_reason: None,
            },
        ),
        pts: u.pts,
        pts_count: u.pts_count,
    }
}

/// The full new-message event synthesized from a compact group envelope:
/// sender and group are both carried explicitly, so the caller's identity is
/// not needed.
pub open spec fn synth_short_chat_message(u: ShortChatMessage) -> Update {
    Update::NewMessage {
        message: Message::Message(
            MsgData {
                out: u.out,
                mentioned: u.mentioned,
                media_unread: u.media_unread,
                silent: u.silent,
                post: false,
                from_scheduled: false,
                legacy: false,
                edit_hide: false,
                id: u.id,
                from_id: Some(Peer::User { user_id: u.from_id }),
                peer_id: Peer::Chat { chat_id: u.chat_id },
                fwd_from: u.fwd_from,
                via_bot_id: u.via_bot_id,
                reply_to: u.reply_to,
                date: u.date,
                message: u.message,
                media: None,
                reply_markup: None,
                entities: u.entities,
                views: None,
                forwards: None,
                replies: None,
                edit_date: None,
                post_author: None,
                grouped_id: None,
                restriction_reason: None,
            },
        ),
        pts: u.pts,
        pts_count: u.pts_count,
    }
}

/// The fatal contract violation one envelope provokes on the passive path,
/// if any: the two response-only shapes never belong here, and a compact
/// single-user envelope needs the caller's identity.
pub open spec fn fatal_of(own_user_id: Option<i32>, e: Envelope) -> Option<FatalError> {
    match e {
        Envelope::TooLong => Some(FatalError::ResponseOnlyTooLong),
        Envelope::ShortSentMessage(_) => Some(FatalError::ResponseOnlySentMessage),
        Envelope::ShortMessage(_) => if own_user_id is None {
            Some(FatalError::MissingSelfId)
        } else {
            None
        },
        _ => None,
    }
}

/// The canonical event sequence one envelope normalizes to, in server
/// order.
pub open spec fn events_of(own_id: i32, e: Envelope) -> Seq<Update> {
    match e {
        Envelope::Short(s) => seq![s.update],
        Envelope::Combined(c) => c.updates@,
        Envelope::Updates(u) => u.updates@,
        Envelope::ShortMessage(m) => seq![synth_short_message(m, own_id)],
        Envelope::ShortChatMessage(m) => seq![synth_short_chat_message(m)],
        _ => Seq::empty(),
    }
}

/// The entities one envelope carries: only the two multi-event shapes own a
/// batch; every other shape resolves no entities.
pub open spec fn envelope_entities(e: Envelope) -> Seq<crate::entity_set::Entity> {
    match e {
        Envelope::Combined(c) => batch_entities(c.users@, c.chats@),
        Envelope::Updates(u) => batch_entities(u.users@, u.chats@),
        _ => Seq::empty(),
    }
}

/// Whether one envelope's normalization owns an entity batch.
pub open spec fn owns_entities(e: Envelope) -> bool {
    match e {
        Envelope::Combined(_) => true,
        Envelope::Updates(_) => true,
        _ => false,
    }
}

/// Normalizes what one transport round-trip delivered.
///
/// An empty delivery is the protocol-level no-op: the result is no batch,
/// and the caller performs another round-trip. More than one envelope per
/// round-trip breaks the transport contract and is fatal, never truncated.
/// A single envelope is classified: the result owns exactly its events in
/// server order, together with the entity batch of the multi-event shapes,
/// and compact forms are expanded using the caller's identity
/// `own_user_id`.
pub fn next_updates(own_user_id: Option<i32>, envelopes: Vec<Envelope>) -> (r: Result<
    Option<(UpdateIter, EntitySet)>,
    FatalError,
>)
    ensures
        envelopes@.len() == 0 ==> (r matches Ok(b) && b is None),
        envelopes@.len() > 1 ==> r == Err::<Option<(UpdateIter, EntitySet)>, FatalError>(
            FatalError::MultipleEnvelopes,
        ),
        envelopes@.len() == 1 ==> match fatal_of(own_user_id, envelopes@[0]) {
            Some(err) => r == Err::<Option<(UpdateIter, EntitySet)>, FatalError>(err),
            None => (r matches Ok(b) && b matches Some(p) && p.0@ == events_of(
                own_or_zero(own_user_id),
                envelopes@[0],
            ) && p.1@ == envelope_entities(envelopes@[0]) && (!owns_entities(envelopes@[0])
                ==> p.1 == EntitySet::Empty) && (owns_entities(envelopes@[0]) ==> p.1 matches
                EntitySet::Owned { .. })),
        },
{
    let mut envelopes = envelopes;
    if envelopes.len() == 0 {
        return Ok(None);
    }
    if envelopes.len() != 1 {
        return Err(FatalError::MultipleEnvelopes);
    }
    let e = envelopes.pop().unwrap();
    match e {
        Envelope::Short(s) => Ok(Some((UpdateIter::single(s.update), EntitySet::empty()))),
        Envelope::Combined(c) => Ok(
            Some((UpdateIter::multiple(c.updates), EntitySet::from_parts(c.users, c.chats))),
        ),
        Envelope::Updates(u) => Ok(
            Some((UpdateIter::multiple(u.updates), EntitySet::from_parts(u.users, u.chats))),
        ),
        Envelope::ShortMessage(m) => match own_user_id {
            None => Err(FatalError::MissingSelfId),
            Some(own_id) => {
                let update = Update::NewMessage {
                    message: Message::Message(
                        MsgData {
                            out: m.out,
                            mentioned: m.mentioned,
                            media_unread: m.media_unread,
                            silent: m.silent,
                            post: false,
                            from_scheduled: false,
                            legacy: false,
                            edit_hide: false,
                            id: m.id,
                            from_id: Some(
                                Peer::User {
                                    user_id: if m.out {
                                        own_id
                                    } else {
                                        m.user_id
                                    },
                                },
                            ),
                            peer_id: Peer::User {
                                user_id: if m.out {
                                    m.user_id
                                } else {
                                    own_id
                                },
                            },
                            fwd_from: m.fwd_from,
                            via_bot_id: m.via_bot_id,
                            reply_to: m.reply_to,
                            date: m.date,
                            message: m.message,
                            media: None,
                            reply_markup: None,
                            entities: m.entities,
                            views: None,
                            forwards: None,
                            replies: None,
                            edit_date: None,
                            post_author: None,
                            grouped_id: None,
                            restriction_reason: None,
                        },
                    ),
                    pts: m.pts,
                    pts_count: m.pts_count,
                };
                Ok(Some((UpdateIter::single(update), EntitySet::empty())))
            },
        },
        Envelope::ShortChatMessage(m) => {
            let update = Update::NewMessage {
                message: Message::Message(
                    MsgData {
                        out: m.out,
                        mentioned: m.mentioned,
                        media_unread: m.media_unread,
                        silent: m.silent,
                        post: false,
                        from_scheduled: false,
                        legacy: false,
                        edit_hide: false,
                        id: m.id,
                        from_id: Some(Peer::User { user_id: m.from_id }),
                        peer_id: Peer::Chat { chat_id: m.chat_id },
                        fwd_from: m.fwd_from,
                        via_bot_id: m.via_bot_id,
                        reply_to: m.reply_to,
                        date: m.date,
                        message: m.message,
                        media: None,
                        reply_markup: None,
                        entities: m.entities,
                        views: None,
                        forwards: None,
                        replies: None,
                        edit_date: None,
                        post_author: None,
                        grouped_id: None,
                        restriction_reason: None,
                    },
                ),
                pts: m.pts,
                pts_count: m.pts_count,
            };
            Ok(Some((UpdateIter::single(update), EntitySet::empty())))
        },
        Envelope::TooLong => Err(FatalError::ResponseOnlyTooLong),
        Envelope::ShortSentMessage(_) => Err(FatalError::ResponseOnlySentMessage),
    }
}

/// A single-event envelope normalizes to exactly one event — the one it
/// carries — and to the empty entity context.
pub proof fn lemma_single_event_envelope(own_user_id: Option<i32>, s: crate::wire::ShortUpdate)
    ensures
        fatal_of(own_user_id, Envelope::Short(s)) is None,
        events_of(own_or_zero(own_user_id), Envelope::Short(s)) == seq![s.update],
        envelope_entities(Envelope::Short(s)) == Seq::<crate::entity_set::Entity>::empty(),
        !owns_entities(Envelope::Short(s)),
{
}

/// A multi-event envelope normalizes to exactly its events, in server
/// order, and its entity context resolves every entity of the batch by id:
/// looking up the id of any entity the batch carries yields an entity with
/// that id.
pub proof fn lemma_multi_event_envelope(own_user_id: Option<i32>, u: crate::wire::ManyUpdates)
    ensures
        fatal_of(own_user_id, Envelope::Updates(u)) is None,
        events_of(own_or_zero(own_user_id), Envelope::Updates(u)) == u.updates@,
        envelope_entities(Envelope::Updates(u)) == batch_entities(u.users@, u.chats@),
        forall|j: int|
            #![trigger batch_entities(u.users@, u.chats@)[j]]
            0 <= j < batch_entities(u.users@, u.chats@).len() ==> (crate::entity_set::lookup_spec(
                batch_entities(u.users@, u.chats@),
                crate::entity_set::entity_id_spec(batch_entities(u.users@, u.chats@)[j]),
            ) matches Some(e) && crate::entity_set::entity_id_spec(e)
                == crate::entity_set::entity_id_spec(batch_entities(u.users@, u.chats@)[j])),
{
    let ents = batch_entities(u.users@, u.chats@);
    assert forall|j: int|
        #![trigger ents[j]]
        0 <= j < ents.len() implies crate::entity_set::lookup_spec(
        ents,
        crate::entity_set::entity_id_spec(ents[j]),
    ) matches Some(e) && crate::entity_set::entity_id_spec(e) == crate::entity_set::entity_id_spec(
        ents[j],
    ) by {
        let id = crate::entity_set::entity_id_spec(ents[j]);
        crate::entity_set::lemma_lookup_resolves(ents, id);
    }
}

/// Direction of a synthesized compact message: when the direction bit says
/// outgoing, the sender is the caller and the recipient the envelope's
/// counterpart; when it says incoming, the two are swapped.
pub proof fn lemma_synthesized_direction(u: ShortMessage, own_id: i32)
    ensures
        synth_short_message(u, own_id) matches Update::NewMessage { message, .. }
            && message matches Message::Message(d) && (u.out ==> d.from_id == Some(
            Peer::User { user_id: own_id },
        ) && d.peer_id == (Peer::User { user_id: u.user_id })) && (!u.out ==> d.from_id == Some(
            Peer::User { user_id: u.user_id },
        ) && d.peer_id == (Peer::User { user_id: own_id })),
{
}

} // verus!
