use chatwire::entity_set::EntitySet;
use chatwire::updates::{next_updates, FatalError, UpdateIter};
use chatwire::wire::{
    Envelope, ManyUpdates, Message, Peer, ShortChatMessage, ShortMessage, ShortSentMessage,
    ShortUpdate, Update, User, WireChat, WireUser,
};

fn status_update(user_id: i32) -> Update {
    Update::UserStatus { user_id, online: true }
}

fn short_message(out: bool, id: i32, user_id: i32, text: &str) -> ShortMessage {
    ShortMessage {
        out,
        mentioned: false,
        media_unread: false,
        silent: false,
        id,
        user_id,
        message: String::from(text),
        pts: 10,
        pts_count: 1,
        date: 1600000000,
        fwd_from: None,
        via_bot_id: None,
        reply_to: None,
        entities: None,
    }
}

fn wire_user(id: i32) -> WireUser {
    WireUser::User(User {
        id,
        access_hash: Some(5),
        first_name: Some(String::from("a")),
        username: None,
        bot: false,
    })
}

fn drain(mut iter: UpdateIter) -> Vec<Update> {
    let mut out = Vec::new();
    while let Some(u) = iter.next() {
        out.push(u);
    }
    out
}

#[test]
fn single_event_envelope_yields_one_event_and_empty_context() {
    let envelope = Envelope::Short(ShortUpdate { update: status_update(7), date: 0 });
    let (iter, entities) = next_updates(None, vec![envelope]).unwrap().unwrap();
    assert!(matches!(entities, EntitySet::Empty));
    let events = drain(iter);
    assert_eq!(events.len(), 1);
    assert!(matches!(events[0], Update::UserStatus { user_id: 7, online: true }));
}

#[test]
fn empty_roundtrip_is_a_noop() {
    let r = next_updates(Some(1), Vec::new());
    assert!(matches!(r, Ok(None)));
}

#[test]
fn two_envelopes_in_one_roundtrip_are_fatal() {
    let a = Envelope::Short(ShortUpdate { update: status_update(1), date: 0 });
    let b = Envelope::Short(ShortUpdate { update: status_update(2), date: 0 });
    let r = next_updates(Some(1), vec![a, b]);
    assert_eq!(r.unwrap_err(), FatalError::MultipleEnvelopes);
}

#[test]
fn multi_event_envelope_keeps_server_order_and_resolves_entities() {
    let envelope = Envelope::Updates(ManyUpdates {
        updates: vec![status_update(1), status_update(2), status_update(3)],
        users: vec![wire_user(11), wire_user(12)],
        chats: vec![WireChat::Chat(chatwire::wire::Chat {
            id: 13,
            title: String::from("g"),
            participants_count: 2,
        })],
        date: 0,
        seq: 0,
    });
    let (iter, entities) = next_updates(None, vec![envelope]).unwrap().unwrap();
    let events = drain(iter);
    assert_eq!(events.len(), 3);
    for (k, expected) in [1, 2, 3].iter().enumerate() {
        match events[k] {
            Update::UserStatus { user_id, .. } => assert_eq!(user_id, *expected),
            _ => panic!("unexpected event"),
        }
    }
    for id in [11, 12, 13] {
        let found = entities.lookup(id).expect("entity must resolve");
        match found {
            chatwire::entity_set::Entity::User(u) => assert_eq!(u.id, id),
            chatwire::entity_set::Entity::Chat(c) => assert_eq!(c.id, id),
            chatwire::entity_set::Entity::Channel(c) => assert_eq!(c.id, id),
        }
    }
    assert!(entities.lookup(99).is_none());
}

#[test]
fn outgoing_short_message_puts_self_as_sender() {
    let envelope = Envelope::ShortMessage(short_message(true, 5, 99, "hi"));
    let (iter, entities) = next_updates(Some(7), vec![envelope]).unwrap().unwrap();
    assert!(matches!(entities, EntitySet::Empty));
    let events = drain(iter);
    assert_eq!(events.len(), 1);
    match &events[0] {
        Update::NewMessage { message: Message::Message(d), pts, pts_count } => {
            assert_eq!(*pts, 10);
            assert_eq!(*pts_count, 1);
            assert_eq!(d.from_id, Some(Peer::User { user_id: 7 }));
            assert_eq!(d.peer_id, Peer::User { user_id: 99 });
            assert_eq!(d.id, 5);
            assert_eq!(d.message, "hi");
            assert!(!d.post && !d.from_scheduled && !d.legacy && !d.edit_hide);
            assert!(d.media.is_none());
            assert!(d.reply_markup.is_none());
            assert!(d.views.is_none());
            assert!(d.forwards.is_none());
            assert!(d.replies.is_none());
            assert!(d.edit_date.is_none());
            assert!(d.post_author.is_none());
            assert!(d.grouped_id.is_none());
            assert!(d.restriction_reason.is_none());
        }
        _ => panic!("expected a synthesized new-message event"),
    }
}

#[test]
fn incoming_short_message_puts_counterpart_as_sender() {
    let envelope = Envelope::ShortMessage(short_message(false, 5, 99, "hi"));
    let (iter, _) = next_updates(Some(7), vec![envelope]).unwrap().unwrap();
    let events = drain(iter);
    match &events[0] {
        Update::NewMessage { message: Message::Message(d), .. } => {
            assert_eq!(d.from_id, Some(Peer::User { user_id: 99 }));
            assert_eq!(d.peer_id, Peer::User { user_id: 7 });
        }
        _ => panic!("expected a synthesized new-message event"),
    }
}

#[test]
fn short_message_without_self_id_is_fatal() {
    let envelope = Envelope::ShortMessage(short_message(true, 5, 99, "hi"));
    let r = next_updates(None, vec![envelope]);
    assert_eq!(r.unwrap_err(), FatalError::MissingSelfId);
}

#[test]
fn short_chat_message_carries_sender_and_group() {
    let envelope = Envelope::ShortChatMessage(ShortChatMessage {
        out: false,
        mentioned: false,
        media_unread: false,
        silent: false,
        id: 8,
        from_id: 21,
        chat_id: 33,
        message: String::from("yo"),
        pts: 2,
        pts_count: 1,
        date: 0,
        fwd_from: None,
        via_bot_id: None,
        reply_to: None,
        entities: None,
    });
    let (iter, entities) = next_updates(None, vec![envelope]).unwrap().unwrap();
    assert!(matches!(entities, EntitySet::Empty));
    let events = drain(iter);
    match &events[0] {
        Update::NewMessage { message: Message::Message(d), .. } => {
            assert_eq!(d.from_id, Some(Peer::User { user_id: 21 }));
            assert_eq!(d.peer_id, Peer::Chat { chat_id: 33 });
        }
        _ => panic!("expected a synthesized new-message event"),
    }
}

#[test]
fn too_long_on_passive_path_is_fatal() {
    let r = next_updates(Some(1), vec![Envelope::TooLong]);
    assert_eq!(r.unwrap_err(), FatalError::ResponseOnlyTooLong);
}

#[test]
fn sent_message_echo_on_passive_path_is_fatal() {
    let echo = Envelope::ShortSentMessage(ShortSentMessage {
        out: true,
        id: 1,
        pts: 1,
        pts_count: 1,
        date: 0,
    });
    let r = next_updates(Some(1), vec![echo]);
    assert_eq!(r.unwrap_err(), FatalError::ResponseOnlySentMessage);
}

#[test]
fn entity_set_from_parts_drops_placeholders() {
    let set = EntitySet::from_parts(
        vec![wire_user(1), WireUser::Empty { id: 2 }],
        vec![WireChat::Forbidden { id: 3 }],
    );
    assert!(set.lookup(1).is_some());
    assert!(set.lookup(2).is_none());
    assert!(set.lookup(3).is_none());
}
