use chatwire::dialogs::{Dialog, Dialogs, MAX_DIALOGS_PER_REQUEST};
use chatwire::entity_set::Entity;
use chatwire::wire::{
    DialogData, DialogDesc, DialogsResult, EmptyMsg, FolderData, InputPeer, Message, MsgData, Peer,
    User, WireChat, WireUser,
};

fn wire_user(id: i32) -> WireUser {
    named_wire_user(id, "u")
}

fn named_wire_user(id: i32, name: &str) -> WireUser {
    WireUser::User(User {
        id,
        access_hash: Some(77),
        first_name: Some(String::from(name)),
        username: None,
        bot: false,
    })
}

fn descriptor(user_id: i32, top_message: i32) -> DialogDesc {
    DialogDesc::Dialog(DialogData {
        pinned: false,
        peer: Peer::User { user_id },
        top_message,
        unread_count: 0,
    })
}

fn full_message(user_id: i32, id: i32, date: i32) -> Message {
    Message::Message(MsgData {
        out: false,
        mentioned: false,
        media_unread: false,
        silent: false,
        post: false,
        from_scheduled: false,
        legacy: false,
        edit_hide: false,
        id,
        from_id: Some(Peer::User { user_id }),
        peer_id: Peer::User { user_id },
        fwd_from: None,
        via_bot_id: None,
        reply_to: None,
        date,
        message: String::from("m"),
        media: None,
        reply_markup: None,
        entities: None,
        views: None,
        forwards: None,
        replies: None,
        edit_date: None,
        post_author: None,
        grouped_id: None,
        restriction_reason: None,
    })
}

fn drain(listing: &mut Dialogs) -> Vec<Dialog> {
    let mut out = Vec::new();
    while let Some(d) = listing.take_buffered() {
        out.push(d);
    }
    out
}

fn page(count: i32, n: i32, first_id: i32) -> DialogsResult {
    let mut users = Vec::new();
    let mut dialogs = Vec::new();
    for k in 0..n {
        users.push(wire_user(first_id + k));
        dialogs.push(descriptor(first_id + k, 0));
    }
    DialogsResult::Slice { count, dialogs, messages: Vec::new(), chats: Vec::new(), users }
}

#[test]
fn slice_pages_track_total_and_done() {
    let mut listing = Dialogs::iter();
    assert_eq!(listing.known_total(), None);
    assert!(listing.needs_more());
    assert_eq!(listing.request().limit, MAX_DIALOGS_PER_REQUEST);
    listing.fetch_page(page(250, 100, 0));
    assert_eq!(listing.known_total(), Some(250));
    assert!(!listing.needs_more());
    let first = drain(&mut listing);
    assert_eq!(first.len(), 100);
    assert!(listing.needs_more());
    listing.fetch_page(page(250, 30, 1000));
    assert_eq!(listing.known_total(), Some(250));
    let second = drain(&mut listing);
    assert_eq!(second.len(), 30);
    assert!(!listing.needs_more());
    assert!(listing.take_buffered().is_none());
}

#[test]
fn full_list_is_terminal_and_keeps_cursor() {
    let mut listing = Dialogs::iter();
    let before = listing.request();
    listing.fetch_page(DialogsResult::Dialogs {
        dialogs: vec![descriptor(1, 0), descriptor(2, 0)],
        messages: Vec::new(),
        chats: Vec::new(),
        users: vec![wire_user(1), wire_user(2)],
    });
    assert_eq!(listing.known_total(), Some(2));
    assert!(!listing.needs_more());
    let after = listing.request();
    assert_eq!(before, after);
    let items = drain(&mut listing);
    assert_eq!(items.len(), 2);
    assert!(!listing.needs_more());
}

#[test]
fn not_modified_is_terminal_and_buffers_nothing() {
    let mut listing = Dialogs::iter();
    listing.fetch_page(DialogsResult::NotModified { count: 5 });
    assert_eq!(listing.known_total(), Some(5));
    assert!(listing.take_buffered().is_none());
    assert!(!listing.needs_more());
}

#[test]
fn unresolved_descriptor_is_dropped_silently() {
    let mut listing = Dialogs::iter();
    listing.fetch_page(DialogsResult::Dialogs {
        dialogs: vec![descriptor(1, 0), descriptor(2, 0)],
        messages: Vec::new(),
        chats: Vec::new(),
        users: vec![wire_user(1)],
    });
    let items = drain(&mut listing);
    assert_eq!(items.len(), 1);
    match &items[0].entity {
        Entity::User(u) => assert_eq!(u.id, 1),
        _ => panic!("expected the resolvable user dialog"),
    }
}

#[test]
fn folders_are_never_dialogs() {
    let mut listing = Dialogs::iter();
    listing.fetch_page(DialogsResult::Dialogs {
        dialogs: vec![descriptor(1, 0), DialogDesc::Folder(FolderData { id: 4 })],
        messages: Vec::new(),
        chats: Vec::new(),
        users: vec![wire_user(1)],
    });
    let items = drain(&mut listing);
    assert_eq!(items.len(), 1);
}

#[test]
fn output_order_matches_server_order() {
    let mut listing = Dialogs::iter();
    listing.fetch_page(DialogsResult::Dialogs {
        dialogs: vec![descriptor(3, 0), descriptor(1, 0), descriptor(2, 0)],
        messages: Vec::new(),
        chats: Vec::new(),
        users: vec![wire_user(1), wire_user(2), wire_user(3)],
    });
    let items = drain(&mut listing);
    let order: Vec<i32> = items
        .iter()
        .map(|d| match d.dialog.peer {
            Peer::User { user_id } => user_id,
            _ => panic!("expected user peers"),
        })
        .collect();
    assert_eq!(order, vec![3, 1, 2]);
}

#[test]
fn dialogs_join_their_last_message() {
    let mut listing = Dialogs::iter();
    listing.fetch_page(DialogsResult::Dialogs {
        dialogs: vec![descriptor(1, 40), descriptor(2, 41)],
        messages: vec![full_message(1, 40, 900)],
        chats: Vec::new(),
        users: vec![wire_user(1), wire_user(2)],
    });
    let items = drain(&mut listing);
    assert_eq!(items.len(), 2);
    match &items[0].last_message {
        Some(Message::Message(d)) => {
            assert_eq!(d.id, 40);
            assert_eq!(d.date, 900);
        }
        _ => panic!("first dialog must join its message"),
    }
    assert!(items[1].last_message.is_none());
}

#[test]
fn cursor_comes_from_first_buffered_dialog_with_message() {
    let mut listing = Dialogs::iter();
    // The buffer holds the page reversed, so its first element is the last
    // descriptor the server listed: that dialog's message drives the cursor.
    listing.fetch_page(DialogsResult::Slice {
        count: 50,
        dialogs: vec![descriptor(1, 7), descriptor(2, 42)],
        messages: vec![full_message(1, 7, 500), full_message(2, 42, 1000)],
        chats: Vec::new(),
        users: vec![wire_user(1), wire_user(2)],
    });
    let req = listing.request();
    assert_eq!(req.offset_id, 42);
    assert_eq!(req.offset_date, 1000);
    assert_eq!(req.offset_peer, InputPeer::User { user_id: 2, access_hash: 77 });
}

#[test]
fn cursor_keeps_offsets_when_no_dialog_joined_a_message() {
    let mut listing = Dialogs::iter();
    let before = listing.request();
    let placeholder = Message::Empty(EmptyMsg { id: 55 });
    let mut items = vec![descriptor(2, 42)];
    items.push(DialogDesc::Dialog(DialogData {
        pinned: false,
        peer: Peer::User { user_id: 9 },
        top_message: 55,
        unread_count: 0,
    }));
    // The placeholder has no addressable peer, so it never lands in the
    // message join map: no dialog joins a last message, and the offsets
    // stay what the previous page left.
    listing.fetch_page(DialogsResult::Slice {
        count: 10,
        dialogs: items,
        messages: vec![placeholder],
        chats: Vec::new(),
        users: vec![wire_user(2), wire_user(9)],
    });
    let req = listing.request();
    assert_eq!(req.offset_id, before.offset_id);
    assert_eq!(req.offset_date, before.offset_date);
    let built = drain(&mut listing);
    assert_eq!(built.len(), 2);
    assert!(built.iter().all(|d| d.last_message.is_none()));
}

#[test]
fn duplicate_entity_id_keeps_the_later_record() {
    let mut listing = Dialogs::iter();
    listing.fetch_page(DialogsResult::Dialogs {
        dialogs: vec![descriptor(1, 0)],
        messages: Vec::new(),
        chats: Vec::new(),
        users: vec![named_wire_user(1, "old"), named_wire_user(1, "new")],
    });
    let items = drain(&mut listing);
    match &items[0].entity {
        Entity::User(u) => assert_eq!(u.first_name.as_deref(), Some("new")),
        _ => panic!("expected a user entity"),
    }
}

#[test]
fn unconsumed_entities_stay_for_later_pages() {
    let mut listing = Dialogs::iter();
    // A full-length first page (so the listing is not terminal) that
    // additionally decodes a user no descriptor of this page references.
    let mut users = vec![wire_user(500)];
    let mut dialogs = Vec::new();
    for k in 0..100 {
        users.push(wire_user(k));
        dialogs.push(descriptor(k, 0));
    }
    listing.fetch_page(DialogsResult::Slice {
        count: 101,
        dialogs,
        messages: Vec::new(),
        chats: vec![WireChat::Empty { id: 6 }],
        users,
    });
    let first = drain(&mut listing);
    assert_eq!(first.len(), 100);
    assert!(listing.needs_more());
    // The second page's descriptor resolves against the entity left over
    // from the first page.
    listing.fetch_page(DialogsResult::Slice {
        count: 101,
        dialogs: vec![descriptor(500, 0)],
        messages: Vec::new(),
        chats: Vec::new(),
        users: Vec::new(),
    });
    let second = drain(&mut listing);
    assert_eq!(second.len(), 1);
    match &second[0].entity {
        Entity::User(u) => assert_eq!(u.id, 500),
        _ => panic!("expected the carried-over user"),
    }
}
