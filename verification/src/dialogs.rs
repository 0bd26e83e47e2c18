//! The dialog listing: the cursor/buffer engine instantiated for
//! conversation listing, with the in-memory joins that build complete
//! [`Dialog`] values out of a page's three separately-listed result sets.
//!
//! One page's entities and messages land in two long-lived join maps; the
//! page's descriptors are then walked in reverse server order, each one
//! consuming its entity (and, when present, its last message) out of the
//! maps. Entries left unconsumed stay for later pages. The buffer holds the
//! built dialogs reversed, so popping yields them in server order.
//!
//! The RPC invocation itself is an external collaborator: the caller sends
//! [`Dialogs::request`] when [`Dialogs::needs_more`] says so and hands the
//! decoded response to [`Dialogs::fetch_page`].

use std::collections::HashMap;

use vstd::prelude::*;

use crate::entity_set::{
    chat_entity_spec, entity_id_spec, input_peer_spec, user_entity_spec, Entity,
};
use crate::rpc_iter::RpcIterBuffer;
use crate::wire::{
    peer_id, peer_id_spec, DialogData, DialogDesc, DialogsResult, GetDialogs, InputPeer, Message,
    WireChat, WireUser,
};

verus! {

broadcast use vstd::std_specs::hash::group_hash_axioms;

/// How many dialogs one page asks for.
pub const MAX_DIALOGS_PER_REQUEST: i32 = 100;

/// A complete listed conversation: the raw descriptor, its resolved entity,
/// and its last message when one was resolvable.
#[derive(Clone, Debug)]
pub struct Dialog {
    pub dialog: DialogData,
    pub entity: Entity,
    pub last_message: Option<Message>,
}

/// The single join key the message map uses for the pair (peer id, message
/// id).
pub open spec fn msg_key(peer: i32, msg: i32) -> u64 {
    ((peer as u32) as u64) << 32u64 | ((msg as u32) as u64)
}

fn msg_key_exec(peer: i32, msg: i32) -> (r: u64)
    ensures
        r == msg_key(peer, msg),
{
    ((peer as u32) as u64) << 32u64 | ((msg as u32) as u64)
}

/// Distinct (peer id, message id) pairs never share a join key.
pub proof fn lemma_msg_key_injective(p1: i32, m1: i32, p2: i32, m2: i32)
    requires
        msg_key(p1, m1) == msg_key(p2, m2),
    ensures
        p1 == p2 && m1 == m2,
{
    assert(((p1 as u32) as u64) << 32u64 | ((m1 as u32) as u64) == ((p2 as u32) as u64) << 32u64
        | ((m2 as u32) as u64) ==> p1 == p2 && m1 == m2) by (bit_vector);
}

/// The join key of a message: its peer's id paired with its own id. The
/// empty placeholder has no addressable pair.
pub open spec fn message_id_spec(m: Message) -> Option<(i32, i32)> {
    match m {
        Message::Message(d) => Some((peer_id_spec(d.peer_id), d.id)),
        Message::Service(d) => Some((peer_id_spec(d.peer_id), d.id)),
        Message::Empty(_) => None,
    }
}

/// Extracts the (peer id, message id) pair a message is addressable by, if
/// any.
pub fn message_id(message: &Message) -> (r: Option<(i32, i32)>)
    ensures
        r == message_id_spec(*message),
{
    match message {
        Message::Message(d) => Some((peer_id(&d.peer_id), d.id)),
        Message::Service(d) => Some((peer_id(&d.peer_id), d.id)),
        Message::Empty(_) => None,
    }
}

/// The entity map after inserting a page's users in listing order, keyed by
/// id; a duplicate id keeps the later record.
pub open spec fn merge_user_entities(m: Map<i32, Entity>, users: Seq<WireUser>) -> Map<i32, Entity>
    decreases users.len(),
{
    if users.len() == 0 {
        m
    } else {
        let m1 = match user_entity_spec(users.first()) {
            Some(e) => m.insert(entity_id_spec(e), e),
            None => m,
        };
        merge_user_entities(m1, users.drop_first())
    }
}

/// The entity map after inserting a page's chats and channels in listing
/// order, keyed by id; a duplicate id keeps the later record.
pub open spec fn merge_chat_entities(m: Map<i32, Entity>, chats: Seq<WireChat>) -> Map<i32, Entity>
    decreases chats.len(),
{
    if chats.len() == 0 {
        m
    } else {
        let m1 = match chat_entity_spec(chats.first()) {
            Some(e) => m.insert(entity_id_spec(e), e),
            None => m,
        };
        merge_chat_entities(m1, chats.drop_first())
    }
}

/// The message map after inserting a page's messages in listing order,
/// keyed by (peer id, message id); placeholders without an addressable pair
/// are skipped.
pub open spec fn merge_messages(m: Map<u64, Message>, msgs: Seq<Message>) -> Map<u64, Message>
    decreases msgs.len(),
{
    if msgs.len() == 0 {
        m
    } else {
        let m1 = match message_id_spec(msgs.first()) {
            Some(k) => m.insert(msg_key(k.0, k.1), msgs.first()),
            None => m,
        };
        merge_messages(m1, msgs.drop_first())
    }
}

/// What one descriptor does to the join maps: a non-folder descriptor whose
/// peer resolves consumes its entity, consumes its last message when
/// present, and yields a dialog; anything else yields nothing and leaves
/// the maps as they were.
pub open spec fn dialog_step(
    ents: Map<i32, Entity>,
    msgs: Map<u64, Message>,
    d: DialogDesc,
) -> (Map<i32, Entity>, Map<u64, Message>, Option<Dialog>) {
    match d {
        DialogDesc::Folder(_) => (ents, msgs, None),
        DialogDesc::Dialog(dd) => {
            let pid = peer_id_spec(dd.peer);
            if ents.contains_key(pid) {
                let k = msg_key(pid, dd.top_message);
                let lm = if msgs.contains_key(k) {
                    Some(msgs[k])
                } else {
                    None
                };
                (
                    ents.remove(pid),
                    msgs.remove(k),
                    Some(Dialog { dialog: dd, entity: ents[pid], last_message: lm }),
                )
            } else {
                (ents, msgs, None)
            }
        },
    }
}

/// The page's dialogs and final join maps: descriptors are consumed in
/// reverse server order (the last one sees the full maps first), and the
/// resulting dialog sequence is in server order.
pub open spec fn build_dialogs(
    ents: Map<i32, Entity>,
    msgs: Map<u64, Message>,
    descs: Seq<DialogDesc>,
) -> (Map<i32, Entity>, Map<u64, Message>, Seq<Dialog>)
    decreases descs.len(),
{
    if descs.len() == 0 {
        (ents, msgs, Seq::empty())
    } else {
        let s = dialog_step(ents, msgs, descs.last());
        let r = build_dialogs(s.0, s.1, descs.drop_last());
        (
            r.0,
            r.1,
            match s.2 {
                Some(d) => r.2.push(d),
                None => r.2,
            },
        )
    }
}

/// One whole page merge: users, then chats, then messages land in the join
/// maps, and the descriptors are joined into dialogs.
pub open spec fn merged_page(
    ents: Map<i32, Entity>,
    msgs: Map<u64, Message>,
    users: Seq<WireUser>,
    chats: Seq<WireChat>,
    messages: Seq<Message>,
    descs: Seq<DialogDesc>,
) -> (Map<i32, Entity>, Map<u64, Message>, Seq<Dialog>) {
    let e1 = merge_user_entities(ents, users);
    let e2 = merge_chat_entities(e1, chats);
    let m1 = merge_messages(msgs, messages);
    build_dialogs(e2, m1, descs)
}

/// The offsets the next request carries: those of the first buffered dialog
/// that has a last message — a full or service message contributes its id
/// and date, the empty placeholder only its id — or the old offsets when no
/// buffered dialog has one.
pub open spec fn first_message_offsets(batch: Seq<Dialog>, offset_id: i32, offset_date: i32) -> (
    i32,
    i32,
)
    decreases batch.len(),
{
    if batch.len() == 0 {
        (offset_id, offset_date)
    } else {
        match batch.first().last_message {
            Some(m) => match m {
                Message::Message(d) => (d.id, d.date),
                Message::Service(d) => (d.id, d.date),
                Message::Empty(d) => (d.id, offset_date),
            },
            None => first_message_offsets(batch.drop_first(), offset_id, offset_date),
        }
    }
}

/// The cursor recomputed from a page's buffer: the offset peer comes from
/// the first buffered dialog's entity (when any dialog is buffered), the
/// offset id and date from the first buffered dialog with a last message.
pub open spec fn recomputed_request(req: GetDialogs, batch: Seq<Dialog>) -> GetDialogs {
    let offsets = first_message_offsets(batch, req.offset_id, req.offset_date);
    GetDialogs {
        exclude_pinned: req.exclude_pinned,
        folder_id: req.folder_id,
        offset_date: offsets.1,
        offset_id: offsets.0,
        offset_peer: if batch.len() > 0 {
            input_peer_spec(batch.first().entity)
        } else {
            req.offset_peer
        },
        limit: req.limit,
        hash: req.hash,
    }
}

/// The cursor the first page is requested with.
pub open spec fn initial_request() -> GetDialogs {
    GetDialogs {
        exclude_pinned: false,
        folder_id: None,
        offset_date: 0,
        offset_id: 0,
        offset_peer: InputPeer::Empty,
        limit: MAX_DIALOGS_PER_REQUEST,
        hash: 0,
    }
}

/// The dialog listing instance: the cursor/buffer engine plus the two
/// long-lived join maps. The maps are owned and mutated by this instance
/// alone.
pub struct Dialogs {
    buffer: RpcIterBuffer<GetDialogs, Dialog>,
    entities: HashMap<i32, Entity>,
    messages: HashMap<u64, Message>,
}

impl Dialogs {
    /// The buffered dialogs, in reverse server order.
    pub closed spec fn batch(&self) -> Seq<Dialog> {
        self.buffer.batch@
    }

    /// The cursor the next page would be requested with.
    pub closed spec fn cursor(&self) -> GetDialogs {
        self.buffer.request
    }

    /// The server-reported total, once known.
    pub closed spec fn total(&self) -> Option<usize> {
        self.buffer.total
    }

    /// Whether the listing is terminal.
    pub closed spec fn done(&self) -> bool {
        self.buffer.done
    }

    /// The entity join map, keyed by peer id. Ids form a single key space
    /// across users, chats and channels: two entities of different kinds
    /// sharing a numeric id collide, the later insert winning.
    pub closed spec fn entity_map(&self) -> Map<i32, Entity> {
        self.entities@
    }

    /// The message join map, keyed by the (peer id, message id) join key.
    pub closed spec fn message_map(&self) -> Map<u64, Message> {
        self.messages@
    }

    /// True iff a page fetch is due: nothing buffered and not yet done.
    pub open spec fn needs_more_spec(&self) -> bool {
        !self.done() && self.batch().len() == 0
    }

    /// A fresh dialog listing: empty buffer and maps, the initial cursor,
    /// no total known, not done.
    pub fn iter() -> (r: Dialogs)
        ensures
            r.batch() == Seq::<Dialog>::empty(),
            !r.done(),
            r.total() is None,
            r.cursor() == initial_request(),
            r.entity_map() == Map::<i32, Entity>::empty(),
            r.message_map() == Map::<u64, Message>::empty(),
    {
        Dialogs {
            buffer: RpcIterBuffer::new(
                GetDialogs {
                    exclude_pinned: false,
                    folder_id: None,
                    offset_date: 0,
                    offset_id: 0,
                    offset_peer: InputPeer::Empty,
                    limit: MAX_DIALOGS_PER_REQUEST,
                    hash: 0,
                },
            ),
            entities: HashMap::new(),
            messages: HashMap::new(),
        }
    }

    /// The server-reported total item count once known, else absent.
    pub fn known_total(&self) -> (r: Option<usize>)
        ensures
            r == self.total(),
    {
        self.buffer.total
    }

    /// True iff the buffer is empty and the listing is not yet done: only
    /// then is a page fetch due.
    pub fn needs_more(&self) -> (r: bool)
        ensures
            r == self.needs_more_spec(),
    {
        self.buffer.should_fill()
    }

    /// The cursor to send for the next page.
    pub fn request(&self) -> (r: GetDialogs)
        ensures
            r == self.cursor(),
    {
        self.buffer.request
    }

    /// Removes and returns one buffered dialog — the next in server
    /// delivery order — or none if the buffer is empty. Everything else is
    /// untouched.
    pub fn take_buffered(&mut self) -> (r: Option<Dialog>)
        ensures
            old(self).batch().len() == 0 ==> r is None && final(self).batch() == old(
                self,
            ).batch(),
            old(self).batch().len() > 0 ==> r == Some(old(self).batch().last())
                && final(self).batch() == old(self).batch().drop_last(),
            final(self).done() == old(self).done(),
            final(self).cursor() == old(self).cursor(),
            final(self).total() == old(self).total(),
            final(self).entity_map() == old(self).entity_map(),
            final(self).message_map() == old(self).message_map(),
    {
        self.buffer.pop()
    }

    /// Inserts a page's users into the entity map.
    fn update_user_entities(&mut self, users: Vec<WireUser>)
        ensures
            final(self).entity_map() == merge_user_entities(old(self).entity_map(), users@),
            final(self).message_map() == old(self).message_map(),
            final(self).batch() == old(self).batch(),
            final(self).cursor() == old(self).cursor(),
            final(self).total() == old(self).total(),
            final(self).done() == old(self).done(),
    {
        let mut users = users;
        let ghost target = merge_user_entities(self.entities@, users@);
        let ghost buf0 = self.buffer;
        let ghost msgs0 = self.messages@;
        while users.len() > 0
            invariant
                merge_user_entities(self.entities@, users@) == target,
                self.buffer == buf0,
                self.messages@ == msgs0,
            decreases users.len(),
        {
            let ghost users_old = users@;
            let u = users.remove(0);
            proof {
                assert(users@ =~= users_old.drop_first());
            }
            match u {
                WireUser::User(data) => {
                    self.entities.insert(data.id, Entity::User(data));
                },
                WireUser::Empty { .. } => {},
            }
        }
    }

    /// Inserts a page's chats and channels into the entity map.
    fn update_chat_entities(&mut self, chats: Vec<WireChat>)
        ensures
            final(self).entity_map() == merge_chat_entities(old(self).entity_map(), chats@),
            final(self).message_map() == old(self).message_map(),
            final(self).batch() == old(self).batch(),
            final(self).cursor() == old(self).cursor(),
            final(self).total() == old(self).total(),
            final(self).done() == old(self).done(),
    {
        let mut chats = chats;
        let ghost target = merge_chat_entities(self.entities@, chats@);
        let ghost buf0 = self.buffer;
        let ghost msgs0 = self.messages@;
        while chats.len() > 0
            invariant
                merge_chat_entities(self.entities@, chats@) == target,
                self.buffer == buf0,
                self.messages@ == msgs0,
            decreases chats.len(),
        {
            let ghost chats_old = chats@;
            let c = chats.remove(0);
            proof {
                assert(chats@ =~= chats_old.drop_first());
            }
            match c {
                WireChat::Chat(data) => {
                    self.entities.insert(data.id, Entity::Chat(data));
                },
                WireChat::Channel(data) => {
                    self.entities.insert(data.id, Entity::Channel(data));
                },
                _ => {},
            }
        }
    }

    /// Inserts a page's messages into the message map, skipping records
    /// without an addressable (peer, id) pair.
    fn update_messages(&mut self, messages: Vec<Message>)
        ensures
            final(self).message_map() == merge_messages(old(self).message_map(), messages@),
            final(self).entity_map() == old(self).entity_map(),
            final(self).batch() == old(self).batch(),
            final(self).cursor() == old(self).cursor(),
            final(self).total() == old(self).total(),
            final(self).done() == old(self).done(),
    {
        let mut messages = messages;
        let ghost target = merge_messages(self.messages@, messages@);
        let ghost buf0 = self.buffer;
        let ghost ents0 = self.entities@;
        while messages.len() > 0
            invariant
                merge_messages(self.messages@, messages@) == target,
                self.buffer == buf0,
                self.entities@ == ents0,
            decreases messages.len(),
        {
            let ghost messages_old = messages@;
            let m = messages.remove(0);
            proof {
                assert(messages@ =~= messages_old.drop_first());
            }
            match message_id(&m) {
                Some(k) => {
                    let key = msg_key_exec(k.0, k.1);
                    self.messages.insert(key, m);
                },
                None => {},
            }
        }
    }

    /// Walks a page's descriptors in reverse server order, consuming each
    /// resolvable descriptor's entity and last message out of the join maps
    /// and buffering the built dialog. The buffer ends holding the page's
    /// dialogs reversed, so pops yield them in server order.
    fn update_dialogs(&mut self, dialogs: Vec<DialogDesc>)
        ensures
            ({
                let b = build_dialogs(old(self).entity_map(), old(self).message_map(), dialogs@);
                &&& final(self).entity_map() == b.0
                &&& final(self).message_map() == b.1
                &&& final(self).batch() == old(self).batch() + b.2.reverse()
            }),
            final(self).cursor() == old(self).cursor(),
            final(self).total() == old(self).total(),
            final(self).done() == old(self).done(),
    {
        let mut ds = dialogs;
        let ghost target = build_dialogs(self.entities@, self.messages@, ds@);
        let ghost batch0 = self.buffer.batch@;
        let ghost req0 = self.buffer.request;
        let ghost total0 = self.buffer.total;
        let ghost done0 = self.buffer.done;
        while ds.len() > 0
            invariant
                build_dialogs(self.entities@, self.messages@, ds@).0 == target.0,
                build_dialogs(self.entities@, self.messages@, ds@).1 == target.1,
                self.buffer.batch@ + build_dialogs(self.entities@, self.messages@, ds@).2.reverse()
                    == batch0 + target.2.reverse(),
                self.buffer.request == req0,
                self.buffer.total == total0,
                self.buffer.done == done0,
            decreases ds.len(),
        {
            let ghost ds_old = ds@;
            let ghost ents_old = self.entities@;
            let ghost msgs_old = self.messages@;
            let ghost batch_old = self.buffer.batch@;
            let d = ds.pop().unwrap();
            proof {
                assert(ds@ =~= ds_old.drop_last());
            }
            let ghost step = dialog_step(ents_old, msgs_old, d);
            match d {
                DialogDesc::Folder(_) => {},
                DialogDesc::Dialog(dd) => {
                    let pid = peer_id(&dd.peer);
                    match self.entities.remove(&pid) {
                        None => {
                            proof {
                                assert(self.entities@ =~= ents_old);
                            }
                        },
                        Some(entity) => {
                            let key = msg_key_exec(pid, dd.top_message);
                            let last_message = self.messages.remove(&key);
                            self.buffer.push(Dialog { dialog: dd, entity, last_message });
                        },
                    }
                },
            }
            proof {
                assert(self.entities@ == step.0);
                assert(self.messages@ == step.1);
                let rest = build_dialogs(step.0, step.1, ds@);
                assert(build_dialogs(ents_old, msgs_old, ds_old).0 == rest.0);
                assert(build_dialogs(ents_old, msgs_old, ds_old).1 == rest.1);
                match step.2 {
                    Some(built) => {
                        assert(self.buffer.batch@ == batch_old.push(built));
                        assert(build_dialogs(ents_old, msgs_old, ds_old).2 == rest.2.push(built));
                        assert(rest.2.push(built).reverse() =~= seq![built] + rest.2.reverse());
                        assert(batch_old.push(built) + rest.2.reverse() =~= batch_old + (
                        seq![built] + rest.2.reverse()));
                    },
                    None => {
                        assert(self.buffer.batch@ == batch_old);
                        assert(build_dialogs(ents_old, msgs_old, ds_old).2 == rest.2);
                    },
                }
            }
        }
        proof {
            assert(build_dialogs(self.entities@, self.messages@, ds@).2 =~= Seq::<Dialog>::empty());
            assert(self.buffer.batch@ + Seq::<Dialog>::empty() =~= self.buffer.batch@);
            assert(Seq::<Dialog>::empty().reverse() =~= Seq::<Dialog>::empty());
        }
    }

    /// Scans the buffer for the offsets of the first dialog with a last
    /// message.
    fn first_offsets(batch: &Vec<Dialog>, offset_id: i32, offset_date: i32) -> (r: (i32, i32))
        ensures
            r == first_message_offsets(batch@, offset_id, offset_date),
    {
        let mut i: usize = 0;
        assert(batch@.skip(0) =~= batch@);
        while i < batch.len()
            invariant
                i <= batch@.len(),
                first_message_offsets(batch@.skip(i as int), offset_id, offset_date)
                    == first_message_offsets(batch@, offset_id, offset_date),
            decreases batch@.len() - i,
        {
            assert(batch@.skip(i as int).first() == batch@[i as int]);
            assert(batch@.skip(i as int).drop_first() =~= batch@.skip(i as int + 1));
            match &batch[i].last_message {
                Some(m) => {
                    match m {
                        Message::Message(d) => {
                            return (d.id, d.date);
                        },
                        Message::Service(d) => {
                            return (d.id, d.date);
                        },
                        Message::Empty(d) => {
                            return (d.id, offset_date);
                        },
                    }
                },
                None => {},
            }
            i = i + 1;
        }
        assert(batch@.skip(batch@.len() as int) =~= Seq::<Dialog>::empty());
        (offset_id, offset_date)
    }

    /// Recomputes the cursor from the buffered page, as
    /// [`recomputed_request`] states.
    fn update_request_offsets(&mut self)
        ensures
            final(self).cursor() == recomputed_request(old(self).cursor(), old(self).batch()),
            final(self).batch() == old(self).batch(),
            final(self).entity_map() == old(self).entity_map(),
            final(self).message_map() == old(self).message_map(),
            final(self).total() == old(self).total(),
            final(self).done() == old(self).done(),
    {
        if self.buffer.batch.len() > 0 {
            let peer = self.buffer.batch[0].entity.to_input_peer();
            self.buffer.request.offset_peer = peer;
        }
        let offsets = Self::first_offsets(
            &self.buffer.batch,
            self.buffer.request.offset_id,
            self.buffer.request.offset_date,
        );
        self.buffer.request.offset_id = offsets.0;
        self.buffer.request.offset_date = offsets.1;
    }

    /// Applies one page response fetched with the current cursor. Due only
    /// when [`Dialogs::needs_more`] holds.
    ///
    /// A full list fixes the total at its length and is terminal; the
    /// cursor is left alone. A partial slice takes the server-declared
    /// count, is terminal exactly when it is shorter than the requested
    /// limit, and recomputes the cursor from the page's buffer. A
    /// not-modified response takes the server-declared count, is terminal,
    /// and merges nothing. The first two merge the page as [`merged_page`]
    /// states, leaving the buffer with the page's dialogs.
    pub fn fetch_page(&mut self, response: DialogsResult)
        requires
            old(self).needs_more_spec(),
        ensures
            match response {
                DialogsResult::Dialogs { dialogs, messages, chats, users } => {
                    let p = merged_page(
                        old(self).entity_map(),
                        old(self).message_map(),
                        users@,
                        chats@,
                        messages@,
                        dialogs@,
                    );
                    &&& final(self).entity_map() == p.0
                    &&& final(self).message_map() == p.1
                    &&& final(self).batch() == p.2.reverse()
                    &&& final(self).total() == Some(dialogs@.len() as usize)
                    &&& final(self).done()
                    &&& final(self).cursor() == old(self).cursor()
                },
                DialogsResult::Slice { count, dialogs, messages, chats, users } => {
                    let p = merged_page(
                        old(self).entity_map(),
                        old(self).message_map(),
                        users@,
                        chats@,
                        messages@,
                        dialogs@,
                    );
                    &&& final(self).entity_map() == p.0
                    &&& final(self).message_map() == p.1
                    &&& final(self).batch() == p.2.reverse()
                    &&& final(self).total() == Some(count as usize)
                    &&& final(self).done() == (dialogs@.len() < old(self).cursor().limit as usize)
                    &&& final(self).cursor() == recomputed_request(
                        old(self).cursor(),
                        p.2.reverse(),
                    )
                },
                DialogsResult::NotModified { count } => {
                    &&& final(self).total() == Some(count as usize)
                    &&& final(self).done()
                    &&& final(self).batch() == old(self).batch()
                    &&& final(self).cursor() == old(self).cursor()
                    &&& final(self).entity_map() == old(self).entity_map()
                    &&& final(self).message_map() == old(self).message_map()
                },
            },
    {
        match response {
            DialogsResult::Dialogs { dialogs, messages, chats, users } => {
                self.buffer.total = Some(dialogs.len());
                self.buffer.done = true;
                self.update_user_entities(users);
                self.update_chat_entities(chats);
                self.update_messages(messages);
                self.update_dialogs(dialogs);
                proof {
                    let p = merged_page(
                        old(self).entity_map(),
                        old(self).message_map(),
                        users@,
                        chats@,
                        messages@,
                        dialogs@,
                    );
                    assert(old(self).batch() + p.2.reverse() =~= p.2.reverse());
                }
            },
            DialogsResult::Slice { count, dialogs, messages, chats, users } => {
                self.buffer.total = Some(#[verifier::truncate] (count as usize));
                let limit = #[verifier::truncate] (self.buffer.request.limit as usize);
                self.buffer.done = dialogs.len() < limit;
                self.update_user_entities(users);
                self.update_chat_entities(chats);
                self.update_messages(messages);
                self.update_dialogs(dialogs);
                proof {
                    let p = merged_page(
                        old(self).entity_map(),
                        old(self).message_map(),
                        users@,
                        chats@,
                        messages@,
                        dialogs@,
                    );
                    assert(old(self).batch() + p.2.reverse() =~= p.2.reverse());
                }
                self.update_request_offsets();
            },
            DialogsResult::NotModified { count } => {
                self.buffer.total = Some(#[verifier::truncate] (count as usize));
                self.buffer.done = true;
            },
        }
    }
}

/// A descriptor whose peer id resolves to no entity — neither freshly
/// decoded in this page nor carried over from an earlier one — contributes
/// no dialog: the id stays unresolved through the whole walk, and no built
/// dialog carries it.
pub proof fn lemma_unresolved_descriptor_dropped(
    ents: Map<i32, Entity>,
    msgs: Map<u64, Message>,
    descs: Seq<DialogDesc>,
    pid: i32,
)
    requires
        !ents.contains_key(pid),
    ensures
        !build_dialogs(ents, msgs, descs).0.contains_key(pid),
        forall|j: int|
            0 <= j < build_dialogs(ents, msgs, descs).2.len() ==> peer_id_spec(
                #[trigger] build_dialogs(ents, msgs, descs).2[j].dialog.peer,
            ) != pid,
    decreases descs.len(),
{
    if descs.len() > 0 {
        let s = dialog_step(ents, msgs, descs.last());
        assert(!s.0.contains_key(pid));
        lemma_unresolved_descriptor_dropped(s.0, s.1, descs.drop_last(), pid);
        let r = build_dialogs(s.0, s.1, descs.drop_last());
        match s.2 {
            Some(d) => {
                assert(peer_id_spec(d.dialog.peer) != pid);
                assert(forall|j: int|
                    0 <= j < r.2.push(d).len() ==> peer_id_spec(
                        #[trigger] r.2.push(d)[j].dialog.peer,
                    ) != pid);
            },
            None => {},
        }
    }
}

/// The dialog descriptors of a page, folders dropped, in server order.
pub open spec fn dialog_descriptors(descs: Seq<DialogDesc>) -> Seq<DialogData>
    decreases descs.len(),
{
    if descs.len() == 0 {
        Seq::empty()
    } else {
        let rest = dialog_descriptors(descs.drop_last());
        match descs.last() {
            DialogDesc::Dialog(dd) => rest.push(dd),
            DialogDesc::Folder(_) => rest,
        }
    }
}

/// A wholly resolvable page joins one dialog per non-folder descriptor, in
/// server order: when the descriptors' peer ids are pairwise distinct and
/// each one has an entity in the map, the built dialog sequence lines up
/// with the descriptor sequence one for one.
pub proof fn lemma_resolved_page_order(
    ents: Map<i32, Entity>,
    msgs: Map<u64, Message>,
    descs: Seq<DialogDesc>,
)
    requires
        forall|j: int|
            0 <= j < descs.len() ==> ((#[trigger] descs[j]) matches DialogDesc::Dialog(dd)
                ==> ents.contains_key(peer_id_spec(dd.peer))),
        forall|j: int, k: int|
            0 <= j < k < descs.len() ==> match (#[trigger] descs[j], #[trigger] descs[k]) {
                (DialogDesc::Dialog(a), DialogDesc::Dialog(b)) => peer_id_spec(a.peer)
                    != peer_id_spec(b.peer),
                _ => true,
            },
    ensures
        build_dialogs(ents, msgs, descs).2.len() == dialog_descriptors(descs).len(),
        forall|j: int|
            0 <= j < dialog_descriptors(descs).len() ==> (#[trigger] build_dialogs(
                ents,
                msgs,
                descs,
            ).2[j]).dialog == dialog_descriptors(descs)[j],
    decreases descs.len(),
{
    if descs.len() > 0 {
        let prior = descs.drop_last();
        assert(forall|j: int| 0 <= j < prior.len() ==> prior[j] == descs[j]);
        let s = dialog_step(ents, msgs, descs.last());
        match descs.last() {
            DialogDesc::Folder(_) => {
                lemma_resolved_page_order(ents, msgs, prior);
            },
            DialogDesc::Dialog(dd) => {
                let pid = peer_id_spec(dd.peer);
                assert(descs[descs.len() - 1] matches DialogDesc::Dialog(d) && d == dd);
                assert(ents.contains_key(pid));
                assert forall|j: int|
                    0 <= j < prior.len() implies ((#[trigger] prior[j]) matches
                DialogDesc::Dialog(a) ==> ents.remove(pid).contains_key(
                    peer_id_spec(a.peer),
                )) by {
                    match prior[j] {
                        DialogDesc::Dialog(a) => {
                            assert(match (descs[j], descs[descs.len() - 1]) {
                                (DialogDesc::Dialog(x), DialogDesc::Dialog(y)) => peer_id_spec(
                                    x.peer,
                                ) != peer_id_spec(y.peer),
                                _ => true,
                            });
                            assert(peer_id_spec(a.peer) != pid);
                        },
                        DialogDesc::Folder(_) => {},
                    }
                }
                lemma_resolved_page_order(ents.remove(pid), s.1, prior);
                let r = build_dialogs(ents.remove(pid), s.1, prior);
                let d = Dialog {
                    dialog: dd,
                    entity: ents[pid],
                    last_message: if msgs.contains_key(msg_key(pid, dd.top_message)) {
                        Some(msgs[msg_key(pid, dd.top_message)])
                    } else {
                        None
                    },
                };
                assert(build_dialogs(ents, msgs, descs).2 == r.2.push(d));
                assert(dialog_descriptors(descs) == dialog_descriptors(prior).push(dd));
                assert forall|j: int|
                    0 <= j < dialog_descriptors(descs).len() implies (#[trigger] build_dialogs(
                    ents,
                    msgs,
                    descs,
                ).2[j]).dialog == dialog_descriptors(descs)[j] by {
                    if j < dialog_descriptors(prior).len() {
                        assert(r.2.push(d)[j] == r.2[j]);
                        assert(dialog_descriptors(prior).push(dd)[j] == dialog_descriptors(
                            prior,
                        )[j]);
                    } else {
                        assert(r.2.push(d)[j] == d);
                        assert(dialog_descriptors(prior).push(dd)[j] == dd);
                    }
                }
            },
        }
    }
}

/// Yield order across one page: the buffer holds the page's dialogs
/// reversed and is popped from the end, so the k-th dialog taken is the
/// k-th the server listed.
pub proof fn lemma_yield_order(page: Seq<Dialog>, k: int)
    requires
        0 <= k < page.len(),
    ensures
        page.reverse()[page.len() - 1 - k] == page[k],
{
}

/// Cursor recomputation looks no further than the first buffered dialog
/// with a last message: when the first buffered dialog carries a full
/// message record, the next request's offsets are exactly that message's id
/// and date, whatever else the page holds, and its offset peer is that
/// dialog's entity.
pub proof fn lemma_cursor_from_first_dialog(req: GetDialogs, batch: Seq<Dialog>, d: crate::wire::MsgData)
    requires
        batch.len() > 0,
        batch.first().last_message == Some(Message::Message(d)),
    ensures
        recomputed_request(req, batch).offset_id == d.id,
        recomputed_request(req, batch).offset_date == d.date,
        recomputed_request(req, batch).offset_peer == input_peer_spec(batch.first().entity),
{
}

} // verus!
