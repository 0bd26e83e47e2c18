//! Entities (users, basic groups, channels) and the per-batch resolution
//! context that lets callers attach identity to events by numeric id.

use vstd::prelude::*;

use crate::wire::{Channel, Chat, InputPeer, User, WireChat, WireUser};

verus! {

/// A resolved entity: a user, a basic group, or a channel/supergroup,
/// addressable by numeric id.
#[derive(Clone, Debug)]
pub enum Entity {
    User(User),
    Chat(Chat),
    Channel(Channel),
}

/// The id of an entity, used as a single integer key across the three kinds.
pub open spec fn entity_id_spec(e: Entity) -> i32 {
    match e {
        Entity::User(u) => u.id,
        Entity::Chat(c) => c.id,
        Entity::Channel(c) => c.id,
    }
}

/// The input-peer reference an entity converts to for subsequent requests.
/// An absent access hash is sent as zero.
pub open spec fn input_peer_spec(e: Entity) -> InputPeer {
    match e {
        Entity::User(u) => InputPeer::User {
            user_id: u.id,
            access_hash: match u.access_hash {
                Some(h) => h,
                None => 0,
            },
        },
        Entity::Chat(c) => InputPeer::Chat { chat_id: c.id },
        Entity::Channel(c) => InputPeer::Channel {
            channel_id: c.id,
            access_hash: match c.access_hash {
                Some(h) => h,
                None => 0,
            },
        },
    }
}

impl Entity {
    /// The entity's numeric id.
    pub fn id(&self) -> (r: i32)
        ensures
            r == entity_id_spec(*self),
    {
        match self {
            Entity::User(u) => u.id,
            Entity::Chat(c) => c.id,
            Entity::Channel(c) => c.id,
        }
    }

    /// Converts the entity to the peer reference subsequent requests take.
    pub fn to_input_peer(&self) -> (r: InputPeer)
        ensures
            r == input_peer_spec(*self),
    {
        match self {
            Entity::User(u) => InputPeer::User {
                user_id: u.id,
                access_hash: match u.access_hash {
                    Some(h) => h,
                    None => 0,
                },
            },
            Entity::Chat(c) => InputPeer::Chat { chat_id: c.id },
            Entity::Channel(c) => InputPeer::Channel {
                channel_id: c.id,
                access_hash: match c.access_hash {
                    Some(h) => h,
                    None => 0,
                },
            },
        }
    }
}

/// The entity a listed user resolves to: full records only, the empty
/// placeholder carries no usable entity.
pub open spec fn user_entity_spec(u: WireUser) -> Option<Entity> {
    match u {
        WireUser::User(data) => Some(Entity::User(data)),
        WireUser::Empty { .. } => None,
    }
}

/// The entity a listed chat resolves to: full group and channel records
/// only; placeholder and forbidden shapes resolve to none.
pub open spec fn chat_entity_spec(c: WireChat) -> Option<Entity> {
    match c {
        WireChat::Chat(data) => Some(Entity::Chat(data)),
        WireChat::Channel(data) => Some(Entity::Channel(data)),
        _ => None,
    }
}

/// The entities of one decoded batch, users first, in listing order, with
/// unusable shapes dropped.
pub open spec fn batch_entities(users: Seq<WireUser>, chats: Seq<WireChat>) -> Seq<Entity>
    decreases users.len() + chats.len(),
{
    if users.len() > 0 {
        match user_entity_spec(users.first()) {
            Some(e) => seq![e] + batch_entities(users.drop_first(), chats),
            None => batch_entities(users.drop_first(), chats),
        }
    } else if chats.len() > 0 {
        match chat_entity_spec(chats.first()) {
            Some(e) => seq![e] + batch_entities(users, chats.drop_first()),
            None => batch_entities(users, chats.drop_first()),
        }
    } else {
        Seq::empty()
    }
}

/// The first entity with the given id, scanning the context's entities in
/// order.
pub open spec fn lookup_spec(s: Seq<Entity>, id: i32) -> Option<Entity>
    decreases s.len(),
{
    if s.len() == 0 {
        None
    } else if entity_id_spec(s.first()) == id {
        Some(s.first())
    } else {
        lookup_spec(s.drop_first(), id)
    }
}

/// The per-batch entity resolution context: either empty (no entities
/// available, e.g. for compact envelope forms) or owning the entities of one
/// freshly decoded batch. Not mutated after construction.
#[derive(Clone, Debug)]
pub enum EntitySet {
    Empty,
    Owned { entities: Vec<Entity> },
}

impl View for EntitySet {
    type V = Seq<Entity>;

    open spec fn view(&self) -> Seq<Entity> {
        match self {
            EntitySet::Empty => Seq::empty(),
            EntitySet::Owned { entities } => entities@,
        }
    }
}

impl EntitySet {
    /// A context with no entities.
    pub fn empty() -> (r: EntitySet)
        ensures
            r == EntitySet::Empty,
    {
        EntitySet::Empty
    }

    /// A context owning the entities of the given decoded batch.
    pub fn from_parts(users: Vec<WireUser>, chats: Vec<WireChat>) -> (r: EntitySet)
        ensures
            r@ == batch_entities(users@, chats@),
            r matches EntitySet::Owned { .. },
    {
        let mut entities: Vec<Entity> = Vec::new();
        let mut users = users;
        let mut chats = chats;
        let ghost users0 = users@;
        let ghost chats0 = chats@;
        while users.len() > 0
            invariant
                entities@ + batch_entities(users@, chats@) == batch_entities(users0, chats0),
                chats@ == chats0,
            decreases users.len(),
        {
            let u = users.remove(0);
            match u {
                WireUser::User(data) => {
                    entities.push(Entity::User(data));
                },
                WireUser::Empty { .. } => {},
            }
        }
        while chats.len() > 0
            invariant
                users@.len() == 0,
                entities@ + batch_entities(users@, chats@) == batch_entities(users0, chats0),
            decreases chats.len(),
        {
            let c = chats.remove(0);
            match c {
                WireChat::Chat(data) => {
                    entities.push(Entity::Chat(data));
                },
                WireChat::Channel(data) => {
                    entities.push(Entity::Channel(data));
                },
                _ => {},
            }
        }
        assert(entities@ == batch_entities(users0, chats0));
        EntitySet::Owned { entities }
    }

    /// Looks up an entity by id: the first entity of the batch carrying that
    /// id, or none.
    pub fn lookup(&self, id: i32) -> (r: Option<&Entity>)
        ensures
            match r {
                Some(e) => lookup_spec(self@, id) == Some(*e),
                None => lookup_spec(self@, id) is None,
            },
    {
        match self {
            EntitySet::Empty => None,
            EntitySet::Owned { entities } => {
                let mut i: usize = 0;
                assert(entities@.skip(0) =~= entities@);
                while i < entities.len()
                    invariant
                        i <= entities.len(),
                        self@ == entities@,
                        lookup_spec(entities@.skip(i as int), id) == lookup_spec(entities@, id),
                    decreases entities.len() - i,
                {
                    assert(entities@.skip(i as int).first() == entities@[i as int]);
                    assert(entities@.skip(i as int).drop_first() =~= entities@.skip(i as int + 1));
                    if entities[i].id() == id {
                        return Some(&entities[i]);
                    }
                    i = i + 1;
                }
                None
            },
        }
    }
}

/// Every entity a batch carries is resolvable by its id: looking its id up in
/// the context's entities yields an entity with that very id.
pub proof fn lemma_lookup_resolves(s: Seq<Entity>, id: i32)
    requires
        exists|j: int| 0 <= j < s.len() && entity_id_spec(s[j]) == id,
    ensures
        lookup_spec(s, id) matches Some(e) && entity_id_spec(e) == id,
    decreases s.len(),
{
    if entity_id_spec(s.first()) == id {
    } else {
        let j = choose|j: int| 0 <= j < s.len() && entity_id_spec(s[j]) == id;
        assert(s.drop_first()[j - 1] == s[j]);
        lemma_lookup_resolves(s.drop_first(), id);
    }
}

} // verus!
