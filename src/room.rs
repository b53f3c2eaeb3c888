//! Rooms and the registry that holds them, keyed by a 128-bit identifier.
use std::collections::HashMap;
use vstd::prelude::*;

verus! {

/// Identifier of a room: the 128 bits of a random (version 4) UUID.
pub type RoomId = u128;

/// A point in time: whole seconds since the Unix epoch and the
/// nanoseconds past that second.
#[derive(Clone, Copy, PartialEq, Eq, Structural, Debug)]
pub struct Timestamp {
    pub secs: i64,
    pub nanos: u32,
}

impl Timestamp {
    pub fn new(secs: i64, nanos: u32) -> (r: Timestamp)
        ensures
            r.secs == secs,
            r.nanos == nanos,
    {
        Timestamp { secs, nanos }
    }

    /// Whole seconds since the Unix epoch.
    pub fn timestamp(&self) -> (r: i64)
        ensures
            r == self.secs,
    {
        self.secs
    }
}

/// A single record of the registry.
#[derive(Clone, Debug, PartialEq, Eq)]
pub struct Room {
    pub id: RoomId,
    pub name: String,
    pub description: String,
    pub created_at: Timestamp,
    pub updated_at: Timestamp,
}

/// The mathematical value of a room: its identifier, texts and timestamps.
pub struct RoomView {
    pub id: RoomId,
    pub name: Seq<char>,
    pub description: Seq<char>,
    pub created_at: Timestamp,
    pub updated_at: Timestamp,
}

impl View for Room {
    type V = RoomView;

    open spec fn view(&self) -> RoomView {
        RoomView {
            id: self.id,
            name: self.name@,
            description: self.description@,
            created_at: self.created_at,
            updated_at: self.updated_at,
        }
    }
}

/// Every room of `m` is stored under its own identifier.
pub open spec fn keyed(m: Map<RoomId, RoomView>) -> bool {
    forall|k: RoomId| #[trigger] m.contains_key(k) ==> m[k].id == k
}

/// The room a freshly created record holds.
pub open spec fn new_room(id: RoomId, name: Seq<char>, description: Seq<char>, now: Timestamp) -> RoomView {
    RoomView { id, name, description, created_at: now, updated_at: now }
}

/// The registry after `create` has stored a room under `id`.
pub open spec fn created(
    m: Map<RoomId, RoomView>,
    id: RoomId,
    name: Seq<char>,
    description: Seq<char>,
    now: Timestamp,
) -> Map<RoomId, RoomView> {
    m.insert(id, new_room(id, name, description, now))
}

/// What `find` reports for `id`.
pub open spec fn found(m: Map<RoomId, RoomView>, id: RoomId) -> Option<RoomView> {
    if m.contains_key(id) {
        Some(m[id])
    } else {
        None
    }
}

/// The registry after `update` of `id`: absent when no room has that
/// identifier, else the room with new texts and `updated_at`, created as
/// before.
pub open spec fn updated(
    m: Map<RoomId, RoomView>,
    id: RoomId,
    name: Seq<char>,
    description: Seq<char>,
    now: Timestamp,
) -> Option<Map<RoomId, RoomView>> {
    if m.contains_key(id) {
        Some(
            m.insert(
                id,
                RoomView { id, name, description, created_at: m[id].created_at, updated_at: now },
            ),
        )
    } else {
        None
    }
}

/// One mutation of a registry, as a caller requests it.
pub enum RegistryStep {
    Create { id: RoomId, name: Seq<char>, description: Seq<char>, now: Timestamp },
    Update { id: RoomId, name: Seq<char>, description: Seq<char>, now: Timestamp },
}

/// A registry after one step; a failed update leaves it as it was.
pub open spec fn apply_step(m: Map<RoomId, RoomView>, step: RegistryStep) -> Map<RoomId, RoomView> {
    match step {
        RegistryStep::Create { id, name, description, now } => created(m, id, name, description, now),
        RegistryStep::Update { id, name, description, now } => match updated(
            m,
            id,
            name,
            description,
            now,
        ) {
            Some(m2) => m2,
            None => m,
        },
    }
}

/// The registry that the steps build, one after another, from an empty one.
pub open spec fn replay(steps: Seq<RegistryStep>) -> Map<RoomId, RoomView>
    decreases steps.len(),
{
    if steps.len() == 0 {
        Map::empty()
    } else {
        apply_step(replay(steps.drop_last()), steps.last())
    }
}

/// The identifiers that the create steps among `steps` returned.
pub open spec fn created_ids(steps: Seq<RegistryStep>) -> Set<RoomId>
    decreases steps.len(),
{
    if steps.len() == 0 {
        Set::empty()
    } else {
        match steps.last() {
            RegistryStep::Create { id, .. } => created_ids(steps.drop_last()).insert(id),
            RegistryStep::Update { .. } => created_ids(steps.drop_last()),
        }
    }
}

/// After `create`, `find` on the returned identifier yields a room with the
/// given name and description, created and updated at `now`.
pub proof fn law_find_after_create(
    m: Map<RoomId, RoomView>,
    id: RoomId,
    name: Seq<char>,
    description: Seq<char>,
    now: Timestamp,
)
    ensures
        found(created(m, id, name, description, now), id) == Some(
            RoomView { id, name, description, created_at: now, updated_at: now },
        ),
{
}

/// In a registry built from an empty one, an identifier that no `create`
/// returned is found by neither `find` nor `update`.
pub proof fn law_unknown_id_absent(
    steps: Seq<RegistryStep>,
    id: RoomId,
    name: Seq<char>,
    description: Seq<char>,
    now: Timestamp,
)
    requires
        !created_ids(steps).contains(id),
    ensures
        found(replay(steps), id) is None,
        updated(replay(steps), id, name, description, now) is None,
    decreases steps.len(),
{
    if steps.len() > 0 {
        law_unknown_id_absent(steps.drop_last(), id, name, description, now);
    }
}

/// After a successful `update` of an existing room, `find` yields the new
/// name, description and `updated_at`, and the original `created_at`.
pub proof fn law_find_after_update(
    m: Map<RoomId, RoomView>,
    id: RoomId,
    name: Seq<char>,
    description: Seq<char>,
    now: Timestamp,
)
    requires
        m.contains_key(id),
    ensures
        updated(m, id, name, description, now) is Some,
        found(updated(m, id, name, description, now)->Some_0, id) == Some(
            RoomView { id, name, description, created_at: m[id].created_at, updated_at: now },
        ),
{
}

/// Draws a fresh identifier.
///
/// Relies on `uuid::Uuid::new_v4` (random bits with the version nibble set
/// to 4 and the variant bits to `10`) and `Uuid::as_u128` (the big-endian
/// value of its bytes).
#[verifier::external_body]
fn fresh_room_id() -> (r: RoomId)
    ensures
        (r >> 76u128) & 0xfu128 == 4,
        (r >> 62u128) & 0x3u128 == 2,
{
    uuid::Uuid::new_v4().as_u128()
}

/// The registry: rooms keyed by identifier, each stored under its own id.
pub struct Roomlist {
    pub(crate) list: HashMap<RoomId, Room>,
}

impl View for Roomlist {
    type V = Map<RoomId, RoomView>;

    closed spec fn view(&self) -> Map<RoomId, RoomView> {
        self.list@.map_values(|r: Room| r@)
    }
}

impl Roomlist {
    /// Well-formed: every room is stored under its own identifier.
    pub open spec fn wf(&self) -> bool {
        keyed(self@)
    }

    /// The registry's rooms are the stored ones, seen as values.
    pub(crate) proof fn lemma_view(&self)
        ensures
            self@.dom() == self.list@.dom(),
            forall|k: RoomId| #[trigger] self.list@.contains_key(k) ==> self@[k] == self.list@[k]@,
    {
        assert(self@.dom() =~= self.list@.dom());
    }

    /// A registry with no rooms.
    pub fn empty_roomlist() -> (r: Roomlist)
        ensures
            r@ == Map::<RoomId, RoomView>::empty(),
            r.wf(),
    {
        let r = Roomlist { list: HashMap::new() };
        assert(r@ =~= Map::<RoomId, RoomView>::empty());
        r
    }

    /// Number of rooms.
    pub fn len(&self) -> (r: usize)
        ensures
            r == self@.len(),
    {
        proof {
            self.lemma_view();
        }
        self.list.len()
    }

    /// The room stored under `id`, if any.
    pub fn find(&self, id: &RoomId) -> (r: Option<&Room>)
        ensures
            match r {
                Some(room) => found(self@, *id) == Some(room@),
                None => found(self@, *id) is None,
            },
    {
        self.list.get(id)
    }
    /// Stores `room` under its identifier, replacing any room stored there.
    pub(crate) fn insert_room(&mut self, room: Room)
        requires
            old(self).wf(),
        ensures
            final(self).wf(),
            final(self)@ == old(self)@.insert(room.id, room@),
    {
        let id = room.id;
        self.list.insert(id, room);
        proof {
            assert(final(self)@ =~= old(self)@.insert(room.id, room@));
        }
    }

    /// Stores a new room under a freshly drawn identifier and returns it.
    pub fn create_room(&mut self, name: String, description: String, now: Timestamp) -> (id: RoomId)
        requires
            old(self).wf(),
        ensures
            final(self).wf(),
            final(self)@ == created(old(self)@, id, name@, description@, now),
    {
        let id = fresh_room_id();
        let room = Room { id, name, description, created_at: now, updated_at: now };
        self.list.insert(id, room);
        proof {
            assert(final(self)@ =~= created(old(self)@, id, name@, description@, now));
        }
        id
    }

    /// Replaces the texts of the room `id` and stamps it with `now`; `None`,
    /// with the registry unchanged, when no room has that identifier.
    pub fn update_room(
        &mut self,
        id: RoomId,
        name: String,
        description: String,
        now: Timestamp,
    ) -> (r: Option<()>)
        requires
            old(self).wf(),
        ensures
            final(self).wf(),
            match updated(old(self)@, id, name@, description@, now) {
                Some(m) => r is Some && final(self)@ == m,
                None => r is None && final(self)@ == old(self)@,
            },
    {
        let created_at = match self.find(&id) {
            Some(target) => target.created_at,
            None => return None,
        };
        let room = Room { id, name, description, created_at, updated_at: now };
        self.list.insert(id, room);
        proof {
            assert(final(self)@ =~= updated(old(self)@, id, name@, description@, now)->Some_0);
        }
        Some(())
    }
}

} // verus!
