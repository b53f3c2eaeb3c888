//! The byte form of a registry: its rooms listed as rows of plain values,
//! written in MessagePack.
use crate::room::{RoomId, RoomView, Roomlist, Room, Timestamp};
use vstd::prelude::*;

verus! {

/// One room as a row of plain values: identifier, name, description,
/// creation seconds and nanoseconds, update seconds and nanoseconds.
pub type RoomRow = (u128, String, String, i64, u32, i64, u32);

/// The room that a row describes.
pub open spec fn row_view(row: RoomRow) -> RoomView {
    RoomView {
        id: row.0,
        name: row.1@,
        description: row.2@,
        created_at: Timestamp { secs: row.3, nanos: row.4 },
        updated_at: Timestamp { secs: row.5, nanos: row.6 },
    }
}

pub open spec fn rows_view(rows: Seq<RoomRow>) -> Seq<RoomView> {
    rows.map_values(|row: RoomRow| row_view(row))
}

/// `rows` lists every room of `m` exactly once.
pub open spec fn listing_of(rows: Seq<RoomView>, m: Map<RoomId, RoomView>) -> bool {
    &&& forall|i: int| 0 <= i < rows.len() ==> #[trigger] m.contains_key(rows[i].id) && m[rows[i].id] == rows[i]
    &&& forall|i: int, j: int| 0 <= i < j < rows.len() ==> #[trigger] rows[i].id != #[trigger] rows[j].id
    &&& forall|k: RoomId| #[trigger] m.contains_key(k) ==> exists|i: int| 0 <= i < rows.len() && rows[i].id == k
}

/// The registry that holds the rooms of `rows`, each under its own
/// identifier; of two rows with one identifier the later one stays.
pub open spec fn rows_registry(rows: Seq<RoomView>) -> Map<RoomId, RoomView>
    decreases rows.len(),
{
    if rows.len() == 0 {
        Map::empty()
    } else {
        rows_registry(rows.drop_last()).insert(rows.last().id, rows.last())
    }
}

/// The MessagePack bytes of a list of rows, or `None` where the encoder
/// reports an error.
pub uninterp spec fn msgpack_rows(rows: Seq<RoomView>) -> Option<Seq<u8>>;

/// The rows that MessagePack bytes hold, or `None` where they hold no list
/// of rows.
pub uninterp spec fn rows_of_msgpack(bytes: Seq<u8>) -> Option<Seq<RoomView>>;

/// Relies on `rmp_serde::to_vec`: the encoding of the rows, or its error.
#[verifier::external_body]
fn encode_rows(rows: &Vec<RoomRow>) -> (r: Option<Vec<u8>>)
    ensures
        match r {
            Some(b) => msgpack_rows(rows_view(rows@)) == Some(b@),
            None => msgpack_rows(rows_view(rows@)) is None,
        },
{
    rmp_serde::to_vec(rows).ok()
}

/// Relies on `rmp_serde::from_slice`: the rows decoded from the bytes, or
/// its error.
#[verifier::external_body]
fn decode_rows(bytes: &Vec<u8>) -> (r: Option<Vec<RoomRow>>)
    ensures
        match r {
            Some(rows) => rows_of_msgpack(bytes@) == Some(rows_view(rows@)),
            None => rows_of_msgpack(bytes@) is None,
        },
{
    rmp_serde::from_slice(bytes.as_slice()).ok()
}

/// The bytes held by an optional buffer.
pub open spec fn bytes_view(r: Option<Vec<u8>>) -> Option<Seq<u8>> {
    match r {
        Some(b) => Some(b@),
        None => None,
    }
}

/// `bytes` is what encoding the registry `m` gives, for some listing of
/// its rooms (`None`: the encoder failed).
pub open spec fn encodes(m: Map<RoomId, RoomView>, bytes: Option<Seq<u8>>) -> bool {
    exists|rows: Seq<RoomView>| listing_of(rows, m) && msgpack_rows(rows) == bytes
}

/// The registry that `bytes` decode to, if they hold one.
pub open spec fn snapshot_of(bytes: Seq<u8>) -> Option<Map<RoomId, RoomView>> {
    match rows_of_msgpack(bytes) {
        Some(rows) => Some(rows_registry(rows)),
        None => None,
    }
}

/// The row of a room.
fn room_row(room: &Room) -> (row: RoomRow)
    ensures
        row_view(row) == room@,
{
    (
        room.id,
        room.name.clone(),
        room.description.clone(),
        room.created_at.secs,
        room.created_at.nanos,
        room.updated_at.secs,
        room.updated_at.nanos,
    )
}

/// The room of a row.
fn row_room(row: &RoomRow) -> (room: Room)
    ensures
        room@ == row_view(*row),
{
    Room {
        id: row.0,
        name: row.1.clone(),
        description: row.2.clone(),
        created_at: Timestamp { secs: row.3, nanos: row.4 },
        updated_at: Timestamp { secs: row.5, nanos: row.6 },
    }
}

/// The rows of every room of the registry, in the order its map yields them.
fn registry_rows(list: &Roomlist) -> (rows: Vec<RoomRow>)
    requires
        list.wf(),
    ensures
        listing_of(rows_view(rows@), list@),
{
    let mut rows: Vec<RoomRow> = Vec::new();
    for id in it: list.list.keys()
        invariant
            list.wf(),
            it.seq().len() == list.list@.dom().len(),
            it.seq().unref().no_duplicates(),
            it.seq().unref().to_set() == list.list@.dom(),
            rows.len() == it.index(),
            forall|i: int| 0 <= i < rows.len() ==> #[trigger] rows@[i].0 == it.seq().unref()[i],
            forall|i: int, j: int| 0 <= i < j < rows.len() ==> rows@[i].0 != rows@[j].0,
            forall|i: int| 0 <= i < rows.len() ==> list@.contains_key(rows@[i].0) && list@[rows@[i].0] == row_view(#[trigger] rows@[i]),
    {
        proof {
            assert(*id == it.seq().unref()[it.index()]);
            list.lemma_view();
        }
        let room = list.list.get(id).unwrap();
        rows.push(room_row(room));
    }
    proof {
        let rv = rows_view(rows@);
        let ids = rv.map_values(|r: RoomView| r.id);
        assert(rows.len() == list.list@.dom().len());
        list.lemma_view();
        assert forall|i: int, j: int| 0 <= i < j < ids.len() implies ids[i] != ids[j] by {
            assert(ids[i] == rows@[i].0 && ids[j] == rows@[j].0);
        }
        ids.unique_seq_to_set();
        assert forall|k: RoomId| ids.to_set().contains(k) implies list@.dom().contains(k) by {
            let i = ids.index_of(k);
            assert(ids[i] == rows@[i].0);
        }
        vstd::set_lib::lemma_subset_equality(ids.to_set(), list@.dom());
        assert forall|k: RoomId| #[trigger] list@.contains_key(k) implies exists|i: int| 0 <= i < rv.len() && rv[i].id == k by {
            assert(ids.to_set().contains(k));
            let i = ids.index_of(k);
            assert(rv[i].id == ids[i]);
        }
    }
    rows
}

/// The registry that holds the rooms of `rows`.
fn registry_from_rows(rows: &Vec<RoomRow>) -> (list: Roomlist)
    ensures
        list.wf(),
        list@ == rows_registry(rows_view(rows@)),
{
    let mut list = Roomlist::empty_roomlist();
    let mut i: usize = 0;
    while i < rows.len()
        invariant
            i <= rows.len(),
            list.wf(),
            list@ == rows_registry(rows_view(rows@).subrange(0, i as int)),
        decreases rows.len() - i,
    {
        let room = row_room(&rows[i]);
        list.insert_room(room);
        proof {
            let rv = rows_view(rows@);
            assert(rv.subrange(0, i + 1).drop_last() =~= rv.subrange(0, i as int));
        }
        i = i + 1;
    }
    proof {
        assert(rows_view(rows@).subrange(0, rows.len() as int) =~= rows_view(rows@));
    }
    list
}

/// The bytes of a registry: the MessagePack form of the rows of its rooms.
/// `None` where the encoder reports an error.
pub fn encode_registry(list: &Roomlist) -> (r: Option<Vec<u8>>)
    requires
        list.wf(),
    ensures
        encodes(list@, bytes_view(r)),
{
    let rows = registry_rows(list);
    let r = encode_rows(&rows);
    proof {
        assert(listing_of(rows_view(rows@), list@) && msgpack_rows(rows_view(rows@)) == bytes_view(r));
    }
    r
}

/// The registry that `bytes` hold; `None` where they hold no list of rows.
pub fn decode_registry(bytes: &Vec<u8>) -> (r: Option<Roomlist>)
    ensures
        match r {
            Some(list) => list.wf() && snapshot_of(bytes@) == Some(list@),
            None => snapshot_of(bytes@) is None,
        },
{
    match decode_rows(bytes) {
        Some(rows) => Some(registry_from_rows(&rows)),
        None => None,
    }
}

/// Where the format reads back the rows it wrote for a registry, decoding
/// the bytes of that registry gives the registry again.
pub proof fn law_snapshot_round_trip(m: Map<RoomId, RoomView>, rows: Seq<RoomView>, bytes: Seq<u8>)
    requires
        listing_of(rows, m),
        msgpack_rows(rows) == Some(bytes),
        rows_of_msgpack(bytes) == Some(rows),
    ensures
        encodes(m, Some(bytes)),
        snapshot_of(bytes) == Some(m),
{
    law_rows_round_trip(rows, m);
}

/// Reading back the rows of a listing of a registry gives that registry.
pub proof fn law_rows_round_trip(rows: Seq<RoomView>, m: Map<RoomId, RoomView>)
    requires
        listing_of(rows, m),
    ensures
        rows_registry(rows) == m,
    decreases rows.len(),
{
    if rows.len() == 0 {
        assert(m =~= Map::<RoomId, RoomView>::empty());
    } else {
        let last = rows.last();
        let front = rows.drop_last();
        let rest = m.remove(last.id);
        assert forall|i: int| 0 <= i < front.len() implies #[trigger] rest.contains_key(front[i].id) && rest[front[i].id] == front[i] by {
            assert(rows[i].id != rows[rows.len() - 1].id);
        }
        assert forall|k: RoomId| #[trigger] rest.contains_key(k) implies exists|i: int| 0 <= i < front.len() && front[i].id == k by {
            let i = choose|i: int| 0 <= i < rows.len() && rows[i].id == k;
            assert(front[i].id == k);
        }
        assert forall|i: int, j: int| 0 <= i < j < front.len() implies #[trigger] front[i].id != #[trigger] front[j].id by {
            assert(rows[i].id != rows[j].id);
        }
        law_rows_round_trip(front, rest);
        assert(rows_registry(rows) =~= m);
    }
}

} // verus!
