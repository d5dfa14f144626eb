//! The durable backend: a stable cell for the identifier counter and a stable
//! ordered map for the ticket rows. Everything in this file is believed, not
//! proved; the rest of the crate is verified against these contracts.
//!
//! A cell and a map each own their region of the memory: the contracts hold
//! of structures that nothing else writes into.
//!
//! The structures write through to stable memory on every change. Where that
//! memory cannot grow any further they abort, as an allocation that fails
//! does; and the two loading calls abort on a region that holds a structure
//! in a layout they do not know.

use ic_stable_structures::memory_manager::{MemoryId, MemoryManager, VirtualMemory};
use ic_stable_structures::{Cell, DefaultMemoryImpl, StableBTreeMap};
use vstd::prelude::*;

verus! {

/// What the map keeps for one ticket, under the ticket's id: concert name,
/// seat number, then price bits, booked flag, and the timestamps (created,
/// whether an update happened, time of the last update).
pub type Row = (String, String, (u64, bool, (u64, bool, u64)));

/// The mathematical value of a [`Row`].
pub type RowView = (Seq<char>, Seq<char>, (u64, bool, (u64, bool, u64)));

/// The greatest number of bytes of a row: the map writes the length of a
/// value in four bytes.
pub const MAX_ROW_BYTES: u64 = 0xFFFF_FFFF;

/// The bytes of a row besides its two texts and their lengths: one byte that
/// says how long the two lengths are, two flags of one byte each, and three
/// numbers of eight bytes each.
pub const ROW_FIXED_BYTES: u64 = 27;

/// The number of bytes that `text` takes in UTF-8.
pub open spec fn utf8_len(text: Seq<char>) -> nat {
    vstd::utf8::encode_utf8(text).len()
}

/// The number of bytes in which a row keeps the length `n` of a text.
pub open spec fn length_bytes(n: nat) -> nat {
    if n <= 0xFF {
        1
    } else if n <= 0xFFFF {
        2
    } else {
        4
    }
}

/// The number of bytes of a row with the texts `first` and `second`.
pub open spec fn row_bytes(first: Seq<char>, second: Seq<char>) -> nat {
    ROW_FIXED_BYTES as nat + length_bytes(utf8_len(first)) + utf8_len(first) + length_bytes(
        utf8_len(second),
    ) + utf8_len(second)
}

/// Whether the map can keep a row with the texts `first` and `second`.
pub open spec fn texts_fit(first: Seq<char>, second: Seq<char>) -> bool {
    row_bytes(first, second) <= MAX_ROW_BYTES
}

/// Whether the map can keep `row`.
pub open spec fn row_fits(row: RowView) -> bool {
    texts_fit(row.0, row.1)
}

/// The stable memory, split into one region per structure by a
/// `MemoryManager`.
#[verifier::external_body]
pub struct Regions {
    manager: MemoryManager<DefaultMemoryImpl>,
}

/// One region of the stable memory: a `VirtualMemory`.
#[verifier::external_body]
pub struct Region {
    memory: VirtualMemory<DefaultMemoryImpl>,
}

/// The durable counter: a `Cell` of one `u64`.
#[verifier::external_body]
pub struct IdCell {
    cell: Cell<u64, VirtualMemory<DefaultMemoryImpl>>,
}

/// The durable map: a `StableBTreeMap` from id to row.
#[verifier::external_body]
pub struct RowMap {
    map: StableBTreeMap<u64, Row, VirtualMemory<DefaultMemoryImpl>>,
}

/// The number that a counter cell holds.
pub uninterp spec fn cell_value(cell: IdCell) -> u64;

/// The rows that a map holds, by key.
pub uninterp spec fn map_rows(map: RowMap) -> Map<u64, RowView>;

/// `MemoryManager::init` on the default memory. Nothing is claimed of it.
#[verifier::external_body]
pub(crate) fn regions() -> Regions {
    Regions { manager: MemoryManager::init(DefaultMemoryImpl::default()) }
}

/// `MemoryManager::get`, with the id made by `MemoryId::new`, which takes
/// any number but 255. Nothing is claimed of the region.
#[verifier::external_body]
pub(crate) fn region(regions: &Regions, index: u8) -> Region
    requires
        index < 255,
{
    Region { memory: regions.manager.get(MemoryId::new(index)) }
}

/// `Cell::new`: writes `value` over whatever the region held, and the cell
/// then holds `value`.
#[verifier::external_body]
pub(crate) fn cell_new(region: Region, value: u64) -> (fresh: IdCell)
    ensures
        cell_value(fresh) == value,
{
    IdCell { cell: Cell::new(region.memory, value) }
}

/// `Cell::init`: loads the cell that the region holds, or makes one with
/// `default_value` where it holds none. Which value comes back depends on
/// the memory, so nothing is claimed of it.
#[verifier::external_body]
pub(crate) fn cell_init(region: Region, default_value: u64) -> IdCell {
    IdCell { cell: Cell::init(region.memory, default_value) }
}

/// `Cell::get`: the value that the cell holds.
#[verifier::external_body]
pub(crate) fn cell_get(cell: &IdCell) -> (value: u64)
    ensures
        value == cell_value(*cell),
{
    *cell.cell.get()
}

/// `Cell::set`: writes `value` through to memory; the cell then holds it.
/// The value that it held before is returned.
#[verifier::external_body]
pub(crate) fn cell_set(cell: &mut IdCell, value: u64) -> (previous: u64)
    ensures
        cell_value(*final(cell)) == value,
        previous == cell_value(*old(cell)),
{
    cell.cell.set(value)
}

/// `StableBTreeMap::new`: an empty map, written over whatever the region
/// held.
#[verifier::external_body]
pub(crate) fn map_new(region: Region) -> (fresh: RowMap)
    ensures
        map_rows(fresh) =~= Map::empty(),
{
    RowMap { map: StableBTreeMap::new(region.memory) }
}

/// `StableBTreeMap::init`: loads the map that the region holds, or makes an
/// empty one where it holds none. What it holds depends on the memory, so
/// nothing is claimed of it.
#[verifier::external_body]
pub(crate) fn map_init(region: Region) -> RowMap {
    RowMap { map: StableBTreeMap::init(region.memory) }
}

/// `StableBTreeMap::get`: a copy of the row under `key`, if there is one.
/// A row that is read back is within the limit, since the map reads the
/// length of a value from four bytes.
#[verifier::external_body]
pub(crate) fn map_get(map: &RowMap, key: u64) -> (row: Option<Row>)
    ensures
        row.is_some() == map_rows(*map).dom().contains(key),
        row.is_some() ==> row.unwrap()@ == map_rows(*map)[key],
        row.is_some() ==> row_fits(row.unwrap()@),
{
    map.map.get(&key)
}

/// `StableBTreeMap::insert`: puts `row` under `key`, replacing the row that
/// was there, and returns the replaced row. A row over the limit is left out:
/// the map would cut its length short.
#[verifier::external_body]
pub(crate) fn map_insert(map: &mut RowMap, key: u64, row: Row) -> (previous: Option<Row>)
    requires
        row_fits(row@),
    ensures
        map_rows(*final(map)) == map_rows(*old(map)).insert(key, row@),
        previous.is_some() == map_rows(*old(map)).dom().contains(key),
        previous.is_some() ==> previous.unwrap()@ == map_rows(*old(map))[key],
{
    map.map.insert(key, row)
}

/// `StableBTreeMap::remove`: takes out the row under `key`, if there is one,
/// and returns it.
#[verifier::external_body]
pub(crate) fn map_remove(map: &mut RowMap, key: u64) -> (removed: Option<Row>)
    ensures
        map_rows(*final(map)) == map_rows(*old(map)).remove(key),
        removed.is_some() == map_rows(*old(map)).dom().contains(key),
        removed.is_some() ==> removed.unwrap()@ == map_rows(*old(map))[key],
{
    map.map.remove(&key)
}

/// `StableBTreeMap::last_key_value`, of which only the key is kept: the
/// greatest key of the map, or `None` where the map is empty.
#[verifier::external_body]
pub(crate) fn map_last_key(map: &RowMap) -> (last: Option<u64>)
    ensures
        last.is_none() ==> map_rows(*map).dom() =~= Set::empty(),
        last.is_some() ==> map_rows(*map).dom().contains(last.unwrap()),
        last.is_some() ==> forall|k: u64| #[trigger]
            map_rows(*map).dom().contains(k) ==> k <= last.unwrap(),
{
    map.map.last_key_value().map(|entry| entry.0)
}

} // verus!
