//! The concurrent exported-buffer registry of one swapchain.
//!
//! The GPU submission thread records which source image last wrote each
//! exported buffer, and the bus thread reads and removes entries on
//! delivery and teardown; the map must therefore be safe for simultaneous
//! access from both.  The map itself comes from an outside concurrency
//! library; its contents are named here and every access goes through a
//! wrapper with a stated contract.

use vstd::prelude::*;

use dashmap::DashMap;

verus! {

/// Declares the outside concurrent map type to the verifier.
#[verifier::external_type_specification]
#[verifier::external_body]
#[verifier::reject_recursive_types(K)]
#[verifier::reject_recursive_types(V)]
#[verifier::reject_recursive_types(S)]
pub struct ExDashMap<K, V, S>(DashMap<K, V, S>);

/// A last-writer record: the index of the source image that last wrote an
/// exported buffer, and the generation sequence of that write.
pub type WriterRecord = (u64, u64);

/// What the registry holds: the last-writer record of each live exported
/// buffer's handle.
pub uninterp spec fn export_map_contents(m: DashMap<u64, WriterRecord>) -> Map<u64, WriterRecord>;

/// The empty registry contents.
pub open spec fn export_map_empty() -> Map<u64, WriterRecord> {
    Map::empty()
}

/// Relies on dashmap::DashMap::new: creates an empty map.
#[verifier::external_body]
pub fn export_map_new() -> (m: DashMap<u64, WriterRecord>)
    ensures
        export_map_contents(m) == export_map_empty(),
{
    DashMap::new()
}

/// Relies on dashmap::DashMap::insert: maps `key` to `value`, returning the
/// value it displaced if the key was already present.
#[verifier::external_body]
pub fn export_map_insert(m: &mut DashMap<u64, WriterRecord>, key: u64, value: WriterRecord) -> (r:
    Option<WriterRecord>)
    ensures
        export_map_contents(*final(m)) == export_map_contents(*old(m)).insert(key, value),
        r == if export_map_contents(*old(m)).dom().contains(key) {
            Some(export_map_contents(*old(m))[key])
        } else {
            None::<WriterRecord>
        },
{
    m.insert(key, value)
}

/// Relies on dashmap::DashMap::remove: takes the key's entry out, returning
/// its value if it existed; a missing key leaves the map unchanged.
#[verifier::external_body]
pub fn export_map_remove(m: &mut DashMap<u64, WriterRecord>, key: u64) -> (r: Option<WriterRecord>)
    ensures
        export_map_contents(*final(m)) == export_map_contents(*old(m)).remove(key),
        r == if export_map_contents(*old(m)).dom().contains(key) {
            Some(export_map_contents(*old(m))[key])
        } else {
            None::<WriterRecord>
        },
{
    m.remove(&key).map(|(_k, v)| v)
}

/// Relies on dashmap::DashMap::get: copies the key's value out, if present.
#[verifier::external_body]
pub fn export_map_get(m: &DashMap<u64, WriterRecord>, key: u64) -> (r: Option<WriterRecord>)
    ensures
        r == if export_map_contents(*m).dom().contains(key) {
            Some(export_map_contents(*m)[key])
        } else {
            None::<WriterRecord>
        },
{
    m.get(&key).map(|entry| *entry)
}

/// Relies on dashmap::DashMap::contains_key.
#[verifier::external_body]
pub fn export_map_contains(m: &DashMap<u64, WriterRecord>, key: u64) -> (r: bool)
    ensures
        r == export_map_contents(*m).dom().contains(key),
{
    m.contains_key(&key)
}

} // verus!
