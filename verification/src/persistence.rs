//! Durable storage of the selected preset index. The wear-levelling
//! log-structured key-value store comes from the `sequential_storage` crate
//! and is treated as a black box over an in-memory flash region; only its
//! documented durability contract is assumed, and the best-effort save/load
//! policy around it is verified.

use vstd::prelude::*;

use sequential_storage::cache::Cache;
use sequential_storage::cache::Uncached;
use sequential_storage::map::MapConfig;
use sequential_storage::map::MapStorage;
use sequential_storage::mock_flash::MockFlashBase;
use sequential_storage::mock_flash::WriteCountCheck;

verus! {

/// The fixed logical key under which the preset index is stored.
pub const STATE_STORAGE_KEY: u8 = 0;

/// How many flash pages the log region spans; more pages spread the erase
/// wear further.
pub const FILESYSTEM_SIZE_PAGES: usize = 22;

/// A log-structured key-value store over a page-erased flash region. The
/// region starts in the all-ones erased pattern, which the store reads as
/// "no records".
#[verifier::external_body]
pub struct FlashStore {
    storage: MapStorage<u8, MockFlashBase<22, 4, 256>, Cache<Uncached, Uncached, Uncached, u8>>,
}

/// The records the store currently holds, as a map from key to value.
pub uninterp spec fn stored_map(s: FlashStore) -> Map<u8, u8>;

/// A record map with nothing in it.
pub open spec fn no_records() -> Map<u8, u8> {
    Map::empty()
}

/// Relies on sequential_storage::map::MapStorage::new over a freshly erased
/// flash region (MockFlashBase::new yields the all-ones pattern): the store
/// treats an erased region as holding no records.
#[verifier::external_body]
fn flash_store_new() -> (s: FlashStore)
    ensures
        stored_map(s) == no_records(),
{
    let flash = MockFlashBase::new(WriteCountCheck::Twice, None, true);
    let config = MapConfig::new(0..(FILESYSTEM_SIZE_PAGES as u32) * 1024);
    FlashStore { storage: MapStorage::new(flash, config, Cache::new_uncached()) }
}

/// Relies on sequential_storage::map::MapStorage::store_item: the value is
/// committed under the key, overwriting any older record for that key. On
/// this in-memory region the write always succeeds: the store keeps at most
/// one live record per possible key, far below the 22-page capacity, the
/// buffer is large enough for any record, and the flash injects no
/// failures, so none of store_item's error paths is reachable.
#[verifier::external_body]
fn flash_store_u8(s: &mut FlashStore, key: u8, value: u8) -> (ok: bool)
    ensures
        ok,
        stored_map(*final(s)) == stored_map(*old(s)).insert(key, value),
{
    let mut data_buffer = [0u8; 2048];
    embassy_futures::block_on(s.storage.store_item(&mut data_buffer, &key, &value)).is_ok()
}

/// Relies on sequential_storage::map::MapStorage::fetch_item: it returns
/// the last value committed under the key, or nothing when the key has no
/// record, and reading never changes the committed records. On this
/// in-memory region a read cannot fail: every record was written whole (no
/// power loss or failure injection, so no corruption arises), and all reads
/// are aligned and in bounds.
#[verifier::external_body]
fn flash_fetch_u8(s: &mut FlashStore, key: u8) -> (r: Option<u8>)
    ensures
        stored_map(*final(s)) == stored_map(*old(s)),
        r == (if stored_map(*old(s)).contains_key(key) {
            Some(stored_map(*old(s))[key])
        } else {
            None::<u8>
        }),
{
    let mut data_buffer = [0u8; 2048];
    embassy_futures::block_on(s.storage.fetch_item::<u8>(&mut data_buffer, &key)).unwrap()
}

/// Relies on sequential_storage::map::MapStorage::destroy and new: the
/// records live in the flash itself, and the uncached cache holds no state,
/// so tearing the store down and rebuilding it around the same flash — a
/// power cycle — preserves every committed record.
#[verifier::external_body]
fn flash_store_power_cycle(s: FlashStore) -> (t: FlashStore)
    ensures
        stored_map(t) == stored_map(s),
{
    let (flash, _cache) = s.storage.destroy();
    let config = MapConfig::new(0..(FILESYSTEM_SIZE_PAGES as u32) * 1024);
    FlashStore { storage: MapStorage::new(flash, config, Cache::new_uncached()) }
}

/// Persistence of the preset index under one fixed key: saves report
/// whether they committed, loads resolve absence to nothing.
pub struct Persistence {
    pub store: FlashStore,
}

impl Persistence {
    /// The records the persistence region currently holds.
    pub open spec fn stored(self) -> Map<u8, u8> {
        stored_map(self.store)
    }

    /// Set up persistence over a freshly erased region: no record yet.
    pub fn new() -> (p: Persistence)
        ensures
            p.stored() == no_records(),
    {
        Persistence { store: flash_store_new() }
    }

    /// Write the preset index under the fixed key. The result says whether
    /// the index was committed; on this in-memory store the write always
    /// succeeds, and the best-effort caller carries on either way.
    pub fn save_state(&mut self, state_idx: usize) -> (persisted: bool)
        requires
            state_idx <= u8::MAX,
        ensures
            persisted,
            final(self).stored() == old(self).stored().insert(
                STATE_STORAGE_KEY,
                state_idx as u8,
            ),
    {
        flash_store_u8(&mut self.store, STATE_STORAGE_KEY, state_idx as u8)
    }

    /// Read the preset index: exactly the last committed value, or nothing
    /// when no record exists — in which case the caller substitutes the
    /// build-time default. Never an error.
    pub fn load_state(&mut self) -> (r: Option<usize>)
        ensures
            final(self).stored() == old(self).stored(),
            r == (if old(self).stored().contains_key(STATE_STORAGE_KEY) {
                Some(old(self).stored()[STATE_STORAGE_KEY] as usize)
            } else {
                None::<usize>
            }),
    {
        match flash_fetch_u8(&mut self.store, STATE_STORAGE_KEY) {
            Some(v) => Some(v as usize),
            None => None,
        }
    }

    /// Simulate a reboot: the store is torn down and rebuilt around the same
    /// flash, keeping every committed record.
    pub fn power_cycle(self) -> (p: Persistence)
        ensures
            p.stored() == self.stored(),
    {
        Persistence { store: flash_store_power_cycle(self.store) }
    }
}

/// Round-trip persistence: saving an index, power-cycling and loading gives
/// back exactly the saved index — the record is committed by the save and
/// survives the power cycle.
pub fn save_power_cycle_load(p: Persistence, state_idx: usize) -> (r: (
    Persistence,
    bool,
    Option<usize>,
))
    requires
        state_idx <= u8::MAX,
    ensures
        r.1,
        r.0.stored().contains_key(STATE_STORAGE_KEY)
            && r.0.stored()[STATE_STORAGE_KEY] == state_idx,
        r.2 == Some(state_idx),
{
    let mut p = p;
    let persisted = p.save_state(state_idx);
    let mut p = p.power_cycle();
    let loaded = p.load_state();
    (p, persisted, loaded)
}

/// A store whose region was never written holds no record: loading from it
/// yields nothing, and the caller falls back to the build-time default.
pub fn load_from_erased_store() -> (r: Option<usize>)
    ensures
        r is None,
{
    let mut p = Persistence::new();
    p.load_state()
}

} // verus!
