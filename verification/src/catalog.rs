//! The catalog index: the records of the items by storage key, and the
//! storage key of each item id. Both tables live in stable memory.
use crate::item::ItemId;
use crate::item::ItemKey;
use ic_stable_structures::memory_manager::VirtualMemory;
use ic_stable_structures::DefaultMemoryImpl;
use ic_stable_structures::StableBTreeMap;
use vstd::prelude::*;

verus! {

/// The number of storage keys that the generator issues at a time.
pub const KEYS_PER_BATCH: usize = 4;

/// The table from item id to storage key. Its field is open so that the
/// table can be set up on the memory that the store keeps for it. The two
/// tables of a catalog must stand on different memories: the contracts here
/// take a write to one to leave the other as it was, which holds only then.
#[verifier::external_body]
pub struct IdTable {
    pub inner: StableBTreeMap<ItemId, ItemKey, VirtualMemory<DefaultMemoryImpl>>,
}

/// The table from storage key to the encoded record of an item. Its field
/// is open so that the table can be set up on the memory that the store
/// keeps for it, which must not be the memory of the table of ids.
#[verifier::external_body]
pub struct ItemTable {
    pub inner: StableBTreeMap<ItemKey, Vec<u8>, VirtualMemory<DefaultMemoryImpl>>,
}

/// What the table of ids holds.
pub uninterp spec fn id_entries(table: IdTable) -> Map<ItemId, ItemKey>;

/// What the table of items holds.
pub uninterp spec fn item_entries(table: ItemTable) -> Map<ItemKey, Seq<u8>>;

/// Points `id` at `key`. Stands for `StableBTreeMap::insert`: the map then
/// holds the value under the key, and the value it held there before, if
/// any, is handed back. The call fails only when stable memory is exhausted.
#[verifier::external_body]
fn id_table_insert(table: &mut IdTable, id: ItemId, key: ItemKey) -> (previous: Option<ItemKey>)
    ensures
        id_entries(*final(table)) == id_entries(*old(table)).insert(id, key),
        previous == (if id_entries(*old(table)).contains_key(id) {
            Some(id_entries(*old(table))[id])
        } else {
            None
        }),
{
    table.inner.insert(id, key)
}

/// The storage key of `id`. Stands for `StableBTreeMap::get`: the value
/// under the key, if the map holds one.
#[verifier::external_body]
fn id_table_get(table: &IdTable, id: ItemId) -> (key: Option<ItemKey>)
    ensures
        key == (if id_entries(*table).contains_key(id) {
            Some(id_entries(*table)[id])
        } else {
            None
        }),
{
    table.inner.get(&id)
}

/// Files `record` under `key`. Stands for `StableBTreeMap::insert`: the map
/// then holds the value under the key, and whether it held one there before
/// is told by the result. The call fails only when stable memory is
/// exhausted.
#[verifier::external_body]
fn item_table_insert(table: &mut ItemTable, key: ItemKey, record: Vec<u8>) -> (previous: Option<
    Vec<u8>,
>)
    ensures
        item_entries(*final(table)) == item_entries(*old(table)).insert(key, record@),
        previous.is_some() == item_entries(*old(table)).contains_key(key),
        previous matches Some(bytes) ==> bytes@ == item_entries(*old(table))[key],
{
    table.inner.insert(key, record)
}

/// The record under `key`. Stands for `StableBTreeMap::get`: the value under
/// the key, if the map holds one.
#[verifier::external_body]
fn item_table_get(table: &ItemTable, key: ItemKey) -> (record: Option<Vec<u8>>)
    ensures
        record.is_some() == item_entries(*table).contains_key(key),
        record matches Some(bytes) ==> bytes@ == item_entries(*table)[key],
{
    table.inner.get(&key)
}

/// An item as it is stored: its id and its encoded record.
#[derive(Debug)]
pub struct ItemRecord {
    pub id: ItemId,
    pub bytes: Vec<u8>,
}

/// The encoded record of the item with id `id`: that under the storage key
/// that the id points at. There is none where the id is unknown or points at
/// a key that holds nothing.
pub open spec fn spec_find_item(
    items: Map<ItemKey, Seq<u8>>,
    ids: Map<ItemId, ItemKey>,
    id: ItemId,
) -> Option<Seq<u8>> {
    if ids.contains_key(id) && items.contains_key(ids[id]) {
        Some(items[ids[id]])
    } else {
        None
    }
}

/// Looks an item up by its id.
pub fn find_item(items: &ItemTable, ids: &IdTable, id: ItemId) -> (record: Option<Vec<u8>>)
    ensures
        record.is_some() == spec_find_item(item_entries(*items), id_entries(*ids), id).is_some(),
        record matches Some(bytes) ==> Some(bytes@) == spec_find_item(
            item_entries(*items),
            id_entries(*ids),
            id,
        ),
{
    match id_table_get(ids, id) {
        Some(key) => item_table_get(items, key),
        None => None,
    }
}

/// The number of batches of storage keys that `item_count` items need.
pub open spec fn spec_batches_needed(item_count: int) -> int {
    (item_count + 3) / 4
}

/// Gathers the storage keys for an insertion of items, batch by batch, until
/// every item has one.
#[derive(Debug)]
pub struct KeyCollector {
    /// The number of items to be inserted.
    pub needed: usize,
    /// The keys gathered so far, in the order of the items.
    pub keys: Vec<ItemKey>,
    /// The number of batches drawn on so far.
    pub batches: usize,
}

impl KeyCollector {
    /// The keys gathered are those of the batches drawn on, cut off at the
    /// number needed, and no batch was drawn on without need.
    pub open spec fn wf(&self) -> bool {
        &&& self.keys@.len() == if 4 * self.batches <= self.needed {
            4 * self.batches
        } else {
            self.needed as int
        }
        &&& (self.batches == 0 || 4 * (self.batches - 1) < self.needed)
    }

    /// Whether another batch is needed.
    pub open spec fn spec_needs_batch(&self) -> bool {
        self.keys@.len() < self.needed
    }

    /// The keys of `four_keys` that are taken when a batch is accepted.
    pub open spec fn taken(&self, four_keys: Seq<ItemKey>) -> Seq<ItemKey> {
        if self.needed - self.keys@.len() >= 4 {
            four_keys
        } else {
            four_keys.subrange(0, self.needed - self.keys@.len())
        }
    }

    pub fn new(item_count: usize) -> (collector: Self)
        ensures
            collector.wf(),
            collector.needed == item_count,
            collector.keys@ == Seq::<ItemKey>::empty(),
            collector.batches == 0,
    {
        KeyCollector { needed: item_count, keys: Vec::new(), batches: 0 }
    }

    /// Whether another batch is needed.
    pub fn needs_batch(&self) -> (needs: bool)
        ensures
            needs == self.spec_needs_batch(),
    {
        self.keys.len() < self.needed
    }

    /// Takes from a batch the keys still needed, in order. A batch offered
    /// when none is needed is left untouched, and the result says so.
    pub fn accept(&mut self, four_keys: [ItemKey; 4]) -> (used: bool)
        requires
            old(self).wf(),
        ensures
            final(self).wf(),
            used == old(self).spec_needs_batch(),
            final(self).needed == old(self).needed,
            used ==> final(self).batches == old(self).batches + 1 && final(self).keys@ == old(
                self,
            ).keys@ + old(self).taken(four_keys@),
            !used ==> *final(self) == *old(self),
    {
        if self.keys.len() >= self.needed {
            return false;
        }
        let ghost before = self.keys@;
        let mut j: usize = 0;
        while j < 4 && self.keys.len() < self.needed
            invariant
                0 <= j <= 4,
                self.needed == old(self).needed,
                self.batches == old(self).batches,
                before == old(self).keys@,
                before.len() + j <= self.needed,
                self.keys@ == before + four_keys@.subrange(0, j as int),
            decreases 4 - j,
        {
            self.keys.push(four_keys[j]);
            j += 1;
            assert(four_keys@.subrange(0, j as int) == four_keys@.subrange(0, j - 1).push(
                four_keys@[j - 1],
            ));
        }
        assert(four_keys@.subrange(0, 4) == four_keys@);
        self.batches = self.batches + 1;
        true
    }

    /// The keys gathered, one for each item, in the order of the items.
    pub fn into_keys(self) -> (keys: Vec<ItemKey>)
        ensures
            keys == self.keys,
    {
        self.keys
    }
}

/// Once every item has its key, the batches drawn on are as many as the
/// items need at four keys a batch, and no more.
pub proof fn lemma_batches_requested(collector: KeyCollector)
    requires
        collector.wf(),
        !collector.spec_needs_batch(),
    ensures
        collector.batches == spec_batches_needed(collector.needed as int),
        collector.keys@.len() == collector.needed,
{
}

/// The items table after the first `count` records are filed, each under
/// its key, in order.
pub open spec fn items_after(
    before: Map<ItemKey, Seq<u8>>,
    records: Seq<ItemRecord>,
    keys: Seq<ItemKey>,
    count: int,
) -> Map<ItemKey, Seq<u8>>
    decreases count,
{
    if count <= 0 {
        before
    } else {
        items_after(before, records, keys, count - 1).insert(
            keys[count - 1],
            records[count - 1].bytes@,
        )
    }
}

/// The table of ids after the first `count` ids are pointed at their keys,
/// in order.
pub open spec fn ids_after(
    before: Map<ItemId, ItemKey>,
    records: Seq<ItemRecord>,
    keys: Seq<ItemKey>,
    count: int,
) -> Map<ItemId, ItemKey>
    decreases count,
{
    if count <= 0 {
        before
    } else {
        ids_after(before, records, keys, count - 1).insert(records[count - 1].id, keys[count - 1])
    }
}

/// The ids among the first `count` that pointed at a key when their turn
/// came, each with that key, in order.
pub open spec fn superseded(
    before: Map<ItemId, ItemKey>,
    records: Seq<ItemRecord>,
    keys: Seq<ItemKey>,
    count: int,
) -> Seq<(ItemId, ItemKey)>
    decreases count,
{
    if count <= 0 {
        Seq::empty()
    } else {
        let id = records[count - 1].id;
        let prior = ids_after(before, records, keys, count - 1);
        if prior.contains_key(id) {
            superseded(before, records, keys, count - 1).push((id, prior[id]))
        } else {
            superseded(before, records, keys, count - 1)
        }
    }
}

/// Inserts items under freshly issued keys, `keys[i]` for `records[i]`.
/// First every record is filed under its key; only then is each id pointed
/// at its new key. Hands back, for each id that pointed at a key before, the
/// id and that key; the record under that key is left in place.
pub fn insert_items(
    items: &mut ItemTable,
    ids: &mut IdTable,
    records: Vec<ItemRecord>,
    keys: Vec<ItemKey>,
) -> (prev_items: Vec<(ItemId, ItemKey)>)
    requires
        keys@.len() == records@.len(),
    ensures
        item_entries(*final(items)) == items_after(
            item_entries(*old(items)),
            records@,
            keys@,
            records@.len() as int,
        ),
        id_entries(*final(ids)) == ids_after(
            id_entries(*old(ids)),
            records@,
            keys@,
            records@.len() as int,
        ),
        prev_items@ == superseded(id_entries(*old(ids)), records@, keys@, records@.len() as int),
        index_consistent(item_entries(*old(items)), id_entries(*old(ids))) ==> index_consistent(
            item_entries(*final(items)),
            id_entries(*final(ids)),
        ),
{
    let ghost shown = records@;
    let count = records.len();
    let mut item_ids: Vec<ItemId> = Vec::new();
    let mut records = records;
    let mut i: usize = 0;
    let mut rest: Vec<ItemRecord> = Vec::new();
    // The records are taken from the back, so they are turned round first.
    while records.len() > 0
        invariant
            records@.len() + rest@.len() == count,
            count == shown.len(),
            forall|k: int| 0 <= k < records@.len() ==> records@[k] == shown[k],
            forall|k: int|
                0 <= k < rest@.len() ==> #[trigger] rest@[k] == shown[count - 1 - k],
        decreases records@.len(),
    {
        match records.pop() {
            Some(record) => {
                rest.push(record);
            },
            None => {},
        }
    }
    while i < count
        invariant
            0 <= i <= count,
            count == shown.len(),
            keys@.len() == count,
            rest@.len() == count - i,
            forall|k: int|
                0 <= k < rest@.len() ==> #[trigger] rest@[k] == shown[count - 1 - k],
            item_ids@.len() == i,
            forall|k: int| 0 <= k < i ==> #[trigger] item_ids@[k] == shown[k].id,
            item_entries(*items) == items_after(item_entries(*old(items)), shown, keys@, i as int),
        decreases count - i,
    {
        match rest.pop() {
            Some(record) => {
                item_ids.push(record.id);
                item_table_insert(items, keys[i], record.bytes);
            },
            None => {},
        }
        i += 1;
    }
    let mut prev_items: Vec<(ItemId, ItemKey)> = Vec::new();
    let mut i: usize = 0;
    while i < count
        invariant
            0 <= i <= count,
            count == shown.len(),
            keys@.len() == count,
            item_ids@.len() == count,
            forall|k: int| 0 <= k < count ==> #[trigger] item_ids@[k] == shown[k].id,
            id_entries(*ids) == ids_after(id_entries(*old(ids)), shown, keys@, i as int),
            prev_items@ == superseded(id_entries(*old(ids)), shown, keys@, i as int),
        decreases count - i,
    {
        if let Some(prev_key) = id_table_insert(ids, item_ids[i], keys[i]) {
            prev_items.push((item_ids[i], prev_key));
        }
        i += 1;
    }
    proof {
        if index_consistent(item_entries(*old(items)), id_entries(*old(ids))) {
            lemma_index_stays_consistent(
                item_entries(*old(items)),
                id_entries(*old(ids)),
                shown,
                keys@,
                count as int,
            );
        }
    }
    prev_items
}

/// What an insertion does next.
#[derive(Debug, Clone, Copy, PartialEq, Eq, Structural)]
pub enum InsertionStep {
    /// Ask the generator for a batch of keys and hand it to `accept`.
    RequestBatch,
    /// Every item has its key: write.
    Commit,
}

/// An insertion of items under way: the records to be stored, and the keys
/// drawn for them so far. It asks for batches of keys until every record has
/// one, and only then writes.
#[derive(Debug)]
pub struct Insertion {
    pub records: Vec<ItemRecord>,
    pub collector: KeyCollector,
}

impl Insertion {
    /// The keys are gathered for exactly the records held.
    pub open spec fn wf(&self) -> bool {
        &&& self.collector.wf()
        &&& self.collector.needed == self.records@.len()
    }

    /// The step that is due: a request for a batch while a record is without
    /// a key, the write after that.
    pub open spec fn spec_next_step(&self) -> InsertionStep {
        if self.collector.spec_needs_batch() {
            InsertionStep::RequestBatch
        } else {
            InsertionStep::Commit
        }
    }

    /// Starts the insertion of `records`, with no batch drawn yet.
    pub fn new(records: Vec<ItemRecord>) -> (insertion: Self)
        ensures
            insertion.wf(),
            insertion.records == records,
            insertion.collector.keys@ == Seq::<ItemKey>::empty(),
            insertion.collector.batches == 0,
    {
        let collector = KeyCollector::new(records.len());
        Insertion { records, collector }
    }

    /// The step that is due.
    pub fn next_step(&self) -> (step: InsertionStep)
        ensures
            step == self.spec_next_step(),
    {
        if self.collector.needs_batch() {
            InsertionStep::RequestBatch
        } else {
            InsertionStep::Commit
        }
    }

    /// The number of batches drawn on so far.
    pub fn batches(&self) -> (batches: usize)
        ensures
            batches == self.collector.batches,
    {
        self.collector.batches
    }

    /// Takes from a batch the keys still needed, in order. A batch offered
    /// when the write is due is left untouched, and the result says so.
    pub fn accept(&mut self, four_keys: [ItemKey; 4]) -> (used: bool)
        requires
            old(self).wf(),
        ensures
            final(self).wf(),
            final(self).records == old(self).records,
            used == (old(self).spec_next_step() == InsertionStep::RequestBatch),
            used ==> final(self).collector.batches == old(self).collector.batches + 1,
            used ==> final(self).collector.keys@ == old(self).collector.keys@ + old(
                self,
            ).collector.taken(four_keys@),
            !used ==> final(self).collector == old(self).collector,
    {
        self.collector.accept(four_keys)
    }

    /// Writes, if the write is due: files every record under its key and
    /// then points each id at its new key, as `insert_items` does, and hands
    /// back the ids that pointed at a key before, each with that key. The
    /// batches drawn on are then as many as the records need at four keys a
    /// batch. While a record is without a key nothing is written and nothing
    /// handed back.
    pub fn commit(self, items: &mut ItemTable, ids: &mut IdTable) -> (outcome: Option<
        Vec<(ItemId, ItemKey)>,
    >)
        requires
            self.wf(),
        ensures
            outcome.is_some() == (self.spec_next_step() == InsertionStep::Commit),
            outcome is None ==> item_entries(*final(items)) == item_entries(*old(items))
                && id_entries(*final(ids)) == id_entries(*old(ids)),
            outcome matches Some(prev_items) ==> {
                &&& self.collector.batches == spec_batches_needed(self.records@.len() as int)
                &&& self.collector.keys@.len() == self.records@.len()
                &&& item_entries(*final(items)) == items_after(
                    item_entries(*old(items)),
                    self.records@,
                    self.collector.keys@,
                    self.records@.len() as int,
                )
                &&& id_entries(*final(ids)) == ids_after(
                    id_entries(*old(ids)),
                    self.records@,
                    self.collector.keys@,
                    self.records@.len() as int,
                )
                &&& prev_items@ == superseded(
                    id_entries(*old(ids)),
                    self.records@,
                    self.collector.keys@,
                    self.records@.len() as int,
                )
            },
            index_consistent(item_entries(*old(items)), id_entries(*old(ids))) ==> index_consistent(
                item_entries(*final(items)),
                id_entries(*final(ids)),
            ),
    {
        if self.collector.needs_batch() {
            return None;
        }
        proof {
            lemma_batches_requested(self.collector);
        }
        let keys = self.collector.into_keys();
        Some(insert_items(items, ids, self.records, keys))
    }
}

/// However an insertion is driven, it writes only after exactly as many
/// batches as its records need at four keys a batch: none for no records,
/// one for up to four, two for five.
pub proof fn lemma_insertion_draws_needed_batches(insertion: Insertion)
    requires
        insertion.wf(),
    ensures
        insertion.spec_next_step() == InsertionStep::Commit ==> insertion.collector.batches
            == spec_batches_needed(insertion.records@.len() as int),
        insertion.spec_next_step() == InsertionStep::RequestBatch ==> insertion.collector.batches
            < spec_batches_needed(insertion.records@.len() as int),
{
}

/// The ids of the first `count` records.
pub open spec fn record_ids(records: Seq<ItemRecord>, count: int) -> Seq<ItemId> {
    Seq::new(count as nat, |k: int| records[k].id)
}

/// An id that is not among the first `count` points where it pointed before.
proof fn lemma_untouched_id(
    before: Map<ItemId, ItemKey>,
    records: Seq<ItemRecord>,
    keys: Seq<ItemKey>,
    count: int,
    id: ItemId,
)
    requires
        0 <= count <= records.len(),
        forall|k: int| 0 <= k < count ==> records[k].id != id,
    ensures
        ids_after(before, records, keys, count).contains_key(id) == before.contains_key(id),
        before.contains_key(id) ==> ids_after(before, records, keys, count)[id] == before[id],
    decreases count,
{
    if count > 0 {
        lemma_untouched_id(before, records, keys, count - 1, id);
    }
}

/// What was handed back for the first records is still handed back after
/// more.
proof fn lemma_superseded_grows(
    before: Map<ItemId, ItemKey>,
    records: Seq<ItemRecord>,
    keys: Seq<ItemKey>,
    early: int,
    count: int,
    pair: (ItemId, ItemKey),
)
    requires
        0 <= early <= count,
        superseded(before, records, keys, early).contains(pair),
    ensures
        superseded(before, records, keys, count).contains(pair),
    decreases count - early,
{
    if early < count {
        let next = superseded(before, records, keys, early + 1);
        let at = choose|at: int|
            0 <= at < superseded(before, records, keys, early).len() && superseded(
                before,
                records,
                keys,
                early,
            )[at] == pair;
        assert(next[at] == pair);
        lemma_superseded_grows(before, records, keys, early + 1, count, pair);
    }
}

/// After an insertion of items with distinct ids under distinct keys, every
/// id points at its new key and the new record is found under it; and an id
/// that pointed at a key before has that key handed back.
pub proof fn lemma_inserted_item_is_reachable(
    items_before: Map<ItemKey, Seq<u8>>,
    ids_before: Map<ItemId, ItemKey>,
    records: Seq<ItemRecord>,
    keys: Seq<ItemKey>,
    at: int,
)
    requires
        keys.len() == records.len(),
        0 <= at < records.len(),
        keys.no_duplicates(),
        record_ids(records, records.len() as int).no_duplicates(),
    ensures
        ids_after(ids_before, records, keys, records.len() as int).contains_key(records[at].id),
        ids_after(ids_before, records, keys, records.len() as int)[records[at].id] == keys[at],
        spec_find_item(
            items_after(items_before, records, keys, records.len() as int),
            ids_after(ids_before, records, keys, records.len() as int),
            records[at].id,
        ) == Some(records[at].bytes@),
        ids_before.contains_key(records[at].id) ==> superseded(
            ids_before,
            records,
            keys,
            records.len() as int,
        ).contains((records[at].id, ids_before[records[at].id])),
{
    let count = records.len() as int;
    let all_ids = record_ids(records, count);
    lemma_last_write_stands(items_before, ids_before, records, keys, at, count);
    assert forall|k: int| 0 <= k < at implies records[k].id != records[at].id by {
        assert(all_ids[k] == records[k].id && all_ids[at] == records[at].id);
    }
    lemma_untouched_id(ids_before, records, keys, at, records[at].id);
    if ids_before.contains_key(records[at].id) {
        let pair = (records[at].id, ids_before[records[at].id]);
        let early = superseded(ids_before, records, keys, at + 1);
        assert(early[early.len() - 1] == pair);
        lemma_superseded_grows(ids_before, records, keys, at + 1, count, pair);
    }
}

/// With distinct ids and distinct keys, what record `at` wrote is not
/// written over by the records after it.
proof fn lemma_last_write_stands(
    items_before: Map<ItemKey, Seq<u8>>,
    ids_before: Map<ItemId, ItemKey>,
    records: Seq<ItemRecord>,
    keys: Seq<ItemKey>,
    at: int,
    count: int,
)
    requires
        keys.len() == records.len(),
        0 <= at < count <= records.len(),
        keys.no_duplicates(),
        record_ids(records, records.len() as int).no_duplicates(),
    ensures
        ids_after(ids_before, records, keys, count).contains_key(records[at].id),
        ids_after(ids_before, records, keys, count)[records[at].id] == keys[at],
        items_after(items_before, records, keys, count).contains_key(keys[at]),
        items_after(items_before, records, keys, count)[keys[at]] == records[at].bytes@,
    decreases count,
{
    let all_ids = record_ids(records, records.len() as int);
    if at < count - 1 {
        lemma_last_write_stands(items_before, ids_before, records, keys, at, count - 1);
        assert(all_ids[at] == records[at].id && all_ids[count - 1] == records[count - 1].id);
        assert(records[at].id != records[count - 1].id);
        assert(keys[at] != keys[count - 1]);
    }
}

/// Keys taken from a batch that is new to the keys gathered so far are
/// again all distinct.
pub proof fn lemma_accepted_keys_stay_distinct(collector: KeyCollector, four_keys: Seq<ItemKey>)
    requires
        collector.wf(),
        four_keys.len() == 4,
        collector.keys@.no_duplicates(),
        four_keys.no_duplicates(),
        forall|i: int, j: int|
            0 <= i < collector.keys@.len() && 0 <= j < 4 ==> collector.keys@[i] != four_keys[j],
    ensures
        (collector.keys@ + collector.taken(four_keys)).no_duplicates(),
{
    let gathered = collector.keys@;
    let taken = collector.taken(four_keys);
    let all = gathered + taken;
    assert forall|i: int, j: int| 0 <= i < all.len() && 0 <= j < all.len() && i != j implies all[i]
        != all[j] by {
        if i >= gathered.len() {
            assert(all[i] == taken[i - gathered.len()]);
            assert(all[i] == four_keys[i - gathered.len()]);
        }
        if j >= gathered.len() {
            assert(all[j] == taken[j - gathered.len()]);
            assert(all[j] == four_keys[j - gathered.len()]);
        }
    }
}

/// Whether the two tables agree: every id points at a key under which a
/// record is stored.
pub open spec fn index_consistent(items: Map<ItemKey, Seq<u8>>, ids: Map<ItemId, ItemKey>) -> bool {
    forall|id: ItemId| ids.contains_key(id) ==> items.contains_key(#[trigger] ids[id])
}

/// Filing records takes no key away, and every key filed under is there.
proof fn lemma_items_only_grow(
    before: Map<ItemKey, Seq<u8>>,
    records: Seq<ItemRecord>,
    keys: Seq<ItemKey>,
    count: int,
    key: ItemKey,
)
    requires
        keys.len() == records.len(),
        0 <= count <= records.len(),
        before.contains_key(key) || exists|k: int| 0 <= k < count && keys[k] == key,
    ensures
        items_after(before, records, keys, count).contains_key(key),
    decreases count,
{
    if count > 0 && keys[count - 1] != key {
        lemma_items_only_grow(before, records, keys, count - 1, key);
    }
}

/// Because every record is filed before any id is repointed, the tables
/// agree after each repointing if they agreed before the insertion: no id
/// ever points at a key under which nothing is stored.
pub proof fn lemma_index_stays_consistent(
    items_before: Map<ItemKey, Seq<u8>>,
    ids_before: Map<ItemId, ItemKey>,
    records: Seq<ItemRecord>,
    keys: Seq<ItemKey>,
    repointed: int,
)
    requires
        keys.len() == records.len(),
        0 <= repointed <= records.len(),
        index_consistent(items_before, ids_before),
    ensures
        index_consistent(
            items_after(items_before, records, keys, records.len() as int),
            ids_after(ids_before, records, keys, repointed),
        ),
    decreases repointed,
{
    let count = records.len() as int;
    let items = items_after(items_before, records, keys, count);
    let ids = ids_after(ids_before, records, keys, repointed);
    if repointed == 0 {
        assert forall|id: ItemId| ids.contains_key(id) implies items.contains_key(
            #[trigger] ids[id],
        ) by {
            lemma_items_only_grow(items_before, records, keys, count, ids_before[id]);
        }
    } else {
        lemma_index_stays_consistent(items_before, ids_before, records, keys, repointed - 1);
        lemma_items_only_grow(items_before, records, keys, count, keys[repointed - 1]);
        let earlier = ids_after(ids_before, records, keys, repointed - 1);
        assert forall|id: ItemId| ids.contains_key(id) implies items.contains_key(
            #[trigger] ids[id],
        ) by {
            if id != records[repointed - 1].id {
                assert(earlier.contains_key(id));
                assert(items.contains_key(earlier[id]));
            }
        }
    }
}

} // verus!
