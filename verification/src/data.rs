//! The record that describes the store itself.
use vstd::prelude::*;

verus! {

pub type StoreId = u64;

pub type StoreName = String;

/// The store's record in its first form.
#[derive(Debug)]
pub struct StoreDataV1 {
    pub id: StoreId,
    pub name: StoreName,
}

/// The store's record: nothing until the store is set up, then one of the
/// known forms.
#[derive(Debug)]
pub enum StoreData {
    Uninitialized,
    V1(StoreDataV1),
}

impl StoreData {
    /// The name under which the store is shown: empty until the store is
    /// set up.
    pub open spec fn spec_name(&self) -> Seq<char> {
        match self {
            StoreData::Uninitialized => Seq::empty(),
            StoreData::V1(record) => record.name@,
        }
    }

    /// The name under which the store is shown.
    pub fn name(&self) -> (name: StoreName)
        ensures
            name@ == self.spec_name(),
    {
        match self {
            StoreData::Uninitialized => String::new(),
            StoreData::V1(record) => record.name.clone(),
        }
    }
}

/// Replaces the store's record as a whole by one that holds `id` and `name`,
/// and hands back the record it replaced.
pub fn update_store_data(current: &mut StoreData, id: StoreId, name: StoreName) -> (previous:
    StoreData)
    ensures
        *final(current) == StoreData::V1(StoreDataV1 { id, name }),
        previous == *old(current),
{
    let mut record = StoreData::V1(StoreDataV1 { id, name });
    std::mem::swap(current, &mut record);
    record
}

/// What a store is set up with.
#[derive(Debug)]
pub struct StoreInitArg {
    pub id: StoreId,
    pub name: StoreName,
}

/// Sets the store up: with an argument the record is replaced by one that
/// holds its id and name, without one the record stays as it is.
pub fn init_store(current: &mut StoreData, arg: Option<StoreInitArg>)
    ensures
        *final(current) == (match arg {
            Some(given) => StoreData::V1(StoreDataV1 { id: given.id, name: given.name }),
            None => *old(current),
        }),
{
    if let Some(given) = arg {
        let _ = update_store_data(current, given.id, given.name);
    }
}

} // verus!
