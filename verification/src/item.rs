//! Items and the resolution of attribute combinations.
use crate::item::attr::AttrCoreSpecificDataResponse;
use crate::item::attr::AttrDataModel;
use crate::item::attr::AttrSpecificDataResponse;
use crate::item::attr::AttrStatusResponse;
use crate::item::attr::AttrStatusesResponse;
use crate::item::attr::ItemAttrsV1;
use crate::item::attr::statuses_view;
use crate::item::image::ItemImagesV1;
use crate::item::keys::AttrKey;
use crate::item::keys::AttrKeys;
use crate::item::spec::ItemSpecsV1;
use crate::unit::Currency;
use vstd::prelude::*;

pub mod keys;
pub mod image;
pub mod spec;
pub mod attr;
pub mod page;

verus! {

/// The stable identity of an item.
pub type ItemId = u64;

/// The place at which an item is stored; it changes when the item is
/// inserted again.
pub type ItemKey = u64;

pub type ItemName = String;

pub type Tag = String;

/// What an item holds, in each form in which items have been stored.
#[derive(Debug)]
pub enum ItemVersion {
    V1 {
        descriptions: Vec<String>,
        tags: Vec<Tag>,
        images: ItemImagesV1,
        specs: ItemSpecsV1,
        attrs: ItemAttrsV1,
    },
}

/// An item of the catalog. It owns its three tables.
#[derive(Debug)]
pub struct Item {
    pub id: ItemId,
    pub name: ItemName,
    pub version: ItemVersion,
}

/// What optional resolved data holds.
pub open spec fn attr_data_option_view(data: Option<AttrSpecificDataResponse>) -> Option<
    AttrDataModel,
> {
    match data {
        Some(found) => Some(found@),
        None => None,
    }
}

/// The slots of an optional key.
pub open spec fn keys_option_view(keys: Option<AttrKeys>) -> Option<Seq<Option<AttrKey>>> {
    match keys {
        Some(found) => Some(found.slots()),
        None => None,
    }
}

/// A value of a dimension: the dimension's place, and the position of the
/// value among the dimension's values.
pub struct Neighbour {
    pub place: int,
    pub position: int,
}

/// The outcome of a search: the data found, and the key it was found under
/// where that is not the key asked for.
pub struct FallbackModel {
    pub data: Option<AttrDataModel>,
    pub key: Option<Seq<Option<AttrKey>>>,
}

impl Item {
    pub open spec fn spec_descriptions(&self) -> Seq<String> {
        match self.version {
            ItemVersion::V1 { descriptions, .. } => descriptions@,
        }
    }

    pub open spec fn spec_tags(&self) -> Seq<Tag> {
        match self.version {
            ItemVersion::V1 { tags, .. } => tags@,
        }
    }

    pub open spec fn spec_images(&self) -> ItemImagesV1 {
        match self.version {
            ItemVersion::V1 { images, .. } => images,
        }
    }

    pub open spec fn spec_specs(&self) -> ItemSpecsV1 {
        match self.version {
            ItemVersion::V1 { specs, .. } => specs,
        }
    }

    pub open spec fn spec_attrs(&self) -> ItemAttrsV1 {
        match self.version {
            ItemVersion::V1 { attrs, .. } => attrs,
        }
    }

    /// The data of the combination `slots` in `currency`. There is none
    /// unless the combination has a record, the record a price in the
    /// currency, and its image group an image list. Its selections are
    /// resolved all or none, and their absence fails nothing.
    pub open spec fn spec_attr_data(
        &self,
        slots: Seq<Option<AttrKey>>,
        currency: Currency,
    ) -> Option<AttrDataModel> {
        if self.spec_attrs().has(slots) {
            let record = self.spec_attrs().record(slots);
            match (
                record.spec_price(currency),
                self.spec_images().spec_index_vec(record.image_vec_key),
            ) {
                (Some(price), Some(image_vec)) => Some(
                    AttrDataModel {
                        stock: record.stock,
                        price,
                        image_vec,
                        specs: self.spec_specs().spec_specs(record.spec_keys@),
                    },
                ),
                _ => None,
            }
        } else {
            None
        }
    }

    /// The summary of the combination `slots` in `currency`: as the full
    /// data, with the base image in place of the image list and without
    /// selections. There is none unless the combination has a record, the
    /// record a price in the currency, and its image group every image it
    /// lists.
    pub open spec fn spec_attr_core_data(
        &self,
        slots: Seq<Option<AttrKey>>,
        currency: Currency,
    ) -> Option<AttrCoreSpecificDataResponse> {
        if self.spec_attrs().has(slots) {
            let record = self.spec_attrs().record(slots);
            match (
                record.spec_price(currency),
                self.spec_images().spec_base_image(record.image_vec_key),
            ) {
                (Some(price), Some(image)) => Some(
                    AttrCoreSpecificDataResponse { stock: record.stock, price, image, sale: () },
                ),
                _ => None,
            }
        } else {
            None
        }
    }

    /// The key `slots` with the slot of dimension `place` set to the value
    /// index `value`.
    pub open spec fn trial(slots: Seq<Option<AttrKey>>, place: int, value: AttrKey) -> Seq<
        Option<AttrKey>,
    > {
        slots.update(place, Some(value))
    }

    /// The value index that stands at `position` among those of dimension
    /// `place`, in ascending order.
    pub open spec fn value_at(&self, place: int, position: int) -> AttrKey {
        self.spec_attrs().indexes.value_keys(place)[position]
    }

    /// The status of the combination that the value index `value` of
    /// dimension `place` would give: none where there is no such
    /// combination, else whether it is in stock.
    pub open spec fn spec_status(
        &self,
        slots: Seq<Option<AttrKey>>,
        place: int,
        value: AttrKey,
    ) -> Option<AttrStatusResponse> {
        match self.spec_attrs().spec_is_in_stock(Item::trial(slots, place, value)) {
            Some(is_in_stock) => Some(AttrStatusResponse { is_in_stock }),
            None => None,
        }
    }

    /// The statuses against the key `slots`: for each of the four dimensions
    /// one status for each of its value indices, in ascending order; an
    /// empty list where the item has no such dimension.
    pub open spec fn spec_attr_statuses(&self, slots: Seq<Option<AttrKey>>) -> Seq<
        Seq<Option<AttrStatusResponse>>,
    > {
        Seq::new(
            4,
            |place: int|
                Seq::new(
                    self.spec_attrs().indexes.value_keys(place).len(),
                    |position: int| self.spec_status(slots, place, self.value_at(place, position)),
                ),
        )
    }

    /// Whether the value index at `position` of dimension `place` is a
    /// neighbour to fall back on: the dimension is not the one just changed,
    /// the statuses show a combination at that position, and that
    /// combination resolves. A position of the statuses for which the
    /// dimension has no value index is passed over.
    pub open spec fn is_candidate(
        &self,
        slots: Seq<Option<AttrKey>>,
        currency: Currency,
        changed: u8,
        statuses: Seq<Seq<Option<AttrStatusResponse>>>,
        place: int,
        position: int,
    ) -> bool {
        &&& 0 <= place < 4
        &&& place != changed
        &&& 0 <= position < statuses[place].len()
        &&& position < self.spec_attrs().indexes.value_keys(place).len()
        &&& statuses[place][position] is Some
        &&& self.spec_attr_data(
            Item::trial(slots, place, self.value_at(place, position)),
            currency,
        ) is Some
    }

    /// The first neighbour among the values of dimension `place` from
    /// `from` on.
    pub open spec fn first_in_dimension(
        &self,
        slots: Seq<Option<AttrKey>>,
        currency: Currency,
        changed: u8,
        statuses: Seq<Seq<Option<AttrStatusResponse>>>,
        place: int,
        from: int,
    ) -> Option<int>
        decreases statuses[place].len() - from,
    {
        if from < 0 || from >= statuses[place].len() {
            None
        } else if self.is_candidate(slots, currency, changed, statuses, place, from) {
            Some(from)
        } else {
            self.first_in_dimension(slots, currency, changed, statuses, place, from + 1)
        }
    }

    /// The first neighbour among the dimensions from `from` on: the lowest
    /// dimension that has one, and its lowest value there.
    pub open spec fn first_candidate(
        &self,
        slots: Seq<Option<AttrKey>>,
        currency: Currency,
        changed: u8,
        statuses: Seq<Seq<Option<AttrStatusResponse>>>,
        from: int,
    ) -> Option<Neighbour>
        decreases 4 - from,
    {
        if from < 0 || from >= 4 {
            None
        } else {
            match self.first_in_dimension(slots, currency, changed, statuses, from, 0) {
                Some(position) => Some(Neighbour { place: from, position }),
                None => self.first_candidate(slots, currency, changed, statuses, from + 1),
            }
        }
    }

    /// The outcome of the search for the key `slots`: the data of the key
    /// itself; failing that, and where a changed dimension is named, the
    /// data of the first neighbour; failing that, the data of the key with
    /// every slot unset; failing that, nothing.
    pub open spec fn spec_fallback(
        &self,
        slots: Seq<Option<AttrKey>>,
        currency: Currency,
        changed: Option<u8>,
        statuses: Seq<Seq<Option<AttrStatusResponse>>>,
    ) -> FallbackModel {
        let neighbour = match changed {
            Some(place) => self.first_candidate(slots, currency, place, statuses, 0),
            None => None,
        };
        if self.spec_attr_data(slots, currency) is Some {
            FallbackModel { data: self.spec_attr_data(slots, currency), key: None }
        } else if neighbour is Some {
            let key = Item::trial(
                slots,
                neighbour->0.place,
                self.value_at(neighbour->0.place, neighbour->0.position),
            );
            FallbackModel { data: self.spec_attr_data(key, currency), key: Some(key) }
        } else if self.spec_attr_data(AttrKeys::spec_default(), currency) is Some {
            FallbackModel {
                data: self.spec_attr_data(AttrKeys::spec_default(), currency),
                key: Some(AttrKeys::spec_default()),
            }
        } else {
            FallbackModel { data: None, key: None }
        }
    }

    /// Everything needed to show exactly this combination in this currency.
    pub fn get_attr_data(&self, attr_keys: &AttrKeys, currency: &Currency) -> (data: Option<
        AttrSpecificDataResponse,
    >)
        ensures
            attr_data_option_view(data) == self.spec_attr_data(attr_keys.slots(), *currency),
    {
        match &self.version {
            ItemVersion::V1 { attrs, images, specs, .. } => {
                let attr_data = match attrs.get_record(attr_keys) {
                    Some(attr_data) => attr_data,
                    None => {
                        return None;
                    },
                };
                let price = match attr_data.get_price(currency) {
                    Some(price) => price,
                    None => {
                        return None;
                    },
                };
                let image_vec = match images.get_index_vec(&attr_data.image_vec_key) {
                    Some(image_vec) => image_vec,
                    None => {
                        return None;
                    },
                };
                let specs = specs.get_specs(&attr_data.spec_keys);
                Some(
                    AttrSpecificDataResponse {
                        stock: attr_data.stock,
                        price,
                        image_vec,
                        specs,
                        sale: attr_data.sale,
                    },
                )
            },
        }
    }

    /// The value indices of the dimension at `place`, ascending.
    pub fn dimension_keys(&self, place: usize) -> (keys: Vec<AttrKey>)
        ensures
            keys@ == self.spec_attrs().indexes.value_keys(place as int),
            keys@.len() <= 256,
    {
        match &self.version {
            ItemVersion::V1 { attrs, .. } => attrs.dimension_keys(place),
        }
    }

    fn dimension_statuses(&self, attr_keys: &AttrKeys, place: usize) -> (statuses: Vec<
        Option<AttrStatusResponse>,
    >)
        requires
            place < 4,
        ensures
            statuses@ == self.spec_attr_statuses(attr_keys.slots())[place as int],
    {
        let values = self.dimension_keys(place);
        let mut statuses: Vec<Option<AttrStatusResponse>> = Vec::new();
        let mut position: usize = 0;
        while position < values.len()
            invariant
                0 <= position <= values.len(),
                place < 4,
                values@ == self.spec_attrs().indexes.value_keys(place as int),
                statuses@.len() == position,
                forall|k: int|
                    0 <= k < position ==> #[trigger] statuses@[k] == self.spec_status(
                        attr_keys.slots(),
                        place as int,
                        values@[k],
                    ),
            decreases values.len() - position,
        {
            let chosen: u8 = values[position];
            match &self.version {
                ItemVersion::V1 { attrs, .. } => {
                    match attr_keys.replace(place, &chosen) {
                        Ok(trial) => match attrs.get_is_in_stock(&trial) {
                            Some(is_in_stock) => {
                                statuses.push(Some(AttrStatusResponse { is_in_stock }));
                            },
                            None => {
                                statuses.push(None);
                            },
                        },
                        Err(_) => {
                            statuses.push(None);
                        },
                    }
                },
            }
            position += 1;
        }
        assert(statuses@ =~= self.spec_attr_statuses(attr_keys.slots())[place as int]);
        statuses
    }

    /// For each dimension and each of its value indices, in ascending order,
    /// whether the combination that differs from `attr_keys` in that one
    /// slot exists and is in stock.
    pub fn get_attr_statuses(&self, attr_keys: &AttrKeys) -> (statuses: AttrStatusesResponse)
        ensures
            statuses_view(statuses) == self.spec_attr_statuses(attr_keys.slots()),
    {
        let statuses = [
            self.dimension_statuses(attr_keys, 0),
            self.dimension_statuses(attr_keys, 1),
            self.dimension_statuses(attr_keys, 2),
            self.dimension_statuses(attr_keys, 3),
        ];
        assert(statuses_view(statuses) =~= self.spec_attr_statuses(attr_keys.slots()));
        statuses
    }

    /// What a summary of exactly this combination needs: stock, price and
    /// base image.
    pub fn get_attr_core_data(&self, attr_keys: &AttrKeys, currency: &Currency) -> (data: Option<
        AttrCoreSpecificDataResponse,
    >)
        ensures
            data == self.spec_attr_core_data(attr_keys.slots(), *currency),
    {
        match &self.version {
            ItemVersion::V1 { attrs, images, .. } => {
                let attr_data = match attrs.get_record(attr_keys) {
                    Some(attr_data) => attr_data,
                    None => {
                        return None;
                    },
                };
                let price = match attr_data.get_price(currency) {
                    Some(price) => price,
                    None => {
                        return None;
                    },
                };
                let image = match images.get_base_image(&attr_data.image_vec_key) {
                    Some(image) => image.clone(),
                    None => {
                        return None;
                    },
                };
                Some(
                    AttrCoreSpecificDataResponse {
                        stock: attr_data.stock,
                        price,
                        image,
                        sale: attr_data.sale,
                    },
                )
            },
        }
    }
}

/// A combination has data exactly when it has a record, the record has a
/// price in the currency, and its image group has an image list: with any
/// one of the three missing there is no data at all.
pub proof fn lemma_attr_data_needs_every_part(
    item: Item,
    slots: Seq<Option<AttrKey>>,
    currency: Currency,
)
    ensures
        item.spec_attr_data(slots, currency) is Some <==> {
            &&& item.spec_attrs().has(slots)
            &&& item.spec_attrs().record(slots).spec_price(currency) is Some
            &&& item.spec_images().spec_index_vec(item.spec_attrs().record(slots).image_vec_key)
                is Some
        },
        item.spec_attr_data(slots, currency) matches Some(data) ==> {
            &&& data.stock == item.spec_attrs().record(slots).stock
            &&& Some(data.price) == item.spec_attrs().record(slots).spec_price(currency)
            &&& Some(data.image_vec) == item.spec_images().spec_index_vec(
                item.spec_attrs().record(slots).image_vec_key,
            )
        },
{
}

/// The summary of a combination fails as its full data does: there is a
/// summary exactly when there is full data with an image list that is not
/// empty, and the summary then holds the same stock and price and the first
/// image of the list.
pub proof fn lemma_core_data_fails_as_data_does(
    item: Item,
    slots: Seq<Option<AttrKey>>,
    currency: Currency,
)
    ensures
        item.spec_attr_core_data(slots, currency) is Some <==> item.spec_attr_data(
            slots,
            currency,
        ) is Some && item.spec_attr_data(slots, currency)->0.image_vec.len() > 0,
        item.spec_attr_core_data(slots, currency) matches Some(core) ==> {
            &&& core.stock == item.spec_attr_data(slots, currency)->0.stock
            &&& core.price == item.spec_attr_data(slots, currency)->0.price
            &&& core.image == item.spec_attr_data(slots, currency)->0.image_vec[0]
        },
{
    if item.spec_attrs().has(slots) {
        crate::item::image::lemma_base_image_is_first_of_list(
            item.spec_images(),
            item.spec_attrs().record(slots).image_vec_key,
        );
    }
}

/// The selections of a combination are shown all or none: one selection
/// that does not resolve leaves the data without any.
pub proof fn lemma_attr_data_specs_all_or_nothing(
    item: Item,
    slots: Seq<Option<AttrKey>>,
    currency: Currency,
    at: int,
)
    requires
        item.spec_attr_data(slots, currency) is Some,
        0 <= at < item.spec_attrs().record(slots).spec_keys@.len(),
        item.spec_specs().spec_category(item.spec_attrs().record(slots).spec_keys@[at]) is None,
    ensures
        item.spec_attr_data(slots, currency)->0.specs is None,
{
}

/// A status is absent exactly where the table has no record for the
/// combination that the value index would give, and it says "in stock" only
/// where that record has stock.
pub proof fn lemma_status_reflects_table(
    item: Item,
    slots: Seq<Option<AttrKey>>,
    place: int,
    position: int,
)
    requires
        0 <= place < 4,
        0 <= position < item.spec_attrs().indexes.value_keys(place).len(),
    ensures
        item.spec_attr_statuses(slots)[place][position] is None <==> !item.spec_attrs().has(
            Item::trial(slots, place, item.value_at(place, position)),
        ),
        item.spec_attr_statuses(slots)[place][position] == Some(
            AttrStatusResponse { is_in_stock: true },
        ) <==> item.spec_attrs().has(Item::trial(slots, place, item.value_at(place, position)))
            && item.spec_attrs().record(
            Item::trial(slots, place, item.value_at(place, position)),
        ).stock > 0,
{
}

/// The statuses of a dimension stand place by place beside the values that
/// the dimension is shown with: there are as many, and the status at a
/// position is that of the value index whose value is shown there.
pub proof fn lemma_statuses_parallel_to_snapshot(
    item: Item,
    slots: Seq<Option<AttrKey>>,
    place: int,
)
    requires
        0 <= place < 4,
        item.spec_attrs().indexes.dimension(place) is Some,
    ensures
        item.spec_attr_statuses(slots)[place].len() == item.spec_attrs().spec_indexes_result()[place]->0.value.len(),
        forall|position: int|
            0 <= position < item.spec_attr_statuses(slots)[place].len() ==> {
                &&& item.spec_attrs().indexes.dimension(place)->0.map@.contains_key(
                    #[trigger] item.value_at(place, position),
                )
                &&& item.spec_attrs().spec_indexes_result()[place]->0.value[position]
                    == item.spec_attrs().indexes.dimension(place)->0.map@[item.value_at(
                    place,
                    position,
                )]
            },
{
    crate::item::attr::lemma_keys_below(item.spec_attrs().indexes.dimension(place)->0.map@, 256);
}

/// What the search within one dimension finds is a neighbour, and no value
/// of the dimension before it is one; where it finds nothing the dimension
/// has none from `from` on.
pub proof fn lemma_first_in_dimension_is_least(
    item: Item,
    slots: Seq<Option<AttrKey>>,
    currency: Currency,
    changed: u8,
    statuses: Seq<Seq<Option<AttrStatusResponse>>>,
    place: int,
    from: int,
)
    requires
        0 <= from,
    ensures
        match item.first_in_dimension(slots, currency, changed, statuses, place, from) {
            Some(value) => from <= value && item.is_candidate(
                slots,
                currency,
                changed,
                statuses,
                place,
                value,
            ) && forall|other: int|
                from <= other < value ==> !#[trigger] item.is_candidate(
                    slots,
                    currency,
                    changed,
                    statuses,
                    place,
                    other,
                ),
            None => forall|other: int|
                from <= other ==> !#[trigger] item.is_candidate(
                    slots,
                    currency,
                    changed,
                    statuses,
                    place,
                    other,
                ),
        },
    decreases statuses[place].len() - from,
{
    if from < statuses[place].len() {
        lemma_first_in_dimension_is_least(
            item,
            slots,
            currency,
            changed,
            statuses,
            place,
            from + 1,
        );
    }
}

/// The search prefers the lower dimension, then the lower value: what it
/// finds is a neighbour, and no value of a lower dimension, nor a lower value
/// of the same dimension, is one. Where it finds nothing there is no
/// neighbour in the dimensions from `from` on.
pub proof fn lemma_first_candidate_is_least(
    item: Item,
    slots: Seq<Option<AttrKey>>,
    currency: Currency,
    changed: u8,
    statuses: Seq<Seq<Option<AttrStatusResponse>>>,
    from: int,
)
    requires
        0 <= from,
    ensures
        match item.first_candidate(slots, currency, changed, statuses, from) {
            Some(found) => from <= found.place && item.is_candidate(
                slots,
                currency,
                changed,
                statuses,
                found.place,
                found.position,
            ) && forall|place: int, value: int|
                from <= place && #[trigger] item.is_candidate(
                    slots,
                    currency,
                    changed,
                    statuses,
                    place,
                    value,
                ) ==> found.place < place || (found.place == place && found.position <= value),
            None => forall|place: int, value: int|
                from <= place ==> !#[trigger] item.is_candidate(
                    slots,
                    currency,
                    changed,
                    statuses,
                    place,
                    value,
                ),
        },
    decreases 4 - from,
{
    if from < 4 {
        lemma_first_in_dimension_is_least(item, slots, currency, changed, statuses, from, 0);
        lemma_first_candidate_is_least(item, slots, currency, changed, statuses, from + 1);
    }
}

/// Whether two keys agree in every slot but that of dimension `place`.
pub open spec fn differ_at_most_at(
    a: Seq<Option<AttrKey>>,
    b: Seq<Option<AttrKey>>,
    place: int,
) -> bool {
    forall|other: int| 0 <= other < 4 && other != place ==> a[other] == b[other]
}

/// The search never replaces the slot of the dimension just changed: a key
/// it falls back on, other than the key with every slot unset, agrees with
/// the key asked for in that slot, and differs from it in one other slot
/// only.
pub proof fn lemma_fallback_keeps_changed_slot(
    item: Item,
    slots: Seq<Option<AttrKey>>,
    currency: Currency,
    changed: u8,
    statuses: Seq<Seq<Option<AttrStatusResponse>>>,
)
    requires
        slots.len() == 4,
        changed < 4,
        item.spec_fallback(slots, currency, Some(changed), statuses).key is Some,
        item.spec_fallback(slots, currency, Some(changed), statuses).key
            != Some(AttrKeys::spec_default()),
    ensures
        item.spec_fallback(slots, currency, Some(changed), statuses).key->0[changed as int]
            == slots[changed as int],
        exists|place: int|
            0 <= place < 4 && place != changed && #[trigger] differ_at_most_at(
                item.spec_fallback(slots, currency, Some(changed), statuses).key->0,
                slots,
                place,
            ),
{
    lemma_first_candidate_is_least(item, slots, currency, changed, statuses, 0);
    let found = item.first_candidate(slots, currency, changed, statuses, 0);
    assert(found is Some);
    let place = found->0.place;
    assert(0 <= place < 4 && place != changed);
    assert(differ_at_most_at(
        item.spec_fallback(slots, currency, Some(changed), statuses).key->0,
        slots,
        place,
    ));
}

/// With the statuses of the item itself, a combination that resolves is one
/// that the statuses show: the first neighbour is then the first value, in
/// another dimension than the one changed, whose combination resolves.
pub proof fn lemma_resolving_neighbour_is_shown(
    item: Item,
    slots: Seq<Option<AttrKey>>,
    currency: Currency,
    changed: u8,
    place: int,
    position: int,
)
    requires
        0 <= place < 4,
        place != changed,
        0 <= position < item.spec_attrs().indexes.value_keys(place).len(),
        item.spec_attr_data(
            Item::trial(slots, place, item.value_at(place, position)),
            currency,
        ) is Some,
    ensures
        item.is_candidate(
            slots,
            currency,
            changed,
            item.spec_attr_statuses(slots),
            place,
            position,
        ),
{
}

} // verus!
