//! The attribute table of an item: what is sold under each combination of
//! value indices, and the dimensions the combinations are drawn from.
use crate::item::image::ImageVecKey;
use crate::item::image::MediaDataWithCaption;
use crate::item::keys::code_of;
use crate::item::keys::AttrKey;
use crate::item::keys::AttrKeys;
use crate::item::spec::SpecCategoryModel;
use crate::item::spec::SpecIndexKey;
use crate::item::spec::SpecResponse;
use crate::item::spec::spec_response_option_view;
use crate::unit::Currency;
use crate::unit::Price;
use std::collections::BTreeMap;
use vstd::prelude::*;

verus! {

/// Units in stock.
pub type Stock = u32;

/// A colour offered as a value of a dimension.
#[derive(Debug, PartialEq, Eq)]
pub struct AttrColor {
    pub name: String,
    pub code: String,
}

/// How a value of a dimension is shown: as text or as a colour swatch.
#[derive(Debug, PartialEq, Eq)]
pub enum AttrType {
    Text(String),
    Color(AttrColor),
}

impl Clone for AttrColor {
    fn clone(&self) -> (copy: Self)
        ensures
            copy == *self,
    {
        AttrColor { name: self.name.clone(), code: self.code.clone() }
    }
}

impl Clone for AttrType {
    fn clone(&self) -> (copy: Self)
        ensures
            copy == *self,
    {
        match self {
            AttrType::Text(text) => AttrType::Text(text.clone()),
            AttrType::Color(color) => AttrType::Color(color.clone()),
        }
    }
}

impl AttrType {
    /// The text by which the value is named.
    pub open spec fn spec_text(self) -> String {
        match self {
            AttrType::Text(text) => text,
            AttrType::Color(color) => color.name,
        }
    }

    /// The text by which the value is named.
    pub fn text(&self) -> (text: String)
        ensures
            text == self.spec_text(),
    {
        match self {
            AttrType::Text(text) => text.clone(),
            AttrType::Color(color) => color.name.clone(),
        }
    }
}

/// What is sold under one combination.
#[derive(Debug)]
pub struct AttrSpecificData {
    pub stock: Stock,
    /// The price in each currency, filed under the currency's code.
    pub price: BTreeMap<u8, Price>,
    pub image_vec_key: ImageVecKey,
    pub spec_keys: Vec<SpecIndexKey>,
    pub sale: (),
}

/// What a record of a combination holds.
pub struct AttrSpecificDataModel {
    pub stock: Stock,
    pub price: Map<u8, Price>,
    pub image_vec_key: ImageVecKey,
    pub spec_keys: Seq<SpecIndexKey>,
}

impl View for AttrSpecificData {
    type V = AttrSpecificDataModel;

    open spec fn view(&self) -> AttrSpecificDataModel {
        AttrSpecificDataModel {
            stock: self.stock,
            price: self.price@,
            image_vec_key: self.image_vec_key,
            spec_keys: self.spec_keys@,
        }
    }
}

impl Clone for AttrSpecificData {
    fn clone(&self) -> (copy: Self)
        ensures
            copy@ == self@,
    {
        let spec_keys = self.spec_keys.clone();
        assert(spec_keys@ =~= self.spec_keys@);
        AttrSpecificData {
            stock: self.stock,
            price: self.price.clone(),
            image_vec_key: self.image_vec_key,
            spec_keys,
            sale: (),
        }
    }
}

impl AttrSpecificData {
    /// The price in `currency`, if the combination has one.
    pub open spec fn spec_price(&self, currency: Currency) -> Option<Price> {
        if self.price@.contains_key(currency.spec_code()) {
            Some(self.price@[currency.spec_code()])
        } else {
            None
        }
    }

    /// The price in `currency`, if the combination has one.
    pub fn get_price(&self, currency: &Currency) -> (price: Option<Price>)
        ensures
            price == self.spec_price(*currency),
    {
        let code = currency.code();
        match self.price.get(&code) {
            Some(price) => Some(*price),
            None => None,
        }
    }

    /// A builder with no stock, no price, image group 0 and no selections.
    pub fn builder() -> (builder: AttrSpecificDataBuilder)
        ensures
            builder.stock == 0,
            builder.price@ == Map::<u8, Price>::empty(),
            builder.image_vec_key == 0,
            builder.spec_keys@ == Seq::<SpecIndexKey>::empty(),
    {
        AttrSpecificDataBuilder {
            stock: 0,
            price: BTreeMap::new(),
            image_vec_key: 0,
            spec_keys: Vec::new(),
            sale: (),
        }
    }
}

/// Collects what is sold under one combination.
pub struct AttrSpecificDataBuilder {
    pub stock: Stock,
    pub price: BTreeMap<u8, Price>,
    pub image_vec_key: ImageVecKey,
    pub spec_keys: Vec<SpecIndexKey>,
    pub sale: (),
}

impl AttrSpecificDataBuilder {
    pub fn stock(self, stock: Stock) -> (builder: Self)
        ensures
            builder.stock == stock,
            builder.price == self.price,
            builder.image_vec_key == self.image_vec_key,
            builder.spec_keys == self.spec_keys,
    {
        let mut builder = self;
        builder.stock = stock;
        builder
    }

    /// Sets the price in `currency`, in place of any price it had.
    pub fn price(self, currency: Currency, price: Price) -> (builder: Self)
        ensures
            builder.stock == self.stock,
            builder.price@ == self.price@.insert(currency.spec_code(), price),
            builder.image_vec_key == self.image_vec_key,
            builder.spec_keys == self.spec_keys,
    {
        let mut builder = self;
        builder.price.insert(currency.code(), price);
        builder
    }

    pub fn image_vec_key(self, image_vec_key: ImageVecKey) -> (builder: Self)
        ensures
            builder.stock == self.stock,
            builder.price == self.price,
            builder.image_vec_key == image_vec_key,
            builder.spec_keys == self.spec_keys,
    {
        let mut builder = self;
        builder.image_vec_key = image_vec_key;
        builder
    }

    /// Adds a selection after those added so far.
    pub fn spec_key(self, spec_keys: SpecIndexKey) -> (builder: Self)
        ensures
            builder.stock == self.stock,
            builder.price == self.price,
            builder.image_vec_key == self.image_vec_key,
            builder.spec_keys@ == self.spec_keys@.push(spec_keys),
    {
        let mut builder = self;
        builder.spec_keys.push(spec_keys);
        builder
    }

    pub fn build(self) -> (data: AttrSpecificData)
        ensures
            data.stock == self.stock,
            data.price == self.price,
            data.image_vec_key == self.image_vec_key,
            data.spec_keys == self.spec_keys,
    {
        AttrSpecificData {
            stock: self.stock,
            price: self.price,
            image_vec_key: self.image_vec_key,
            spec_keys: self.spec_keys,
            sale: self.sale,
        }
    }
}

/// The resolved data of one combination in one currency.
#[derive(Debug)]
pub struct AttrSpecificDataResponse {
    pub stock: Stock,
    pub price: Price,
    pub image_vec: Vec<MediaDataWithCaption>,
    pub specs: Option<SpecResponse>,
    pub sale: (),
}

/// What the resolved data of a combination holds.
pub struct AttrDataModel {
    pub stock: Stock,
    pub price: Price,
    pub image_vec: Seq<MediaDataWithCaption>,
    pub specs: Option<Seq<SpecCategoryModel>>,
}

impl View for AttrSpecificDataResponse {
    type V = AttrDataModel;

    open spec fn view(&self) -> AttrDataModel {
        AttrDataModel {
            stock: self.stock,
            price: self.price,
            image_vec: self.image_vec@,
            specs: spec_response_option_view(self.specs),
        }
    }
}

/// The resolved data of one combination with its base image only.
#[derive(Debug)]
pub struct AttrCoreSpecificDataResponse {
    pub stock: Stock,
    pub price: Price,
    pub image: MediaDataWithCaption,
    pub sale: (),
}

/// Whether a combination can be bought.
#[derive(Debug, Clone, Copy, PartialEq, Eq, Structural)]
pub struct AttrStatusResponse {
    pub is_in_stock: bool,
}

/// For each dimension and each of its values, in order, the status of the
/// combination that the value would give; none where there is no such
/// combination.
pub type AttrStatusesResponse = [Vec<Option<AttrStatusResponse>>; 4];

/// What a table of statuses holds: one list for each dimension.
pub open spec fn statuses_view(statuses: AttrStatusesResponse) -> Seq<
    Seq<Option<AttrStatusResponse>>,
> {
    Seq::new(4, |i: int| statuses@[i]@)
}

/// One dimension: its name, and its values by value index.
#[derive(Debug)]
pub struct AttrIndex {
    pub name: String,
    pub map: BTreeMap<AttrKey, AttrType>,
}

/// The values of `map` whose key is below `bound`, by ascending key.
pub open spec fn values_below(map: Map<AttrKey, AttrType>, bound: int) -> Seq<AttrType>
    decreases bound,
{
    if bound <= 0 {
        Seq::empty()
    } else if map.contains_key((bound - 1) as u8) {
        values_below(map, bound - 1).push(map[(bound - 1) as u8])
    } else {
        values_below(map, bound - 1)
    }
}

/// There are no more values below a bound than keys.
pub proof fn lemma_values_below_len(map: Map<AttrKey, AttrType>, bound: int)
    requires
        0 <= bound,
    ensures
        values_below(map, bound).len() <= bound,
    decreases bound,
{
    if bound > 0 {
        lemma_values_below_len(map, bound - 1);
    }
}

/// The value indices of `map` below `bound`, ascending.
pub open spec fn keys_below(map: Map<AttrKey, AttrType>, bound: int) -> Seq<AttrKey>
    decreases bound,
{
    if bound <= 0 {
        Seq::empty()
    } else if map.contains_key((bound - 1) as u8) {
        keys_below(map, bound - 1).push((bound - 1) as u8)
    } else {
        keys_below(map, bound - 1)
    }
}

/// The value indices below a bound are those that the dimension has there,
/// each once and in ascending order, and the values below the bound are
/// their values, place by place.
pub proof fn lemma_keys_below(map: Map<AttrKey, AttrType>, bound: int)
    requires
        0 <= bound <= 256,
    ensures
        keys_below(map, bound).len() == values_below(map, bound).len(),
        keys_below(map, bound).len() <= bound,
        forall|at: int|
            0 <= at < keys_below(map, bound).len() ==> {
                &&& (#[trigger] keys_below(map, bound)[at]) < bound
                &&& map.contains_key(keys_below(map, bound)[at])
                &&& values_below(map, bound)[at] == map[keys_below(map, bound)[at]]
            },
        forall|at: int, later: int|
            0 <= at < later < keys_below(map, bound).len() ==> keys_below(map, bound)[at]
                < keys_below(map, bound)[later],
        forall|key: AttrKey|
            key < bound && map.contains_key(key) ==> keys_below(map, bound).contains(key),
    decreases bound,
{
    if bound > 0 {
        lemma_keys_below(map, bound - 1);
        let earlier = keys_below(map, bound - 1);
        let all = keys_below(map, bound);
        assert forall|key: AttrKey| key < bound && map.contains_key(key) implies all.contains(
            key,
        ) by {
            if key < bound - 1 {
                let at = choose|at: int| 0 <= at < earlier.len() && earlier[at] == key;
                assert(all[at] == key);
            } else {
                assert(all[all.len() - 1] == key);
            }
        }
    }
}

impl AttrIndex {
    /// The values of the dimension, by ascending value index.
    pub open spec fn spec_values(&self) -> Seq<AttrType> {
        values_below(self.map@, 256)
    }

    /// The value indices of the dimension, ascending.
    pub open spec fn spec_keys(&self) -> Seq<AttrKey> {
        keys_below(self.map@, 256)
    }

    /// The name of the value that `slot` chooses, if it chooses one that the
    /// dimension has.
    pub open spec fn spec_value_text(&self, slot: Option<AttrKey>) -> Option<String> {
        match slot {
            Some(key) => if self.map@.contains_key(key) {
                Some(self.map@[key].spec_text())
            } else {
                None
            },
            None => None,
        }
    }

    pub fn builder(name: &str) -> (builder: AttrIndexBuilder)
        ensures
            builder.name@ == name@,
            builder.map@ == Map::<AttrKey, AttrType>::empty(),
    {
        AttrIndexBuilder::new(name)
    }

    /// The values of the dimension, by ascending value index.
    pub fn values(&self) -> (values: Vec<AttrType>)
        ensures
            values@ == self.spec_values(),
            values@.len() <= 256,
    {
        let mut values: Vec<AttrType> = Vec::new();
        let mut bound: usize = 0;
        while bound < 256
            invariant
                0 <= bound <= 256,
                values@ == values_below(self.map@, bound as int),
            decreases 256 - bound,
        {
            let key: u8 = bound as u8;
            match self.map.get(&key) {
                Some(value) => {
                    values.push(value.clone());
                },
                None => {},
            }
            bound += 1;
        }
        proof {
            lemma_values_below_len(self.map@, 256);
        }
        values
    }

    /// The value indices of the dimension, ascending.
    pub fn keys(&self) -> (keys: Vec<AttrKey>)
        ensures
            keys@ == self.spec_keys(),
            keys@.len() <= 256,
    {
        let mut keys: Vec<AttrKey> = Vec::new();
        let mut bound: usize = 0;
        while bound < 256
            invariant
                0 <= bound <= 256,
                keys@ == keys_below(self.map@, bound as int),
            decreases 256 - bound,
        {
            let key: u8 = bound as u8;
            if self.map.contains_key(&key) {
                keys.push(key);
            }
            bound += 1;
        }
        proof {
            lemma_keys_below(self.map@, 256);
        }
        keys
    }

    /// The name of the value that `slot` chooses.
    pub fn value_text(&self, slot: Option<AttrKey>) -> (text: Option<String>)
        ensures
            text == self.spec_value_text(slot),
    {
        match slot {
            Some(key) => match self.map.get(&key) {
                Some(value) => Some(value.text()),
                None => None,
            },
            None => None,
        }
    }

    /// The dimension as it is shown: its name and its values in order.
    pub fn snapshot(&self) -> (shown: AttrIndexResponse)
        ensures
            shown@ == self.spec_snapshot(),
            shown.value@.len() <= 256,
    {
        AttrIndexResponse { name: self.name.clone(), value: self.values() }
    }

    /// The dimension as it is shown: its name and its values in order.
    pub open spec fn spec_snapshot(&self) -> AttrIndexModel {
        AttrIndexModel { name: self.name, value: self.spec_values() }
    }
}

/// Collects the values of a dimension.
pub struct AttrIndexBuilder {
    pub name: String,
    pub map: BTreeMap<AttrKey, AttrType>,
}

impl AttrIndexBuilder {
    pub fn new(name: &str) -> (builder: Self)
        ensures
            builder.name@ == name@,
            builder.map@ == Map::<AttrKey, AttrType>::empty(),
    {
        Self { name: name.to_string(), map: BTreeMap::new() }
    }

    /// Files the value `label` under the value index `key`, in place of any
    /// value that was there.
    pub fn label(self, key: AttrKey, label: AttrType) -> (builder: Self)
        ensures
            builder.name == self.name,
            builder.map@ == self.map@.insert(key, label),
    {
        let mut map = self.map;
        map.insert(key, label);
        Self { name: self.name, map }
    }

    pub fn build(self) -> (index: AttrIndex)
        ensures
            index.name == self.name,
            index.map == self.map,
    {
        AttrIndex { name: self.name, map: self.map }
    }
}

/// A dimension as it is shown: its name and its values in order.
#[derive(Debug, Clone)]
pub struct AttrIndexResponse {
    pub name: String,
    pub value: Vec<AttrType>,
}

/// What a shown dimension holds.
pub struct AttrIndexModel {
    pub name: String,
    pub value: Seq<AttrType>,
}

impl View for AttrIndexResponse {
    type V = AttrIndexModel;

    open spec fn view(&self) -> AttrIndexModel {
        AttrIndexModel { name: self.name, value: self.value@ }
    }
}

/// The dimensions as they are shown, one place for each of the four.
pub type AttrIndexesResponse = [Option<AttrIndexResponse>; 4];

/// What one place of the shown dimensions holds.
pub open spec fn index_option_view(shown: Option<AttrIndexResponse>) -> Option<AttrIndexModel> {
    match shown {
        Some(index) => Some(index@),
        None => None,
    }
}

/// What the shown dimensions hold.
pub open spec fn indexes_view(shown: AttrIndexesResponse) -> Seq<Option<AttrIndexModel>> {
    Seq::new(4, |i: int| index_option_view(shown@[i]))
}

/// The dimensions of an item, positionally aligned with the slots of a key.
#[derive(Debug)]
pub struct AttrIndexes(pub [Option<AttrIndex>; 4]);

impl AttrIndexes {
    /// The dimension at place `i`, if the item has one there.
    pub open spec fn dimension(&self, i: int) -> Option<AttrIndex> {
        self.0@[i]
    }

    /// The value indices of the dimension at place `i`, ascending; none
    /// where the item has no dimension there.
    pub open spec fn value_keys(&self, i: int) -> Seq<AttrKey> {
        if 0 <= i < 4 {
            match self.dimension(i) {
                Some(index) => index.spec_keys(),
                None => Seq::empty(),
            }
        } else {
            Seq::empty()
        }
    }

    /// A builder with no dimension.
    pub fn builder() -> (builder: AttrIndexesBuilder)
        ensures
            forall|i: int| 0 <= i < 4 ==> builder.0@[i] is None,
    {
        AttrIndexesBuilder([None, None, None, None])
    }
}

/// Collects the dimensions of an item.
pub struct AttrIndexesBuilder(pub [Option<AttrIndex>; 4]);

impl AttrIndexesBuilder {
    /// Puts the dimension `attr_index` at place `index`, in place of any
    /// dimension that was there.
    pub fn attr(self, index: usize, attr_index: AttrIndex) -> (builder: Self)
        requires
            index < 4,
        ensures
            builder.0@ == self.0@.update(index as int, Some(attr_index)),
    {
        let mut places = self.0;
        places[index] = Some(attr_index);
        AttrIndexesBuilder(places)
    }

    pub fn build(self) -> (indexes: AttrIndexes)
        ensures
            indexes.0 == self.0,
    {
        AttrIndexes(self.0)
    }
}

/// The attribute table of an item.
#[derive(Debug)]
pub struct ItemAttrsV1 {
    /// The record of each combination, filed under the code of its key.
    pub map: BTreeMap<u64, AttrSpecificData>,
    pub indexes: AttrIndexes,
}

impl ItemAttrsV1 {
    /// Whether the table has a record for the combination `slots`.
    pub open spec fn has(&self, slots: Seq<Option<AttrKey>>) -> bool {
        self.map@.contains_key(code_of(slots))
    }

    /// The record of the combination `slots`.
    pub open spec fn record(&self, slots: Seq<Option<AttrKey>>) -> AttrSpecificData
        recommends
            self.has(slots),
    {
        self.map@[code_of(slots)]
    }

    /// Whether the combination `slots` is in stock; none where the table has
    /// no record for it.
    pub open spec fn spec_is_in_stock(&self, slots: Seq<Option<AttrKey>>) -> Option<bool> {
        if self.has(slots) {
            Some(self.record(slots).stock > 0)
        } else {
            None
        }
    }

    /// The dimensions as they are shown.
    pub open spec fn spec_indexes_result(&self) -> Seq<Option<AttrIndexModel>> {
        Seq::new(
            4,
            |i: int|
                match self.indexes.dimension(i) {
                    Some(index) => Some(index.spec_snapshot()),
                    None => None,
                },
        )
    }

    /// For the dimensions below `bound` that the item has, in order, the
    /// name of the value that the key chooses there.
    pub open spec fn spec_index_values_below(
        &self,
        slots: Seq<Option<AttrKey>>,
        bound: int,
    ) -> Seq<Option<String>>
        decreases bound,
    {
        if bound <= 0 {
            Seq::empty()
        } else {
            match self.indexes.dimension(bound - 1) {
                Some(index) => self.spec_index_values_below(slots, bound - 1).push(
                    index.spec_value_text(slots[bound - 1]),
                ),
                None => self.spec_index_values_below(slots, bound - 1),
            }
        }
    }

    /// A builder with no combination and no dimension.
    pub fn builder() -> (builder: ItemAttrsV1Builder)
        ensures
            builder.map@ == Map::<u64, AttrSpecificData>::empty(),
            forall|i: int| 0 <= i < 4 ==> builder.indexes.0@[i] is None,
    {
        ItemAttrsV1Builder { map: BTreeMap::new(), indexes: AttrIndexes([None, None, None, None]) }
    }

    /// The record of exactly this combination.
    pub fn get_attrs(&self, keys: &AttrKeys) -> (data: Option<AttrSpecificData>)
        ensures
            data.is_some() == self.has(keys.slots()),
            data matches Some(found) ==> found@ == self.record(keys.slots())@,
    {
        match self.get_record(keys) {
            Some(data) => Some(data.clone()),
            None => None,
        }
    }

    /// The record of exactly this combination, borrowed from the table.
    pub fn get_record(&self, keys: &AttrKeys) -> (data: Option<&AttrSpecificData>)
        ensures
            data.is_some() == self.has(keys.slots()),
            data matches Some(found) ==> *found == self.record(keys.slots()),
    {
        let code = keys.code();
        self.map.get(&code)
    }

    /// Whether this combination is in stock.
    pub fn get_is_in_stock(&self, attr_keys: &AttrKeys) -> (in_stock: Option<bool>)
        ensures
            in_stock == self.spec_is_in_stock(attr_keys.slots()),
    {
        match self.get_record(attr_keys) {
            Some(data) => Some(data.stock > 0),
            None => None,
        }
    }

    /// The value indices of the dimension at `place`, ascending; none where
    /// the item has no dimension there.
    pub fn dimension_keys(&self, place: usize) -> (keys: Vec<AttrKey>)
        ensures
            keys@ == self.indexes.value_keys(place as int),
            keys@.len() <= 256,
    {
        if place >= 4 {
            return Vec::new();
        }
        match &self.indexes.0[place] {
            Some(index) => index.keys(),
            None => Vec::new(),
        }
    }

    fn dimension_snapshot(&self, place: usize) -> (shown: Option<AttrIndexResponse>)
        requires
            place < 4,
        ensures
            index_option_view(shown) == self.spec_indexes_result()[place as int],
            shown matches Some(index) ==> index.value@.len() <= 256,
    {
        match &self.indexes.0[place] {
            Some(index) => Some(index.snapshot()),
            None => None,
        }
    }

    /// The dimensions as they are shown: for each dimension that the item
    /// has, its name and its values by ascending value index.
    pub fn get_attrs_indexes_result(&self) -> (shown: AttrIndexesResponse)
        ensures
            indexes_view(shown) == self.spec_indexes_result(),
            forall|i: int|
                0 <= i < 4 ==> (#[trigger] shown@[i] matches Some(index) ==> index.value@.len()
                    <= 256),
    {
        let shown = [
            self.dimension_snapshot(0),
            self.dimension_snapshot(1),
            self.dimension_snapshot(2),
            self.dimension_snapshot(3),
        ];
        assert(indexes_view(shown) =~= self.spec_indexes_result());
        shown
    }

    /// For each dimension that the item has, in order, the name of the value
    /// that the key chooses there; none where it chooses no value that the
    /// dimension has.
    pub fn get_attrs_index_values(&self, attr_keys: AttrKeys) -> (values: Vec<Option<String>>)
        ensures
            values@ == self.spec_index_values_below(attr_keys.slots(), 4),
    {
        let mut values: Vec<Option<String>> = Vec::new();
        let mut place: usize = 0;
        while place < 4
            invariant
                0 <= place <= 4,
                values@ == self.spec_index_values_below(attr_keys.slots(), place as int),
            decreases 4 - place,
        {
            match &self.indexes.0[place] {
                Some(index) => {
                    values.push(index.value_text(attr_keys.get(place)));
                },
                None => {},
            }
            place += 1;
        }
        values
    }
}

/// Collects the combinations and dimensions of an attribute table.
pub struct ItemAttrsV1Builder {
    pub map: BTreeMap<u64, AttrSpecificData>,
    pub indexes: AttrIndexes,
}

impl ItemAttrsV1Builder {
    /// Files `data` as the record of the combination `keys`, in place of any
    /// record it had.
    pub fn attr(self, keys: AttrKeys, data: AttrSpecificData) -> (builder: Self)
        ensures
            builder.map@ == self.map@.insert(keys.spec_code(), data),
            builder.indexes == self.indexes,
    {
        let mut map = self.map;
        map.insert(keys.code(), data);
        Self { map, indexes: self.indexes }
    }

    pub fn indexes(self, indexes: AttrIndexes) -> (builder: Self)
        ensures
            builder.map == self.map,
            builder.indexes == indexes,
    {
        Self { map: self.map, indexes }
    }

    pub fn build(self) -> (attrs: ItemAttrsV1)
        ensures
            attrs.map == self.map,
            attrs.indexes == self.indexes,
    {
        ItemAttrsV1 { map: self.map, indexes: self.indexes }
    }
}

} // verus!
