//! Page data: the search for a combination to show, and the assembly of
//! what a page of an item needs.
use crate::data::StoreData;
use crate::item::attr::AttrIndexModel;
use crate::item::attr::AttrIndexesResponse;
use crate::item::attr::AttrSpecificDataResponse;
use crate::item::attr::AttrStatusResponse;
use crate::item::attr::AttrStatusesResponse;
use crate::item::attr::Stock;
use crate::item::attr::indexes_view;
use crate::item::attr::statuses_view;
use crate::item::attr_data_option_view;
use crate::item::image::MediaDataWithCaption;
use crate::item::keys::AttrKey;
use crate::item::keys::AttrKeys;
use crate::item::keys_option_view;
use crate::item::spec::SpecCategoryModel;
use crate::item::spec::SpecResponse;
use crate::item::spec::clone_value;
use crate::item::spec::spec_response_option_view;
use crate::item::FallbackModel;
use crate::item::Item;
use crate::item::ItemId;
use crate::item::ItemName;
use crate::item::ItemVersion;
use crate::item::Tag;
use crate::unit::Currency;
use crate::unit::Price;
use vstd::prelude::*;

verus! {

/// The combination asked for, and the dimension that the requester has just
/// changed; no dimension on the first load of an item.
#[derive(Debug, Clone, Copy)]
pub struct ItemPageAttrRequest {
    pub keys: AttrKeys,
    pub changed_key_index: Option<u8>,
}

/// A request for the page data of an item.
#[derive(Debug, Clone, Copy)]
pub struct ItemPageRequestToStoreCanister {
    pub item_id: ItemId,
    pub attr: ItemPageAttrRequest,
    pub currency: Currency,
}

/// What does not depend on the combination: sent on the first load only.
#[derive(Debug)]
pub struct ItemPageStaticDataFromStoreCanister {
    pub item_name: ItemName,
    pub descriptions: Vec<String>,
    pub tags: Vec<Tag>,
    pub attrs: AttrIndexesResponse,
    pub store_name: String,
}

/// The page data of an item for one combination.
#[derive(Debug)]
pub struct ItemPageResponseFromStoreCanister {
    pub static_data: Option<ItemPageStaticDataFromStoreCanister>,
    pub price: Price,
    pub images: Vec<MediaDataWithCaption>,
    pub stock: Stock,
    pub attr_status: AttrStatusesResponse,
    pub specs: Option<SpecResponse>,
    /// The key whose data is shown, where it is not the key asked for.
    pub fallback_attr: Option<AttrKeys>,
}

/// Why no page data could be given.
#[derive(Debug, Clone, Copy, PartialEq, Eq, Structural)]
pub enum ItemPageFromStoreErrorCode {
    /// The catalog has no item for the id.
    ItemNotFound,
    /// Neither the key asked for nor any fallback resolves.
    NoAvailableAttr,
}

/// What the static part of a page holds.
pub struct StaticDataModel {
    pub item_name: String,
    pub descriptions: Seq<String>,
    pub tags: Seq<Tag>,
    pub attrs: Seq<Option<AttrIndexModel>>,
    pub store_name: Seq<char>,
}

/// What the page data holds.
pub struct PageModel {
    pub static_data: Option<StaticDataModel>,
    pub price: Price,
    pub images: Seq<MediaDataWithCaption>,
    pub stock: Stock,
    pub attr_status: Seq<Seq<Option<AttrStatusResponse>>>,
    pub specs: Option<Seq<SpecCategoryModel>>,
    pub fallback_attr: Option<Seq<Option<AttrKey>>>,
}

impl View for ItemPageStaticDataFromStoreCanister {
    type V = StaticDataModel;

    open spec fn view(&self) -> StaticDataModel {
        StaticDataModel {
            item_name: self.item_name,
            descriptions: self.descriptions@,
            tags: self.tags@,
            attrs: indexes_view(self.attrs),
            store_name: self.store_name@,
        }
    }
}

impl View for ItemPageResponseFromStoreCanister {
    type V = PageModel;

    open spec fn view(&self) -> PageModel {
        PageModel {
            static_data: match self.static_data {
                Some(found) => Some(found@),
                None => None,
            },
            price: self.price,
            images: self.images@,
            stock: self.stock,
            attr_status: statuses_view(self.attr_status),
            specs: spec_response_option_view(self.specs),
            fallback_attr: keys_option_view(self.fallback_attr),
        }
    }
}

/// What the outcome of a page request holds.
pub open spec fn page_result_view(
    result: Result<ItemPageResponseFromStoreCanister, ItemPageFromStoreErrorCode>,
) -> Result<PageModel, ItemPageFromStoreErrorCode> {
    match result {
        Ok(page) => Ok(page@),
        Err(code) => Err(code),
    }
}

/// The static part of the page of `item` in a store named `store_name`.
pub open spec fn spec_static_data(item: &Item, store_name: Seq<char>) -> StaticDataModel {
    StaticDataModel {
        item_name: item.name,
        descriptions: item.spec_descriptions(),
        tags: item.spec_tags(),
        attrs: item.spec_attrs().spec_indexes_result(),
        store_name,
    }
}

/// The page data for a request. Without an item there is none. Otherwise the
/// combination is searched for with the statuses against the key asked for;
/// if nothing is found there is no page. The page shows what was found, the
/// statuses against the key it was found under, and the static part exactly
/// when the request names no changed dimension.
pub open spec fn spec_page(
    arg: &ItemPageRequestToStoreCanister,
    item: Option<&Item>,
    store_name: Seq<char>,
) -> Result<PageModel, ItemPageFromStoreErrorCode> {
    match item {
        None => Err(ItemPageFromStoreErrorCode::ItemNotFound),
        Some(item) => {
            let slots = arg.attr.keys.slots();
            let found = item.spec_fallback(
                slots,
                arg.currency,
                arg.attr.changed_key_index,
                item.spec_attr_statuses(slots),
            );
            match found.data {
                None => Err(ItemPageFromStoreErrorCode::NoAvailableAttr),
                Some(data) => Ok(
                    PageModel {
                        static_data: if arg.attr.changed_key_index is None {
                            Some(spec_static_data(item, store_name))
                        } else {
                            None
                        },
                        price: data.price,
                        images: data.image_vec,
                        stock: data.stock,
                        attr_status: match found.key {
                            Some(shown) => item.spec_attr_statuses(shown),
                            None => item.spec_attr_statuses(slots),
                        },
                        specs: data.specs,
                        fallback_attr: found.key,
                    },
                ),
            }
        },
    }
}

/// No value of the dimension just changed is a neighbour.
proof fn lemma_changed_dimension_has_none(
    item: &Item,
    slots: Seq<Option<AttrKey>>,
    currency: Currency,
    changed: u8,
    statuses: Seq<Seq<Option<AttrStatusResponse>>>,
    from: int,
)
    ensures
        item.first_in_dimension(slots, currency, changed, statuses, changed as int, from) is None,
    decreases statuses[changed as int].len() - from,
{
    if 0 <= from < statuses[changed as int].len() {
        lemma_changed_dimension_has_none(item, slots, currency, changed, statuses, from + 1);
    }
}

/// Searches for a combination to show: the key asked for; failing that, and
/// where the request names the dimension just changed, the first neighbour in
/// another dimension that `attr_status` shows and that resolves, going
/// through the dimensions in order and through the value indices of each in
/// ascending order; failing that, the key with every slot unset. Hands back the data found and, where
/// it is not that of the key asked for, the key it belongs to.
pub fn get_attr_data_or_fallback(
    item: &Item,
    arg: &ItemPageRequestToStoreCanister,
    attr_status: &AttrStatusesResponse,
) -> (found: (Option<AttrSpecificDataResponse>, Option<AttrKeys>))
    ensures
        (FallbackModel { data: attr_data_option_view(found.0), key: keys_option_view(found.1) })
            == item.spec_fallback(
            arg.attr.keys.slots(),
            arg.currency,
            arg.attr.changed_key_index,
            statuses_view(*attr_status),
        ),
{
    let ghost slots = arg.attr.keys.slots();
    let ghost statuses = statuses_view(*attr_status);
    if let Some(attr_data) = item.get_attr_data(&arg.attr.keys, &arg.currency) {
        return (Some(attr_data), None);
    }
    if let Some(changed_key) = arg.attr.changed_key_index {
        let mut i: usize = 0;
        while i < 4
            invariant
                0 <= i <= 4,
                slots == arg.attr.keys.slots(),
                statuses == statuses_view(*attr_status),
                arg.attr.changed_key_index == Some(changed_key),
                item.spec_attr_data(slots, arg.currency) is None,
                item.first_candidate(slots, arg.currency, changed_key, statuses, 0)
                    == item.first_candidate(slots, arg.currency, changed_key, statuses, i as int),
            decreases 4 - i,
        {
            if i == changed_key as usize {
                proof {
                    lemma_changed_dimension_has_none(
                        item,
                        slots,
                        arg.currency,
                        changed_key,
                        statuses,
                        0,
                    );
                }
            } else {
                let values = item.dimension_keys(i);
                let count = attr_status[i].len();
                let mut j: usize = 0;
                while j < count
                    invariant
                        0 <= j <= count,
                        i < 4,
                        i != changed_key as usize,
                        count == statuses[i as int].len(),
                        values@ == item.spec_attrs().indexes.value_keys(i as int),
                        slots == arg.attr.keys.slots(),
                        statuses == statuses_view(*attr_status),
                        arg.attr.changed_key_index == Some(changed_key),
                        item.spec_attr_data(slots, arg.currency) is None,
                        item.first_candidate(slots, arg.currency, changed_key, statuses, 0)
                            == item.first_candidate(
                            slots,
                            arg.currency,
                            changed_key,
                            statuses,
                            i as int,
                        ),
                        item.first_in_dimension(
                            slots,
                            arg.currency,
                            changed_key,
                            statuses,
                            i as int,
                            0,
                        ) == item.first_in_dimension(
                            slots,
                            arg.currency,
                            changed_key,
                            statuses,
                            i as int,
                            j as int,
                        ),
                    decreases count - j,
                {
                    if j < values.len() && attr_status[i][j].is_some() {
                        let chosen: u8 = values[j];
                        match arg.attr.keys.replace(i, &chosen) {
                            Ok(attr_keys) => {
                                match item.get_attr_data(&attr_keys, &arg.currency) {
                                    Some(attr_data) => {
                                        assert(item.is_candidate(
                                            slots,
                                            arg.currency,
                                            changed_key,
                                            statuses,
                                            i as int,
                                            j as int,
                                        ));
                                        return (Some(attr_data), Some(attr_keys));
                                    },
                                    None => {},
                                }
                            },
                            Err(_) => {},
                        }
                    }
                    j += 1;
                }
            }
            i += 1;
        }
    }
    let attr_keys = AttrKeys::default();
    if let Some(attr_data) = item.get_attr_data(&attr_keys, &arg.currency) {
        return (Some(attr_data), Some(attr_keys));
    }
    (None, None)
}

/// Assembles the page data for a request from the item that the catalog
/// holds for the requested id, if it holds one, and the store's record.
pub fn get_item_page_data(
    arg: &ItemPageRequestToStoreCanister,
    item: Option<&Item>,
    store: &StoreData,
) -> (result: Result<ItemPageResponseFromStoreCanister, ItemPageFromStoreErrorCode>)
    ensures
        page_result_view(result) == spec_page(arg, item, store.spec_name()),
{
    let item = match item {
        Some(item) => item,
        None => {
            return Err(ItemPageFromStoreErrorCode::ItemNotFound);
        },
    };
    let mut static_data: Option<ItemPageStaticDataFromStoreCanister> = None;
    if arg.attr.changed_key_index.is_none() {
        match &item.version {
            ItemVersion::V1 { attrs, descriptions, tags, .. } => {
                static_data = Some(
                    ItemPageStaticDataFromStoreCanister {
                        item_name: item.name.clone(),
                        descriptions: clone_value(descriptions),
                        tags: clone_value(tags),
                        attrs: attrs.get_attrs_indexes_result(),
                        store_name: store.name(),
                    },
                );
            },
        }
    }
    let mut attr_status = item.get_attr_statuses(&arg.attr.keys);
    let (attr_data, fallback_attr) = get_attr_data_or_fallback(item, arg, &attr_status);
    if let Some(shown) = &fallback_attr {
        attr_status = item.get_attr_statuses(shown);
    }
    let attr_data = match attr_data {
        Some(attr_data) => attr_data,
        None => {
            return Err(ItemPageFromStoreErrorCode::NoAvailableAttr);
        },
    };
    Ok(
        ItemPageResponseFromStoreCanister {
            static_data,
            price: attr_data.price,
            images: attr_data.image_vec,
            stock: attr_data.stock,
            attr_status,
            specs: attr_data.specs,
            fallback_attr,
        },
    )
}

/// A page carries its static part exactly when the request names no changed
/// dimension, and it names a fallback key exactly when what it shows is not
/// the data of the key asked for.
pub proof fn lemma_page_static_data_on_first_load(
    arg: &ItemPageRequestToStoreCanister,
    item: &Item,
    store_name: Seq<char>,
)
    requires
        spec_page(arg, Some(item), store_name) is Ok,
    ensures
        spec_page(arg, Some(item), store_name)->Ok_0.static_data is Some
            <==> arg.attr.changed_key_index is None,
        spec_page(arg, Some(item), store_name)->Ok_0.fallback_attr is None <==> item.spec_attr_data(
            arg.attr.keys.slots(),
            arg.currency,
        ) is Some,
{
}

} // verus!
