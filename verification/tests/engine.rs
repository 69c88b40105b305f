use store_catalog::data::StoreData;
use store_catalog::data::StoreDataV1;
use store_catalog::item::attr::AttrColor;
use store_catalog::item::attr::AttrIndex;
use store_catalog::item::attr::AttrIndexes;
use store_catalog::item::attr::AttrSpecificData;
use store_catalog::item::attr::AttrStatusResponse;
use store_catalog::item::attr::AttrType;
use store_catalog::item::attr::ItemAttrsV1;
use store_catalog::item::image::ItemImagesV1;
use store_catalog::item::image::MediaDataWithCaption;
use store_catalog::item::keys::AttrKeys;
use store_catalog::item::page::get_attr_data_or_fallback;
use store_catalog::item::page::get_item_page_data;
use store_catalog::item::page::ItemPageAttrRequest;
use store_catalog::item::page::ItemPageFromStoreErrorCode;
use store_catalog::item::page::ItemPageRequestToStoreCanister;
use store_catalog::item::spec::ItemSpecsV1;
use store_catalog::item::spec::SpecCategory;
use store_catalog::item::spec::SpecKey;
use store_catalog::item::spec::SpecLabel;
use store_catalog::item::spec::SpecResponseCategory;
use store_catalog::item::spec::SpecResponseLabel;
use store_catalog::item::Item;
use store_catalog::item::ItemVersion;
use store_catalog::unit::Currency;
use store_catalog::unit::Price;

fn money(amount: f64) -> Price {
    Price::from_bits(amount.to_bits())
}

fn media(name: &str) -> MediaDataWithCaption {
    MediaDataWithCaption { url: format!("{}.png", name), caption: name.to_string() }
}

fn text(value: &str) -> AttrType {
    AttrType::Text(value.to_string())
}

fn color(name: &str, code: &str) -> AttrType {
    AttrType::Color(AttrColor { name: name.to_string(), code: code.to_string() })
}

fn keys(color: Option<u8>, size: Option<u8>) -> AttrKeys {
    AttrKeys::new([color, size, None, None])
}

/// Images 0, 1 and 2; group 1 = [0, 2], group 2 = [1], group 3 = [0, 77]
/// (77 is missing), group 4 = [77, 0], group 5 = [].
fn images() -> ItemImagesV1 {
    let mut builder = ItemImagesV1::builder();
    builder
        .image(0, media("red-front"))
        .image(1, media("blue-front"))
        .image(2, media("red-back"))
        .index_vec(1, vec![0, 2])
        .index_vec(2, vec![1])
        .index_vec(3, vec![0, 77])
        .index_vec(4, vec![77, 0])
        .index_vec(5, vec![]);
    builder.build()
}

/// Category 0 "Fabric" with labels 0 "Material" (values 0, 1) and 1 "Care"
/// (value 0); category 1 "Fit" with label 0 "Cut" (value 0). Selections:
/// 0 = Fabric{Material:0, Care:0}, 1 = Fit{Cut:0}, 2 = Fabric{Care:0,
/// Material:1}, 3 = category 9 (missing), 4 = Fabric{label 9}, 5 =
/// Fabric{Material: value 9}, 6 = Fit{}.
fn specs() -> ItemSpecsV1 {
    let material = SpecLabel::builder("Material")
        .value(0, vec!["Cotton"])
        .value(1, vec!["Wool", "Silk"])
        .build();
    let care = SpecLabel::builder("Care").value(0, vec!["Hand wash"]).build();
    let cut = SpecLabel::builder("Cut").value(0, vec!["Slim"]).build();
    let fabric = SpecCategory::builder("Fabric").label(0, material).label(1, care).build();
    let fit = SpecCategory::builder("Fit").label(0, cut).build();
    ItemSpecsV1::builder()
        .spec(0, fabric)
        .spec(1, fit)
        .index(0, SpecKey::builder(0).label(0, 0).label(1, 0).build())
        .index(1, SpecKey::builder(1).label(0, 0).build())
        .index(2, SpecKey::builder(0).label(1, 0).label(0, 1).build())
        .index(3, SpecKey::builder(9).label(0, 0).build())
        .index(4, SpecKey::builder(0).label(9, 0).build())
        .index(5, SpecKey::builder(0).label(0, 9).build())
        .index(6, SpecKey::builder(1).build())
        .build()
}

fn dimensions() -> AttrIndexes {
    let colors = AttrIndex::builder("color")
        .label(1, color("blue", "#00f"))
        .label(0, color("red", "#f00"))
        .build();
    let sizes = AttrIndex::builder("size").label(0, text("S")).label(1, text("M")).build();
    AttrIndexes::builder().attr(0, colors).attr(1, sizes).build()
}

fn red_s() -> AttrSpecificData {
    AttrSpecificData::builder()
        .stock(5)
        .price(Currency::USD, money(10.0))
        .price(Currency::EUR, money(9.0))
        .image_vec_key(1)
        .spec_key(0)
        .spec_key(1)
        .build()
}

fn blue_m() -> AttrSpecificData {
    AttrSpecificData::builder().stock(0).price(Currency::USD, money(12.0)).image_vec_key(2).build()
}

fn item_with(attrs: ItemAttrsV1) -> Item {
    Item {
        id: 42,
        name: "Shirt".to_string(),
        version: ItemVersion::V1 {
            descriptions: vec!["A shirt.".to_string(), "Made to last.".to_string()],
            tags: vec!["clothing".to_string()],
            images: images(),
            specs: specs(),
            attrs,
        },
    }
}

/// (red, S) in stock, (blue, M) out of stock, (red, M) and (blue, S) absent.
fn shirt() -> Item {
    item_with(
        ItemAttrsV1::builder()
            .attr(keys(Some(0), Some(0)), red_s())
            .attr(keys(Some(1), Some(1)), blue_m())
            .indexes(dimensions())
            .build(),
    )
}

fn request(keys: AttrKeys, changed: Option<u8>, currency: Currency) -> ItemPageRequestToStoreCanister {
    ItemPageRequestToStoreCanister {
        item_id: 42,
        attr: ItemPageAttrRequest { keys, changed_key_index: changed },
        currency,
    }
}

fn store() -> StoreData {
    StoreData::V1(StoreDataV1 { id: 7, name: "Corner shop".to_string() })
}

fn status(is_in_stock: bool) -> Option<AttrStatusResponse> {
    Some(AttrStatusResponse { is_in_stock })
}

#[test]
fn base_image_is_first_of_group() {
    let images = images();
    assert_eq!(images.get_base_image(&1), Some(&media("red-front")));
    assert_eq!(images.get_base_image(&2), Some(&media("blue-front")));
}

#[test]
fn base_image_of_unknown_group_is_none() {
    assert_eq!(images().get_base_image(&8), None);
}

#[test]
fn base_image_needs_every_image_of_the_group() {
    let images = images();
    assert_eq!(images.get_base_image(&3), None);
    assert_eq!(images.get_base_image(&4), None);
}

#[test]
fn base_image_of_empty_group_is_none() {
    assert_eq!(images().get_base_image(&5), None);
}

#[test]
fn image_list_keeps_group_order() {
    let images = images();
    assert_eq!(images.get_index_vec(&1), Some(vec![media("red-front"), media("red-back")]));
    assert_eq!(images.get_index_vec(&2), Some(vec![media("blue-front")]));
    assert_eq!(images.get_index_vec(&5), Some(vec![]));
}

#[test]
fn image_list_with_a_missing_image_is_none() {
    let images = images();
    assert_eq!(images.get_index_vec(&3), None);
    assert_eq!(images.get_index_vec(&4), None);
    assert_eq!(images.get_index_vec(&8), None);
}

#[test]
fn image_builder_replaces_under_the_same_key() {
    let mut builder = ItemImagesV1::builder();
    builder.image(0, media("old")).image(0, media("new")).index_vec(1, vec![0]);
    let images = builder.build();
    assert_eq!(images.get_base_image(&1), Some(&media("new")));
}

fn fabric_first() -> SpecResponseCategory {
    SpecResponseCategory {
        category_name: "Fabric".to_string(),
        label_vec: vec![
            SpecResponseLabel {
                label_name: "Material".to_string(),
                value: vec!["Cotton".to_string()],
            },
            SpecResponseLabel {
                label_name: "Care".to_string(),
                value: vec!["Hand wash".to_string()],
            },
        ],
    }
}

fn fit() -> SpecResponseCategory {
    SpecResponseCategory {
        category_name: "Fit".to_string(),
        label_vec: vec![
            SpecResponseLabel { label_name: "Cut".to_string(), value: vec!["Slim".to_string()] },
        ],
    }
}

#[test]
fn specs_resolve_in_the_order_asked_for() {
    let specs = specs();
    assert_eq!(specs.get_specs(&vec![0, 1]), Some(vec![fabric_first(), fit()]));
    assert_eq!(specs.get_specs(&vec![1, 0]), Some(vec![fit(), fabric_first()]));
}

#[test]
fn specs_keep_the_order_of_the_selection() {
    let expected = SpecResponseCategory {
        category_name: "Fabric".to_string(),
        label_vec: vec![
            SpecResponseLabel {
                label_name: "Care".to_string(),
                value: vec!["Hand wash".to_string()],
            },
            SpecResponseLabel {
                label_name: "Material".to_string(),
                value: vec!["Wool".to_string(), "Silk".to_string()],
            },
        ],
    };
    assert_eq!(specs().get_specs(&vec![2]), Some(vec![expected]));
}

#[test]
fn specs_of_no_selection_are_empty() {
    assert_eq!(specs().get_specs(&vec![]), Some(vec![]));
    let bare = SpecResponseCategory { category_name: "Fit".to_string(), label_vec: vec![] };
    assert_eq!(specs().get_specs(&vec![6]), Some(vec![bare]));
}

#[test]
fn specs_with_an_unknown_selection_are_none() {
    assert_eq!(specs().get_specs(&vec![0, 200]), None);
    assert_eq!(specs().get_specs(&vec![200, 0]), None);
}

#[test]
fn specs_with_a_missing_category_are_none() {
    assert_eq!(specs().get_specs(&vec![0, 3, 1]), None);
}

#[test]
fn specs_with_a_missing_label_are_none() {
    assert_eq!(specs().get_specs(&vec![0, 4]), None);
}

#[test]
fn specs_with_a_missing_value_are_none() {
    assert_eq!(specs().get_specs(&vec![5, 1]), None);
}

#[test]
fn one_selection_resolves_alone() {
    assert_eq!(specs().get_spec_category(&1), Some(fit()));
    assert_eq!(specs().get_spec_category(&4), None);
}

#[test]
fn label_and_value_getters_look_up_by_key() {
    let material = SpecLabel::builder("Material").value(3, vec!["Linen", "Hemp"]).build();
    assert_eq!(material.get_value(&3), Some(&vec!["Linen".to_string(), "Hemp".to_string()]));
    assert_eq!(material.get_value(&4), None);
    let fabric = SpecCategory::builder("Fabric").label(2, material).build();
    assert_eq!(fabric.name, "Fabric");
    assert_eq!(fabric.get_label(2).map(|label| label.name.clone()), Some("Material".to_string()));
    assert!(fabric.get_label(0).is_none());
}

#[test]
fn selection_builder_collects_choices_in_order() {
    let selection = SpecKey::builder(4).label(1, 2).label(0, 3).build();
    assert_eq!(selection.category_key, 4);
    assert_eq!(selection.label_vec.len(), 2);
    assert_eq!((selection.label_vec[0].label_key, selection.label_vec[0].value_key), (1, 2));
    assert_eq!((selection.label_vec[1].label_key, selection.label_vec[1].value_key), (0, 3));
}

#[test]
fn lookup_is_exact() {
    let item = shirt();
    let ItemVersion::V1 { attrs, .. } = &item.version;
    let found = attrs.get_attrs(&keys(Some(0), Some(0))).unwrap();
    assert_eq!(found.stock, 5);
    assert_eq!(found.image_vec_key, 1);
    assert_eq!(found.spec_keys, vec![0, 1]);
    assert_eq!(found.get_price(&Currency::USD), Some(money(10.0)));
    assert_eq!(found.get_price(&Currency::EUR), Some(money(9.0)));
    assert_eq!(found.get_price(&Currency::JPY), None);
    assert!(attrs.get_attrs(&keys(Some(0), Some(1))).is_none());
    assert!(attrs.get_attrs(&keys(Some(0), None)).is_none());
    assert!(attrs.get_attrs(&AttrKeys::default()).is_none());
}

#[test]
fn in_stock_is_known_only_of_recorded_combinations() {
    let item = shirt();
    let ItemVersion::V1 { attrs, .. } = &item.version;
    assert_eq!(attrs.get_is_in_stock(&keys(Some(0), Some(0))), Some(true));
    assert_eq!(attrs.get_is_in_stock(&keys(Some(1), Some(1))), Some(false));
    assert_eq!(attrs.get_is_in_stock(&keys(Some(0), Some(1))), None);
}

#[test]
fn snapshot_lists_values_by_value_index() {
    let item = shirt();
    let ItemVersion::V1 { attrs, .. } = &item.version;
    let shown = attrs.get_attrs_indexes_result();
    let colors = shown[0].as_ref().unwrap();
    assert_eq!(colors.name, "color");
    assert_eq!(colors.value, vec![color("red", "#f00"), color("blue", "#00f")]);
    let sizes = shown[1].as_ref().unwrap();
    assert_eq!(sizes.name, "size");
    assert_eq!(sizes.value, vec![text("S"), text("M")]);
    assert!(shown[2].is_none());
    assert!(shown[3].is_none());
}

#[test]
fn index_values_name_the_chosen_values() {
    let item = shirt();
    let ItemVersion::V1 { attrs, .. } = &item.version;
    assert_eq!(
        attrs.get_attrs_index_values(keys(Some(1), Some(0))),
        vec![Some("blue".to_string()), Some("S".to_string())]
    );
    assert_eq!(attrs.get_attrs_index_values(keys(Some(9), None)), vec![None, None]);
}

#[test]
fn attr_data_holds_every_part() {
    let item = shirt();
    let data = item.get_attr_data(&keys(Some(0), Some(0)), &Currency::USD).unwrap();
    assert_eq!(data.stock, 5);
    assert_eq!(data.price, money(10.0));
    assert_eq!(data.image_vec, vec![media("red-front"), media("red-back")]);
    assert_eq!(data.specs, Some(vec![fabric_first(), fit()]));
    let euro = item.get_attr_data(&keys(Some(0), Some(0)), &Currency::EUR).unwrap();
    assert_eq!(euro.price, money(9.0));
}

#[test]
fn attr_data_needs_a_record() {
    assert!(shirt().get_attr_data(&keys(Some(0), Some(1)), &Currency::USD).is_none());
}

#[test]
fn attr_data_needs_a_price_in_the_currency() {
    assert!(shirt().get_attr_data(&keys(Some(0), Some(0)), &Currency::JPY).is_none());
    assert!(shirt().get_attr_core_data(&keys(Some(0), Some(0)), &Currency::JPY).is_none());
}

#[test]
fn attr_data_needs_every_image_of_the_group() {
    let broken = AttrSpecificData::builder()
        .stock(1)
        .price(Currency::USD, money(1.0))
        .image_vec_key(3)
        .build();
    let item = item_with(
        ItemAttrsV1::builder().attr(keys(Some(0), Some(0)), broken).indexes(dimensions()).build(),
    );
    assert!(item.get_attr_data(&keys(Some(0), Some(0)), &Currency::USD).is_none());
    assert!(item.get_attr_core_data(&keys(Some(0), Some(0)), &Currency::USD).is_none());
}

#[test]
fn core_data_fails_where_attr_data_fails() {
    for group in [1u32, 2, 3, 4, 8] {
        let data = AttrSpecificData::builder()
            .stock(1)
            .price(Currency::USD, money(1.0))
            .image_vec_key(group)
            .build();
        let item = item_with(
            ItemAttrsV1::builder().attr(keys(Some(0), Some(0)), data).indexes(dimensions()).build(),
        );
        for currency in [Currency::USD, Currency::EUR] {
            let full = item.get_attr_data(&keys(Some(0), Some(0)), &currency);
            let core = item.get_attr_core_data(&keys(Some(0), Some(0)), &currency);
            assert_eq!(full.is_some(), core.is_some());
            if let (Some(full), Some(core)) = (full, core) {
                assert_eq!(core.image, full.image_vec[0]);
                assert_eq!(core.price, full.price);
                assert_eq!(core.stock, full.stock);
            }
        }
    }
}

#[test]
fn attr_data_survives_unresolved_specs() {
    let loose = AttrSpecificData::builder()
        .stock(1)
        .price(Currency::USD, money(1.0))
        .image_vec_key(2)
        .spec_key(0)
        .spec_key(3)
        .build();
    let item = item_with(
        ItemAttrsV1::builder().attr(keys(Some(0), Some(0)), loose).indexes(dimensions()).build(),
    );
    let data = item.get_attr_data(&keys(Some(0), Some(0)), &Currency::USD).unwrap();
    assert_eq!(data.specs, None);
    assert_eq!(data.stock, 1);
}

#[test]
fn core_data_holds_the_base_image() {
    let core = shirt().get_attr_core_data(&keys(Some(0), Some(0)), &Currency::USD).unwrap();
    assert_eq!(core.stock, 5);
    assert_eq!(core.price, money(10.0));
    assert_eq!(core.image, media("red-front"));
    assert!(shirt().get_attr_core_data(&keys(Some(1), Some(0)), &Currency::USD).is_none());
}

#[test]
fn statuses_are_none_exactly_for_absent_combinations() {
    let item = shirt();
    let around_red_s = item.get_attr_statuses(&keys(Some(0), Some(0)));
    assert_eq!(around_red_s[0], vec![status(true), None]);
    assert_eq!(around_red_s[1], vec![status(true), None]);
    assert!(around_red_s[2].is_empty());
    assert!(around_red_s[3].is_empty());
    let around_red_m = item.get_attr_statuses(&keys(Some(0), Some(1)));
    assert_eq!(around_red_m[0], vec![None, status(false)]);
    assert_eq!(around_red_m[1], vec![status(true), None]);
}

#[test]
fn exact_match_needs_no_fallback() {
    let item = shirt();
    let arg = request(keys(Some(0), Some(0)), Some(1), Currency::USD);
    let statuses = item.get_attr_statuses(&arg.attr.keys);
    let (data, fallback) = get_attr_data_or_fallback(&item, &arg, &statuses);
    assert_eq!(data.unwrap().stock, 5);
    assert_eq!(fallback, None);
}

#[test]
fn fallback_scans_the_other_dimensions() {
    let item = shirt();
    let arg = request(keys(Some(0), Some(1)), Some(1), Currency::USD);
    let statuses = item.get_attr_statuses(&arg.attr.keys);
    let (data, fallback) = get_attr_data_or_fallback(&item, &arg, &statuses);
    let data = data.unwrap();
    assert_eq!(fallback, Some(keys(Some(1), Some(1))));
    assert_eq!(data.stock, 0);
    assert_eq!(data.price, money(12.0));
    assert_eq!(data.image_vec, vec![media("blue-front")]);
}

#[test]
fn fallback_never_replaces_the_changed_dimension() {
    let item = shirt();
    let arg = request(keys(Some(0), Some(1)), Some(0), Currency::USD);
    let statuses = item.get_attr_statuses(&arg.attr.keys);
    let (data, fallback) = get_attr_data_or_fallback(&item, &arg, &statuses);
    assert_eq!(fallback, Some(keys(Some(0), Some(0))));
    assert_eq!(fallback.unwrap().get(0), arg.attr.keys.get(0));
    assert_eq!(data.unwrap().stock, 5);
}

#[test]
fn fallback_prefers_lower_dimension_then_lower_value() {
    let plain = |stock: u32| {
        AttrSpecificData::builder()
            .stock(stock)
            .price(Currency::USD, money(1.0))
            .image_vec_key(2)
            .build()
    };
    let weights = AttrIndex::builder("weight").label(0, text("light")).label(1, text("heavy")).build();
    let colors = AttrIndex::builder("color")
        .label(0, text("red"))
        .label(1, text("blue"))
        .label(2, text("green"))
        .build();
    let sizes = AttrIndex::builder("size").label(0, text("S")).label(1, text("M")).build();
    let indexes = AttrIndexes::builder().attr(0, colors).attr(1, sizes).attr(2, weights).build();
    let at = |a: u8, b: u8, c: u8| AttrKeys::new([Some(a), Some(b), Some(c), None]);
    let item = item_with(
        ItemAttrsV1::builder()
            .attr(at(2, 1, 1), plain(1))
            .attr(at(1, 1, 1), plain(2))
            .attr(at(0, 0, 1), plain(3))
            .attr(at(0, 1, 0), plain(4))
            .indexes(indexes)
            .build(),
    );
    let search = |changed: u8| {
        let arg = request(at(0, 1, 1), Some(changed), Currency::USD);
        let statuses = item.get_attr_statuses(&arg.attr.keys);
        let (data, fallback) = get_attr_data_or_fallback(&item, &arg, &statuses);
        (data.map(|found| found.stock), fallback)
    };
    assert_eq!(search(2), (Some(2), Some(at(1, 1, 1))));
    assert_eq!(search(1), (Some(2), Some(at(1, 1, 1))));
    assert_eq!(search(0), (Some(3), Some(at(0, 0, 1))));
    assert_eq!(search(9), (Some(2), Some(at(1, 1, 1))));
    assert_eq!(search(2), search(2));
}

#[test]
fn fallback_skips_neighbours_that_do_not_resolve() {
    let unpriced = AttrSpecificData::builder().stock(3).image_vec_key(2).build();
    let item = item_with(
        ItemAttrsV1::builder()
            .attr(keys(Some(0), Some(1)), unpriced)
            .attr(keys(Some(1), Some(1)), blue_m())
            .indexes(dimensions())
            .build(),
    );
    let arg = request(keys(Some(7), Some(1)), Some(1), Currency::USD);
    let statuses = item.get_attr_statuses(&arg.attr.keys);
    assert_eq!(statuses[0], vec![status(true), status(false)]);
    let (data, fallback) = get_attr_data_or_fallback(&item, &arg, &statuses);
    assert_eq!(fallback, Some(keys(Some(1), Some(1))));
    assert_eq!(data.unwrap().stock, 0);
}

#[test]
fn fallback_goes_by_the_statuses_it_is_given() {
    let item = shirt();
    let arg = request(keys(Some(0), Some(1)), Some(1), Currency::USD);
    let nothing_shown = [vec![None, None], vec![None, None], vec![], vec![]];
    let (data, fallback) = get_attr_data_or_fallback(&item, &arg, &nothing_shown);
    assert!(data.is_none());
    assert_eq!(fallback, None);
}

#[test]
fn fallback_ends_at_the_default_key() {
    let item = item_with(
        ItemAttrsV1::builder()
            .attr(AttrKeys::default(), red_s())
            .attr(keys(Some(0), Some(0)), blue_m())
            .indexes(dimensions())
            .build(),
    );
    let with_hint = request(keys(Some(1), Some(1)), Some(0), Currency::USD);
    let statuses = item.get_attr_statuses(&with_hint.attr.keys);
    let (data, fallback) = get_attr_data_or_fallback(&item, &with_hint, &statuses);
    assert_eq!(fallback, Some(AttrKeys::default()));
    assert_eq!(data.unwrap().stock, 5);
    let first_load = request(keys(Some(1), Some(0)), None, Currency::USD);
    let statuses = item.get_attr_statuses(&first_load.attr.keys);
    assert_eq!(statuses[0], vec![status(false), None]);
    let (data, fallback) = get_attr_data_or_fallback(&item, &first_load, &statuses);
    assert_eq!(fallback, Some(AttrKeys::default()));
    assert_eq!(data.unwrap().stock, 5);
}

#[test]
fn fallback_can_find_nothing() {
    let item = shirt();
    let arg = request(keys(Some(0), Some(1)), None, Currency::USD);
    let statuses = item.get_attr_statuses(&arg.attr.keys);
    let (data, fallback) = get_attr_data_or_fallback(&item, &arg, &statuses);
    assert!(data.is_none());
    assert_eq!(fallback, None);
    let yen = request(keys(Some(0), Some(0)), Some(0), Currency::JPY);
    let statuses = item.get_attr_statuses(&yen.attr.keys);
    let (data, fallback) = get_attr_data_or_fallback(&item, &yen, &statuses);
    assert!(data.is_none());
    assert_eq!(fallback, None);
}

#[test]
fn page_of_a_missing_item_is_not_found() {
    let arg = request(keys(Some(0), Some(0)), None, Currency::USD);
    let result = get_item_page_data(&arg, None, &store());
    assert_eq!(result.err(), Some(ItemPageFromStoreErrorCode::ItemNotFound));
}

#[test]
fn page_without_any_combination_has_no_available_attr() {
    let item = shirt();
    let arg = request(keys(Some(0), Some(1)), None, Currency::USD);
    let result = get_item_page_data(&arg, Some(&item), &store());
    assert_eq!(result.err(), Some(ItemPageFromStoreErrorCode::NoAvailableAttr));
    let arg = request(keys(Some(0), Some(0)), Some(1), Currency::GBP);
    let result = get_item_page_data(&arg, Some(&item), &store());
    assert_eq!(result.err(), Some(ItemPageFromStoreErrorCode::NoAvailableAttr));
}

#[test]
fn first_load_carries_static_data() {
    let item = shirt();
    let arg = request(keys(Some(0), Some(0)), None, Currency::USD);
    let page = get_item_page_data(&arg, Some(&item), &store()).unwrap();
    let fixed = page.static_data.unwrap();
    assert_eq!(fixed.item_name, "Shirt");
    assert_eq!(fixed.descriptions, vec!["A shirt.".to_string(), "Made to last.".to_string()]);
    assert_eq!(fixed.tags, vec!["clothing".to_string()]);
    assert_eq!(fixed.store_name, "Corner shop");
    assert_eq!(fixed.attrs[0].as_ref().unwrap().value, vec![color("red", "#f00"), color("blue", "#00f")]);
    assert_eq!(fixed.attrs[1].as_ref().unwrap().name, "size");
    assert!(fixed.attrs[2].is_none());
    assert_eq!(page.price, money(10.0));
    assert_eq!(page.stock, 5);
    assert_eq!(page.images, vec![media("red-front"), media("red-back")]);
    assert_eq!(page.specs, Some(vec![fabric_first(), fit()]));
    assert_eq!(page.fallback_attr, None);
    assert_eq!(page.attr_status[0], vec![status(true), None]);
}

#[test]
fn later_loads_carry_no_static_data() {
    let item = shirt();
    let arg = request(keys(Some(0), Some(0)), Some(0), Currency::USD);
    let page = get_item_page_data(&arg, Some(&item), &store()).unwrap();
    assert!(page.static_data.is_none());
    assert_eq!(page.stock, 5);
}

#[test]
fn store_without_a_record_has_an_empty_name() {
    let item = shirt();
    let arg = request(keys(Some(0), Some(0)), None, Currency::USD);
    let page = get_item_page_data(&arg, Some(&item), &StoreData::Uninitialized).unwrap();
    assert_eq!(page.static_data.unwrap().store_name, "");
}

#[test]
fn page_shows_statuses_against_the_key_it_fell_back_on() {
    let item = shirt();
    let arg = request(keys(Some(0), Some(1)), Some(1), Currency::USD);
    let page = get_item_page_data(&arg, Some(&item), &store()).unwrap();
    assert_eq!(page.fallback_attr, Some(keys(Some(1), Some(1))));
    assert_eq!(page.price, money(12.0));
    assert_eq!(page.stock, 0);
    assert_eq!(page.images, vec![media("blue-front")]);
    assert_eq!(page.specs, Some(vec![]));
    assert_eq!(page.attr_status[0], vec![None, status(false)]);
    assert_eq!(page.attr_status[1], vec![None, status(false)]);
    assert!(page.static_data.is_none());
}

#[test]
fn missing_neighbour_falls_to_the_default_key_or_fails() {
    let without_blue_m = item_with(
        ItemAttrsV1::builder()
            .attr(keys(Some(0), Some(0)), red_s())
            .attr(AttrKeys::default(), blue_m())
            .indexes(dimensions())
            .build(),
    );
    let arg = request(keys(Some(0), Some(1)), Some(1), Currency::USD);
    let page = get_item_page_data(&arg, Some(&without_blue_m), &store()).unwrap();
    assert_eq!(page.fallback_attr, Some(AttrKeys::default()));
    assert_eq!(page.price, money(12.0));
    let bare = item_with(
        ItemAttrsV1::builder().attr(keys(Some(0), Some(0)), red_s()).indexes(dimensions()).build(),
    );
    let result = get_item_page_data(&arg, Some(&bare), &store());
    assert_eq!(result.err(), Some(ItemPageFromStoreErrorCode::NoAvailableAttr));
}

/// Colours with the value indices 2 and 7 only; sizes 0 and 1.
fn sparse_item() -> Item {
    let colors = AttrIndex::builder("color")
        .label(7, color("black", "#000"))
        .label(2, color("green", "#0f0"))
        .build();
    let sizes = AttrIndex::builder("size").label(0, text("S")).label(1, text("M")).build();
    item_with(
        ItemAttrsV1::builder()
            .attr(keys(Some(7), Some(0)), red_s())
            .attr(keys(Some(1), Some(0)), blue_m())
            .indexes(AttrIndexes::builder().attr(0, colors).attr(1, sizes).build())
            .build(),
    )
}

#[test]
fn statuses_follow_the_value_indices_of_a_dimension() {
    let item = sparse_item();
    assert_eq!(item.dimension_keys(0), vec![2, 7]);
    assert_eq!(item.dimension_keys(1), vec![0, 1]);
    assert_eq!(item.dimension_keys(2), vec![]);
    assert_eq!(item.dimension_keys(9), vec![]);
    let statuses = item.get_attr_statuses(&keys(Some(2), Some(0)));
    assert_eq!(statuses[0], vec![None, status(true)]);
    assert_eq!(statuses[1], vec![None, None]);
    let ItemVersion::V1 { attrs, .. } = &item.version;
    let shown = attrs.get_attrs_indexes_result();
    assert_eq!(
        shown[0].as_ref().unwrap().value,
        vec![color("green", "#0f0"), color("black", "#000")]
    );
}

#[test]
fn fallback_tries_the_value_indices_of_a_dimension() {
    let item = sparse_item();
    let arg = request(keys(Some(2), Some(0)), Some(1), Currency::USD);
    let statuses = item.get_attr_statuses(&arg.attr.keys);
    let (data, fallback) = get_attr_data_or_fallback(&item, &arg, &statuses);
    assert_eq!(fallback, Some(keys(Some(7), Some(0))));
    assert_eq!(data.unwrap().stock, 5);
}

#[test]
fn fallback_passes_over_statuses_without_a_value_index() {
    let item = sparse_item();
    let arg = request(keys(Some(2), Some(0)), Some(1), Currency::USD);
    let too_long = [vec![None, None, status(true)], vec![], vec![], vec![]];
    let (data, fallback) = get_attr_data_or_fallback(&item, &arg, &too_long);
    assert!(data.is_none());
    assert_eq!(fallback, None);
}
