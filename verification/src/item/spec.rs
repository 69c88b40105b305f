//! The specification table of an item: categories of labels of values, and
//! an index of pre-composed selections from them.
use std::collections::BTreeMap;
use vstd::prelude::*;

verus! {

pub type SpecCategoryKey = u8;

pub type SpecLabelKey = u8;

pub type SpecValueKey = u8;

/// The key of a pre-composed selection.
pub type SpecIndexKey = u8;

/// A value of a label: one or more lines of text.
pub type SpecValue = Vec<String>;

/// A label of a category, with the values it can take.
#[derive(Debug, Clone)]
pub struct SpecLabel {
    pub name: String,
    pub value_map: BTreeMap<SpecValueKey, SpecValue>,
}

/// A category of specifications, with its labels.
#[derive(Debug, Clone)]
pub struct SpecCategory {
    pub name: String,
    pub label_map: BTreeMap<SpecLabelKey, SpecLabel>,
}

/// One choice within a selection: a label and the value chosen for it.
#[derive(Debug, Clone, Copy, PartialEq, Eq, Structural)]
pub struct SpecKeyLabel {
    pub label_key: SpecLabelKey,
    pub value_key: SpecValueKey,
}

/// A selection: a category and the choices made within it, in display order.
#[derive(Debug, Clone)]
pub struct SpecKey {
    pub category_key: SpecCategoryKey,
    pub label_vec: Vec<SpecKeyLabel>,
}

/// The specifications of an item.
#[derive(Debug, Clone)]
pub struct ItemSpecsV1 {
    /// The categories themselves.
    pub map: BTreeMap<SpecCategoryKey, SpecCategory>,
    /// The selections that combinations refer to.
    pub index_map: BTreeMap<SpecIndexKey, SpecKey>,
}

/// A resolved choice: the label's name and the chosen value.
#[derive(Debug, Clone, PartialEq, Eq)]
pub struct SpecResponseLabel {
    pub label_name: String,
    pub value: SpecValue,
}

/// A resolved selection: the category's name and its resolved choices.
#[derive(Debug, Clone, PartialEq, Eq)]
pub struct SpecResponseCategory {
    pub category_name: String,
    pub label_vec: Vec<SpecResponseLabel>,
}

/// The resolved selections of one combination, in the order asked for.
pub type SpecResponse = Vec<SpecResponseCategory>;

/// What a resolved choice holds.
pub struct SpecLabelModel {
    pub label_name: String,
    pub value: Seq<String>,
}

/// What a resolved selection holds.
pub struct SpecCategoryModel {
    pub category_name: String,
    pub label_vec: Seq<SpecLabelModel>,
}

impl View for SpecResponseLabel {
    type V = SpecLabelModel;

    open spec fn view(&self) -> SpecLabelModel {
        SpecLabelModel { label_name: self.label_name, value: self.value@ }
    }
}

impl View for SpecResponseCategory {
    type V = SpecCategoryModel;

    open spec fn view(&self) -> SpecCategoryModel {
        SpecCategoryModel {
            category_name: self.category_name,
            label_vec: self.label_vec@.map_values(|label: SpecResponseLabel| label@),
        }
    }
}

/// What a list of resolved selections holds.
pub open spec fn spec_response_view(response: Seq<SpecResponseCategory>) -> Seq<SpecCategoryModel> {
    response.map_values(|category: SpecResponseCategory| category@)
}

/// What an optional list of resolved selections holds.
pub open spec fn spec_response_option_view(response: Option<SpecResponse>) -> Option<
    Seq<SpecCategoryModel>,
> {
    match response {
        Some(found) => Some(spec_response_view(found@)),
        None => None,
    }
}

/// A copy of a list of strings.
pub fn clone_value(value: &SpecValue) -> (copy: SpecValue)
    ensures
        copy@ == value@,
{
    let copy = value.clone();
    assert(copy@ =~= value@);
    copy
}

impl SpecKeyLabel {
    pub fn new(label_key: SpecLabelKey, value_key: SpecValueKey) -> (choice: Self)
        ensures
            choice == (SpecKeyLabel { label_key, value_key }),
    {
        Self { label_key, value_key }
    }
}

impl SpecLabel {
    pub fn builder(name: &str) -> (builder: SpecLabelBuilder)
        ensures
            builder.name@ == name@,
            builder.value_map@ == Map::<SpecValueKey, SpecValue>::empty(),
    {
        SpecLabelBuilder::new(name)
    }

    /// The value filed under `key`, if there is one.
    pub fn get_value(&self, key: &SpecValueKey) -> (value: Option<&SpecValue>)
        ensures
            value.is_some() == self.value_map@.contains_key(*key),
            value matches Some(found) ==> *found == self.value_map@[*key],
    {
        self.value_map.get(key)
    }
}

/// Collects the values of a label.
pub struct SpecLabelBuilder {
    pub name: String,
    pub value_map: BTreeMap<SpecValueKey, SpecValue>,
}

impl SpecLabelBuilder {
    pub fn new(name: &str) -> (builder: Self)
        ensures
            builder.name@ == name@,
            builder.value_map@ == Map::<SpecValueKey, SpecValue>::empty(),
    {
        Self { name: name.to_string(), value_map: BTreeMap::new() }
    }

    /// Files the lines of `value` under `key`, in place of any value that
    /// was there.
    pub fn value(self, key: SpecValueKey, value: Vec<&str>) -> (builder: Self)
        ensures
            builder.name == self.name,
            builder.value_map@.dom() == self.value_map@.dom().insert(key),
            forall|k: SpecValueKey|
                k != key && self.value_map@.contains_key(k) ==> #[trigger] builder.value_map@[k]
                    == self.value_map@[k],
            builder.value_map@[key]@.len() == value@.len(),
            forall|i: int|
                0 <= i < value@.len() ==> (#[trigger] builder.value_map@[key]@[i])@ == value@[i]@,
    {
        let mut lines: Vec<String> = Vec::new();
        let mut i: usize = 0;
        while i < value.len()
            invariant
                0 <= i <= value.len(),
                lines@.len() == i,
                forall|k: int| 0 <= k < i ==> (#[trigger] lines@[k])@ == value@[k]@,
            decreases value.len() - i,
        {
            lines.push(value[i].to_string());
            i += 1;
        }
        let mut value_map = self.value_map;
        value_map.insert(key, lines);
        Self { name: self.name, value_map }
    }

    pub fn build(self) -> (label: SpecLabel)
        ensures
            label.name == self.name,
            label.value_map == self.value_map,
    {
        SpecLabel { name: self.name, value_map: self.value_map }
    }
}

impl SpecCategory {
    /// The resolved form of one choice; none where the label or the value is
    /// missing.
    pub open spec fn spec_label(&self, choice: SpecKeyLabel) -> Option<SpecLabelModel> {
        if self.label_map@.contains_key(choice.label_key)
            && self.label_map@[choice.label_key].value_map@.contains_key(choice.value_key) {
            Some(
                SpecLabelModel {
                    label_name: self.label_map@[choice.label_key].name,
                    value: self.label_map@[choice.label_key].value_map@[choice.value_key]@,
                },
            )
        } else {
            None
        }
    }

    /// The resolved forms of the choices, in their order; none where any one
    /// of them does not resolve.
    pub open spec fn spec_labels(&self, choices: Seq<SpecKeyLabel>) -> Option<Seq<SpecLabelModel>> {
        if forall|i: int| 0 <= i < choices.len() ==> (#[trigger] self.spec_label(choices[i])) is Some {
            Some(Seq::new(choices.len(), |i: int| self.spec_label(choices[i])->0))
        } else {
            None
        }
    }

    pub fn builder(name: &str) -> (builder: SpecCategoryBuilder)
        ensures
            builder.name@ == name@,
            builder.label_map@ == Map::<SpecLabelKey, SpecLabel>::empty(),
    {
        SpecCategoryBuilder::new(name)
    }

    /// The label filed under `key`, if there is one.
    pub fn get_label(&self, key: SpecLabelKey) -> (label: Option<&SpecLabel>)
        ensures
            label.is_some() == self.label_map@.contains_key(key),
            label matches Some(found) ==> *found == self.label_map@[key],
    {
        self.label_map.get(&key)
    }

    /// Resolves the choices of a selection within this category.
    pub fn resolve_labels(&self, choices: &Vec<SpecKeyLabel>) -> (labels: Option<
        Vec<SpecResponseLabel>,
    >)
        ensures
            labels.is_some() == self.spec_labels(choices@).is_some(),
            labels matches Some(found) ==> Some(
                found@.map_values(|label: SpecResponseLabel| label@),
            ) == self.spec_labels(choices@),
    {
        let mut labels: Vec<SpecResponseLabel> = Vec::new();
        let mut i: usize = 0;
        while i < choices.len()
            invariant
                0 <= i <= choices.len(),
                labels@.len() == i,
                forall|k: int| 0 <= k < i ==> (#[trigger] self.spec_label(choices@[k])) is Some,
                forall|k: int|
                    0 <= k < i ==> (#[trigger] labels@[k])@ == self.spec_label(choices@[k])->0,
            decreases choices.len() - i,
        {
            let choice = choices[i];
            let label = match self.get_label(choice.label_key) {
                None => {
                    assert(self.spec_label(choices@[i as int]) is None);
                    return None;
                },
                Some(label) => label,
            };
            let value = match label.get_value(&choice.value_key) {
                None => {
                    assert(self.spec_label(choices@[i as int]) is None);
                    return None;
                },
                Some(value) => value,
            };
            labels.push(
                SpecResponseLabel { label_name: label.name.clone(), value: clone_value(value) },
            );
            i += 1;
        }
        assert(labels@.map_values(|label: SpecResponseLabel| label@) =~= Seq::new(
            choices@.len(),
            |k: int| self.spec_label(choices@[k])->0,
        ));
        Some(labels)
    }
}

/// Collects the labels of a category.
pub struct SpecCategoryBuilder {
    pub name: String,
    pub label_map: BTreeMap<SpecLabelKey, SpecLabel>,
}

impl SpecCategoryBuilder {
    pub fn new(name: &str) -> (builder: Self)
        ensures
            builder.name@ == name@,
            builder.label_map@ == Map::<SpecLabelKey, SpecLabel>::empty(),
    {
        Self { name: name.to_string(), label_map: BTreeMap::new() }
    }

    /// Files `label` under `key`, in place of any label that was there.
    pub fn label(self, key: SpecLabelKey, label: SpecLabel) -> (builder: Self)
        ensures
            builder.name == self.name,
            builder.label_map@ == self.label_map@.insert(key, label),
    {
        let mut label_map = self.label_map;
        label_map.insert(key, label);
        Self { name: self.name, label_map }
    }

    pub fn build(self) -> (category: SpecCategory)
        ensures
            category.name == self.name,
            category.label_map == self.label_map,
    {
        SpecCategory { name: self.name, label_map: self.label_map }
    }
}

impl SpecKey {
    pub fn builder(category_key: SpecCategoryKey) -> (builder: SpecKeyBuilder)
        ensures
            builder.category_key == category_key,
            builder.label_vec@ == Seq::<SpecKeyLabel>::empty(),
    {
        SpecKeyBuilder::new(category_key)
    }
}

/// Collects the choices of a selection.
pub struct SpecKeyBuilder {
    pub category_key: SpecCategoryKey,
    pub label_vec: Vec<SpecKeyLabel>,
}

impl SpecKeyBuilder {
    pub fn new(category_key: SpecCategoryKey) -> (builder: Self)
        ensures
            builder.category_key == category_key,
            builder.label_vec@ == Seq::<SpecKeyLabel>::empty(),
    {
        Self { category_key, label_vec: Vec::new() }
    }

    /// Adds the choice of `value_key` for `label_key` after those made so far.
    pub fn label(self, label_key: SpecLabelKey, value_key: SpecValueKey) -> (builder: Self)
        ensures
            builder.category_key == self.category_key,
            builder.label_vec@ == self.label_vec@.push(SpecKeyLabel { label_key, value_key }),
    {
        let mut label_vec = self.label_vec;
        label_vec.push(SpecKeyLabel::new(label_key, value_key));
        Self { category_key: self.category_key, label_vec }
    }

    pub fn build(self) -> (selection: SpecKey)
        ensures
            selection.category_key == self.category_key,
            selection.label_vec == self.label_vec,
    {
        SpecKey { category_key: self.category_key, label_vec: self.label_vec }
    }
}

impl ItemSpecsV1 {
    /// The resolved form of the selection filed under `key`; none where the
    /// selection, its category, or any label or value it chooses is missing.
    pub open spec fn spec_category(&self, key: SpecIndexKey) -> Option<SpecCategoryModel> {
        if self.index_map@.contains_key(key) && self.map@.contains_key(
            self.index_map@[key].category_key,
        ) {
            let selection = self.index_map@[key];
            let category = self.map@[selection.category_key];
            match category.spec_labels(selection.label_vec@) {
                Some(labels) => Some(
                    SpecCategoryModel { category_name: category.name, label_vec: labels },
                ),
                None => None,
            }
        } else {
            None
        }
    }

    /// The resolved forms of the selections filed under `keys`, in the order
    /// of `keys`; none where any one of them does not resolve.
    pub open spec fn spec_specs(&self, keys: Seq<SpecIndexKey>) -> Option<Seq<SpecCategoryModel>> {
        if forall|i: int| 0 <= i < keys.len() ==> (#[trigger] self.spec_category(keys[i])) is Some {
            Some(Seq::new(keys.len(), |i: int| self.spec_category(keys[i])->0))
        } else {
            None
        }
    }

    pub fn builder() -> (builder: ItemSpecsV1Builder)
        ensures
            builder.map@ == Map::<SpecCategoryKey, SpecCategory>::empty(),
            builder.index_map@ == Map::<SpecIndexKey, SpecKey>::empty(),
    {
        ItemSpecsV1Builder { map: BTreeMap::new(), index_map: BTreeMap::new() }
    }

    /// Resolves one selection.
    pub fn get_spec_category(&self, key: &SpecIndexKey) -> (resolved: Option<SpecResponseCategory>)
        ensures
            resolved.is_some() == self.spec_category(*key).is_some(),
            resolved matches Some(found) ==> Some(found@) == self.spec_category(*key),
    {
        let selection = match self.get_spec_key(key) {
            None => {
                return None;
            },
            Some(selection) => selection,
        };
        let category = match self.get_category(selection.category_key) {
            None => {
                return None;
            },
            Some(category) => category,
        };
        match category.resolve_labels(&selection.label_vec) {
            None => None,
            Some(label_vec) => Some(
                SpecResponseCategory { category_name: category.name.clone(), label_vec },
            ),
        }
    }

    /// Resolves the selections filed under `keys`, all of them or none.
    pub fn get_specs(&self, keys: &Vec<SpecIndexKey>) -> (response: Option<SpecResponse>)
        ensures
            spec_response_option_view(response) == self.spec_specs(keys@),
    {
        let mut result: Vec<SpecResponseCategory> = Vec::new();
        let mut i: usize = 0;
        while i < keys.len()
            invariant
                0 <= i <= keys.len(),
                result@.len() == i,
                forall|k: int| 0 <= k < i ==> (#[trigger] self.spec_category(keys@[k])) is Some,
                forall|k: int|
                    0 <= k < i ==> (#[trigger] result@[k])@ == self.spec_category(keys@[k])->0,
            decreases keys.len() - i,
        {
            match self.get_spec_category(&keys[i]) {
                None => {
                    assert(self.spec_category(keys@[i as int]) is None);
                    return None;
                },
                Some(category) => {
                    result.push(category);
                },
            }
            i += 1;
        }
        assert(spec_response_view(result@) =~= Seq::new(
            keys@.len(),
            |k: int| self.spec_category(keys@[k])->0,
        ));
        Some(result)
    }

    fn get_spec_key(&self, key: &SpecIndexKey) -> (selection: Option<&SpecKey>)
        ensures
            selection.is_some() == self.index_map@.contains_key(*key),
            selection matches Some(found) ==> *found == self.index_map@[*key],
    {
        self.index_map.get(key)
    }

    fn get_category(&self, key: SpecCategoryKey) -> (category: Option<&SpecCategory>)
        ensures
            category.is_some() == self.map@.contains_key(key),
            category matches Some(found) ==> *found == self.map@[key],
    {
        self.map.get(&key)
    }
}

/// Collects the categories and selections of a specification table.
pub struct ItemSpecsV1Builder {
    pub map: BTreeMap<SpecCategoryKey, SpecCategory>,
    pub index_map: BTreeMap<SpecIndexKey, SpecKey>,
}

impl ItemSpecsV1Builder {
    /// Files the category `upper` under `key`, in place of any category that
    /// was there.
    pub fn spec(self, key: SpecCategoryKey, upper: SpecCategory) -> (builder: Self)
        ensures
            builder.map@ == self.map@.insert(key, upper),
            builder.index_map@ == self.index_map@,
    {
        let mut map = self.map;
        map.insert(key, upper);
        Self { map, index_map: self.index_map }
    }

    /// Files the selection `index` under `key`, in place of any selection
    /// that was there.
    pub fn index(self, key: SpecIndexKey, index: SpecKey) -> (builder: Self)
        ensures
            builder.map@ == self.map@,
            builder.index_map@ == self.index_map@.insert(key, index),
    {
        let mut index_map = self.index_map;
        index_map.insert(key, index);
        Self { map: self.map, index_map }
    }

    pub fn build(self) -> (specs: ItemSpecsV1)
        ensures
            specs.map == self.map,
            specs.index_map == self.index_map,
    {
        ItemSpecsV1 { map: self.map, index_map: self.index_map }
    }
}

/// A list of selections with one that does not resolve resolves to nothing.
pub proof fn lemma_specs_all_or_nothing(specs: ItemSpecsV1, keys: Seq<SpecIndexKey>, at: int)
    requires
        0 <= at < keys.len(),
        specs.spec_category(keys[at]) is None,
    ensures
        specs.spec_specs(keys) is None,
{
}

/// A selection resolves to nothing where it is not filed, where its category
/// is missing, or where one of its choices names a missing label or value.
pub proof fn lemma_broken_link_fails_selection(specs: ItemSpecsV1, key: SpecIndexKey, at: int)
    requires
        !specs.index_map@.contains_key(key) || !specs.map@.contains_key(
            specs.index_map@[key].category_key,
        ) || (0 <= at < specs.index_map@[key].label_vec@.len() && specs.map@[specs.index_map@[key].category_key].spec_label(
            specs.index_map@[key].label_vec@[at],
        ) is None),
    ensures
        specs.spec_category(key) is None,
{
}

} // verus!
