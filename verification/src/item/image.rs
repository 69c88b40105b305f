//! The image table of an item: single images, and named groups of them.
use std::collections::BTreeMap;
use vstd::prelude::*;

verus! {

/// The key of a single image.
pub type ImageKey = u8;

/// The key of a group of images.
pub type ImageVecKey = u32;

/// An image together with its caption.
#[derive(Debug, PartialEq, Eq)]
pub struct MediaDataWithCaption {
    pub url: String,
    pub caption: String,
}

impl Clone for MediaDataWithCaption {
    fn clone(&self) -> (copy: Self)
        ensures
            copy == *self,
    {
        MediaDataWithCaption { url: self.url.clone(), caption: self.caption.clone() }
    }
}

/// The images of an item. A group lists image keys in display order; its
/// first entry is the base image.
#[derive(Debug, Clone)]
pub struct ItemImagesV1 {
    /// The images themselves.
    pub map: BTreeMap<ImageKey, MediaDataWithCaption>,
    /// The groups: for each group key the image keys it lists.
    pub index_vec_map: BTreeMap<ImageVecKey, Vec<ImageKey>>,
}

impl ItemImagesV1 {
    /// Every group is non-empty and lists only images that exist.
    pub open spec fn wf(&self) -> bool {
        forall|g: ImageVecKey| #[trigger]
            self.index_vec_map@.contains_key(g) ==> {
                &&& self.index_vec_map@[g]@.len() > 0
                &&& forall|i: int|
                    0 <= i < self.index_vec_map@[g]@.len() ==> self.map@.contains_key(
                        #[trigger] self.index_vec_map@[g]@[i],
                    )
            }
    }

    /// Whether every image key of the list names an image of the table.
    pub open spec fn all_present(&self, group: Seq<ImageKey>) -> bool {
        forall|i: int| 0 <= i < group.len() ==> self.map@.contains_key(#[trigger] group[i])
    }

    /// The base image of group `key`: the image under the group's first key.
    /// There is none where the group is unknown or empty, or any of its
    /// images is missing.
    pub open spec fn spec_base_image(&self, key: ImageVecKey) -> Option<MediaDataWithCaption> {
        if self.index_vec_map@.contains_key(key) && self.index_vec_map@[key]@.len() > 0
            && self.all_present(self.index_vec_map@[key]@) {
            Some(self.map@[self.index_vec_map@[key]@[0]])
        } else {
            None
        }
    }

    /// The images of group `key` in the group's order. There is no list
    /// where the group is unknown or any of its images is missing.
    pub open spec fn spec_index_vec(&self, key: ImageVecKey) -> Option<Seq<MediaDataWithCaption>> {
        if self.index_vec_map@.contains_key(key) && self.all_present(self.index_vec_map@[key]@) {
            let group = self.index_vec_map@[key]@;
            Some(Seq::new(group.len(), |i: int| self.map@[group[i]]))
        } else {
            None
        }
    }

    pub fn builder() -> (builder: ItemImagesV1Builder)
        ensures
            builder.map@ == Map::<ImageKey, MediaDataWithCaption>::empty(),
            builder.index_vec_map@ == Map::<ImageVecKey, Vec<ImageKey>>::empty(),
    {
        ItemImagesV1Builder { map: BTreeMap::new(), index_vec_map: BTreeMap::new() }
    }

    /// The base image of a group, or nothing if any image of the group is
    /// missing.
    pub fn get_base_image(&self, key: &ImageVecKey) -> (image: Option<&MediaDataWithCaption>)
        ensures
            image.is_some() == self.spec_base_image(*key).is_some(),
            image matches Some(found) ==> Some(*found) == self.spec_base_image(*key),
    {
        let group = match self.index_vec_map.get(key) {
            None => {
                return None;
            },
            Some(group) => group,
        };
        if group.len() == 0 {
            return None;
        }
        let mut i: usize = 0;
        while i < group.len()
            invariant
                0 <= i <= group.len(),
                self.index_vec_map@.contains_key(*key),
                self.index_vec_map@[*key] == *group,
                forall|k: int| 0 <= k < i ==> self.map@.contains_key(#[trigger] group@[k]),
            decreases group.len() - i,
        {
            if !self.map.contains_key(&group[i]) {
                assert(!self.map@.contains_key(group@[i as int]));
                return None;
            }
            i += 1;
        }
        assert(self.map@.contains_key(group@[0]));
        self.map.get(&group[0])
    }

    /// All images of a group, or nothing if any of them is missing.
    pub fn get_index_vec(&self, key: &ImageVecKey) -> (images: Option<Vec<MediaDataWithCaption>>)
        ensures
            images.is_some() == self.spec_index_vec(*key).is_some(),
            images matches Some(found) ==> Some(found@) == self.spec_index_vec(*key),
    {
        let group = match self.index_vec_map.get(key) {
            None => {
                return None;
            },
            Some(group) => group,
        };
        let mut images: Vec<MediaDataWithCaption> = Vec::new();
        let mut i: usize = 0;
        while i < group.len()
            invariant
                0 <= i <= group.len(),
                self.index_vec_map@.contains_key(*key),
                self.index_vec_map@[*key] == *group,
                images@.len() == i,
                forall|k: int| 0 <= k < i ==> self.map@.contains_key(#[trigger] group@[k]),
                forall|k: int| 0 <= k < i ==> images@[k] == self.map@[group@[k]],
            decreases group.len() - i,
        {
            match self.map.get(&group[i]) {
                None => {
                    assert(!self.map@.contains_key(group@[i as int]));
                    return None;
                },
                Some(image) => {
                    images.push(image.clone());
                },
            }
            i += 1;
        }
        assert(images@ =~= Seq::new(group@.len(), |k: int| self.map@[group@[k]]));
        Some(images)
    }
}

/// Collects the images and groups of an image table.
pub struct ItemImagesV1Builder {
    pub map: BTreeMap<ImageKey, MediaDataWithCaption>,
    pub index_vec_map: BTreeMap<ImageVecKey, Vec<ImageKey>>,
}

impl ItemImagesV1Builder {
    /// Files `image` under `key`, in place of any image that was there.
    pub fn image(&mut self, key: ImageKey, image: MediaDataWithCaption) -> (this: &mut Self)
        ensures
            this.map@ == old(self).map@.insert(key, image),
            this.index_vec_map@ == old(self).index_vec_map@,
            *final(self) == *final(this),
    {
        self.map.insert(key, image);
        self
    }

    /// Files the group `image_vec` under `key`, in place of any group that
    /// was there.
    pub fn index_vec(&mut self, key: ImageVecKey, image_vec: Vec<ImageKey>) -> (this: &mut Self)
        ensures
            this.map@ == old(self).map@,
            this.index_vec_map@ == old(self).index_vec_map@.insert(key, image_vec),
            *final(self) == *final(this),
    {
        self.index_vec_map.insert(key, image_vec);
        self
    }

    pub fn build(&self) -> (images: ItemImagesV1)
        ensures
            images.map@ == self.map@,
            images.index_vec_map@ == self.index_vec_map@,
    {
        ItemImagesV1 { map: self.map.clone(), index_vec_map: self.index_vec_map.clone() }
    }
}

/// A group that lists a missing image has no image list and no base image.
pub proof fn lemma_broken_group_yields_nothing(images: ItemImagesV1, key: ImageVecKey, at: int)
    requires
        images.index_vec_map@.contains_key(key),
        0 <= at < images.index_vec_map@[key]@.len(),
        !images.map@.contains_key(images.index_vec_map@[key]@[at]),
    ensures
        images.spec_index_vec(key) is None,
        images.spec_base_image(key) is None,
{
}

/// A group has a base image exactly when it has an image list that is not
/// empty, and the base image is then the first of the list.
pub proof fn lemma_base_image_is_first_of_list(images: ItemImagesV1, key: ImageVecKey)
    ensures
        images.spec_base_image(key) is Some <==> images.spec_index_vec(key) is Some
            && images.spec_index_vec(key)->0.len() > 0,
        images.spec_base_image(key) is Some ==> images.spec_base_image(key) == Some(
            images.spec_index_vec(key)->0[0],
        ),
{
    if images.spec_base_image(key) is Some {
        let group = images.index_vec_map@[key]@;
        assert(images.map@.contains_key(group[0]));
    }
}

/// In a well-formed table every known group has its image list and its base
/// image, and the base image is the first of the list.
pub proof fn lemma_wf_group_resolves(images: ItemImagesV1, key: ImageVecKey)
    requires
        images.wf(),
        images.index_vec_map@.contains_key(key),
    ensures
        images.spec_index_vec(key) is Some,
        images.spec_base_image(key) == Some(images.spec_index_vec(key)->0[0]),
{
    let group = images.index_vec_map@[key]@;
    assert(images.map@.contains_key(group[0]));
}

} // verus!
