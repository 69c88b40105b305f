//! Attribute-combination keys: four positional slots, one per dimension.
use vstd::prelude::*;

verus! {

/// The number of a value within one dimension.
pub type AttrKey = u8;

/// The number of codes: every key is filed under a number below it.
pub const CODE_LIMIT: u64 = 4362470401;

/// The reason a key could not be changed.
#[derive(Clone, Copy, Debug, PartialEq, Eq, Structural)]
pub enum AttrKeysError {
    /// The dimension named does not exist.
    IndexOutOfRange,
}

/// A combination key: for each of the four dimensions either a chosen value
/// index or nothing. Keys are ordered slot by slot, an unset slot first.
#[derive(Clone, Copy, Debug, PartialEq, Eq, PartialOrd, Ord, Hash)]
pub struct AttrKeys(pub [Option<AttrKey>; 4]);

/// The number that stands for one slot: 0 when unset, the value index plus
/// one otherwise.
pub open spec fn slot_code(slot: Option<AttrKey>) -> int {
    match slot {
        None => 0,
        Some(v) => v + 1,
    }
}

fn slot_code_exec(slot: Option<AttrKey>) -> (code: u64)
    ensures
        code == slot_code(slot),
        code <= 256,
{
    match slot {
        None => 0u64,
        Some(v) => {
            let wide: u64 = v.into();
            wide + 1
        },
    }
}

fn slot_of_code(code: u64) -> (slot: Option<AttrKey>)
    requires
        code <= 256,
    ensures
        slot_code(slot) == code,
{
    if code == 0 {
        None
    } else {
        Some((code - 1) as u8)
    }
}

impl AttrKeys {
    /// The slots, in dimension order.
    pub open spec fn slots(self) -> Seq<Option<AttrKey>> {
        self.0@
    }

    /// The key with every slot unset.
    pub open spec fn spec_default() -> Seq<Option<AttrKey>> {
        seq![None, None, None, None]
    }

    /// The slots after dimension `index` is set to `value`.
    pub open spec fn spec_replace(self, index: int, value: AttrKey) -> Seq<Option<AttrKey>> {
        self.slots().update(index, Some(value))
    }

    /// The number under which the key is filed: the slots read as four digits
    /// in base 257. The order of the codes is the order of the keys.
    pub open spec fn spec_code(self) -> u64 {
        code_of(self.slots())
    }

    pub fn new(slots: [Option<AttrKey>; 4]) -> (keys: AttrKeys)
        ensures
            keys.slots() == slots@,
    {
        AttrKeys(slots)
    }

    /// The key with every slot unset.
    pub fn default() -> (keys: AttrKeys)
        ensures
            keys.slots() == AttrKeys::spec_default(),
    {
        let keys = AttrKeys([None, None, None, None]);
        assert(keys.slots() =~= AttrKeys::spec_default());
        keys
    }

    /// The slot of dimension `index`, unset where there is no such dimension.
    pub fn get(&self, index: usize) -> (slot: Option<AttrKey>)
        ensures
            slot == (if index < 4 { self.slots()[index as int] } else { None }),
    {
        if index < 4 {
            self.0[index]
        } else {
            None
        }
    }

    /// A copy of the key with dimension `index` set to `value`; an error
    /// exactly when there is no such dimension.
    pub fn replace(&self, index: usize, value: &AttrKey) -> (res: Result<AttrKeys, AttrKeysError>)
        ensures
            index < 4 ==> res is Ok && res->Ok_0.slots() == self.spec_replace(index as int, *value),
            index >= 4 ==> res == Err::<AttrKeys, AttrKeysError>(AttrKeysError::IndexOutOfRange),
    {
        if index >= 4 {
            return Err(AttrKeysError::IndexOutOfRange);
        }
        let mut slots = self.0;
        slots[index] = Some(*value);
        Ok(AttrKeys(slots))
    }

    /// The number under which the key is filed.
    pub fn code(&self) -> (code: u64)
        ensures
            code == self.spec_code(),
            code < CODE_LIMIT,
    {
        let c0 = slot_code_exec(self.0[0]);
        let c1 = slot_code_exec(self.0[1]);
        let c2 = slot_code_exec(self.0[2]);
        let c3 = slot_code_exec(self.0[3]);
        ((c0 * 257 + c1) * 257 + c2) * 257 + c3
    }
}

impl AttrKeys {
    /// The key that is filed under `code`; none where no key is.
    pub fn from_code(code: u64) -> (keys: Option<AttrKeys>)
        ensures
            code < CODE_LIMIT ==> keys is Some && keys->0.spec_code() == code,
            code >= CODE_LIMIT ==> keys is None,
    {
        if code >= CODE_LIMIT {
            return None;
        }
        let c3 = code % 257;
        let upper = code / 257;
        let c2 = upper % 257;
        let top = upper / 257;
        let c1 = top % 257;
        let c0 = top / 257;
        Some(AttrKeys([slot_of_code(c0), slot_of_code(c1), slot_of_code(c2), slot_of_code(c3)]))
    }
}

/// The code of four slots.
pub open spec fn code_of(slots: Seq<Option<AttrKey>>) -> u64 {
    (((slot_code(slots[0]) * 257 + slot_code(slots[1])) * 257 + slot_code(slots[2])) * 257
        + slot_code(slots[3])) as u64
}

/// Two keys are filed under the same number only if they are the same key.
pub proof fn lemma_code_injective(a: Seq<Option<AttrKey>>, b: Seq<Option<AttrKey>>)
    requires
        a.len() == 4,
        b.len() == 4,
    ensures
        code_of(a) == code_of(b) <==> a == b,
{
    if code_of(a) == code_of(b) {
        assert(slot_code(a[3]) == slot_code(b[3]));
        assert(slot_code(a[2]) == slot_code(b[2]));
        assert(slot_code(a[1]) == slot_code(b[1]));
        assert(slot_code(a[0]) == slot_code(b[0]));
        assert(a =~= b);
    }
}

/// The key read back from the code of a key is that key.
pub proof fn lemma_code_round_trip(keys: AttrKeys, back: AttrKeys)
    requires
        back.spec_code() == keys.spec_code(),
    ensures
        back.slots() == keys.slots(),
{
    lemma_code_injective(back.slots(), keys.slots());
}

/// Whether key `a` comes before key `b`: at the first slot in which they
/// differ, `a` is unset or holds the smaller value index.
pub open spec fn keys_before(a: Seq<Option<AttrKey>>, b: Seq<Option<AttrKey>>) -> bool {
    exists|i: int|
        0 <= i < 4 && slot_code(a[i]) < slot_code(b[i]) && forall|j: int|
            0 <= j < i ==> a[j] == b[j]
}

/// The codes order the keys as the keys are ordered slot by slot.
pub proof fn lemma_code_monotone(a: Seq<Option<AttrKey>>, b: Seq<Option<AttrKey>>)
    requires
        a.len() == 4,
        b.len() == 4,
    ensures
        code_of(a) < code_of(b) <==> keys_before(a, b),
{
    if keys_before(a, b) {
        let i = choose|i: int|
            0 <= i < 4 && slot_code(a[i]) < slot_code(b[i]) && forall|j: int|
                0 <= j < i ==> a[j] == b[j];
        assert(code_of(a) < code_of(b));
    }
    if code_of(a) < code_of(b) {
        if a[0] != b[0] {
            assert(slot_code(a[0]) < slot_code(b[0]));
        } else if a[1] != b[1] {
            assert(slot_code(a[1]) < slot_code(b[1]));
        } else if a[2] != b[2] {
            assert(slot_code(a[2]) < slot_code(b[2]));
        } else {
            assert(slot_code(a[3]) < slot_code(b[3]));
        }
    }
}

} // verus!
