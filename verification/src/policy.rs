//! Lists of devices that a setting is to reach, or to spare.

use vstd::prelude::*;

verus! {

/// What a device is known by when a list is searched for it.
pub trait DeviceKey: Sized {
    /// The texts that identify the device. Two devices are the same to a list
    /// exactly if these are equal, character for character.
    spec fn key(&self) -> Seq<Seq<char>>;

    /// Whether `self` and `other` identify the same device.
    fn same_device(&self, other: &Self) -> (same: bool)
        ensures
            same == (self.key() == other.key()),
    ;
}

/// A device known by one name.
impl DeviceKey for String {
    open spec fn key(&self) -> Seq<Seq<char>> {
        seq![self@]
    }

    fn same_device(&self, other: &Self) -> (same: bool) {
        let same = *self == *other;
        proof {
            if self.key() == other.key() {
                assert(self.key()[0] == other.key()[0]);
            }
        }
        same
    }
}

/// A device known by the identifiers of its vendor and of the product.
impl DeviceKey for (String, String) {
    open spec fn key(&self) -> Seq<Seq<char>> {
        seq![self.0@, self.1@]
    }

    fn same_device(&self, other: &Self) -> (same: bool) {
        let same = self.0 == other.0 && self.1 == other.1;
        proof {
            if self.key() == other.key() {
                assert(self.key()[0] == other.key()[0]);
                assert(self.key()[1] == other.key()[1]);
            }
        }
        same
    }
}

/// How a list is read.
#[derive(Debug, Clone, Copy, PartialEq, Eq)]
pub enum WhiteBlackListType {
    /// Only the listed devices are reached.
    Whitelist,
    /// All devices but the listed ones are reached.
    Blacklist,
}

/// A set of devices, and whether it names those to reach or those to spare.
#[derive(Debug, Clone, PartialEq)]
pub struct WhiteBlackList<T> {
    pub items: Vec<T>,
    pub list_type: WhiteBlackListType,
}

/// The decision for a device: without a list the default; with a whitelist,
/// whether the device is listed; with a blacklist, whether it is not.
pub open spec fn decision(
    list: Option<(WhiteBlackListType, Set<Seq<Seq<char>>>)>,
    key: Seq<Seq<char>>,
    default: bool,
) -> bool {
    match list {
        None => default,
        Some((WhiteBlackListType::Whitelist, keys)) => keys.contains(key),
        Some((WhiteBlackListType::Blacklist, keys)) => !keys.contains(key),
    }
}

impl<T: DeviceKey> WhiteBlackList<T> {
    /// The devices on the list.
    pub open spec fn keys(&self) -> Set<Seq<Seq<char>>> {
        Set::new(|key: Seq<Seq<char>>| exists|i: int| 0 <= i < self.items@.len() && #[trigger] self.items@[i].key() == key)
    }

    /// A list, or none, as the decision reads it.
    pub open spec fn model(list: Option<Self>) -> Option<(WhiteBlackListType, Set<Seq<Seq<char>>>)> {
        match list {
            None => None,
            Some(list) => Some((list.list_type, list.keys())),
        }
    }

    /// Whether `item` is on the list.
    pub fn contains(&self, item: &T) -> (found: bool)
        ensures
            found == self.keys().contains(item.key()),
    {
        let mut i: usize = 0;
        while i < self.items.len()
            invariant
                i <= self.items@.len(),
                forall|j: int| 0 <= j < i ==> self.items@[j].key() != item.key(),
            decreases self.items@.len() - i,
        {
            if self.items[i].same_device(item) {
                return true;
            }
            i = i + 1;
        }
        false
    }

    /// Decides whether a setting reaches the device `item`: by `default` where
    /// there is no list, else by the list alone.
    pub fn should_enable_item(whiteblacklist: &Option<WhiteBlackList<T>>, item: &T, default: bool) -> (enable: bool)
        ensures
            enable == decision(Self::model(*whiteblacklist), item.key(), default),
    {
        match whiteblacklist {
            None => default,
            Some(list) => {
                let listed = list.contains(item);
                match list.list_type {
                    WhiteBlackListType::Whitelist => listed,
                    WhiteBlackListType::Blacklist => !listed,
                }
            },
        }
    }
}

/// The table of decisions: no list gives the default; a whitelist reaches a
/// listed device and spares an unlisted one; a blacklist spares a listed device
/// and reaches an unlisted one. The default plays no part where there is a list.
pub proof fn lemma_decision_table(keys: Set<Seq<Seq<char>>>, key: Seq<Seq<char>>, default: bool)
    ensures
        decision(None, key, default) == default,
        keys.contains(key) ==> decision(Some((WhiteBlackListType::Whitelist, keys)), key, default),
        !keys.contains(key) ==> !decision(Some((WhiteBlackListType::Whitelist, keys)), key, default),
        keys.contains(key) ==> !decision(Some((WhiteBlackListType::Blacklist, keys)), key, default),
        !keys.contains(key) ==> decision(Some((WhiteBlackListType::Blacklist, keys)), key, default),
{
}

} // verus!
