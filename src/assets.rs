//! The asset identifier namespace: which authority may issue an id, and
//! whether a new id may be registered.
use vstd::prelude::*;

use crate::AssetId;

verus! {

/// Smallest id that users may register without permission.
pub const USER_ASSET_ID_MIN: u128 = 1;

/// Largest id that users may register without permission: 2^32 - 1.
pub const USER_ASSET_ID_MAX: u128 = 0xFFFF_FFFF;

/// Smallest id of the range of the sibling-chain bridge: 2^32.
pub const SIBLING_ASSET_ID_MIN: u128 = 0x1_0000_0000;

/// Largest id of the range of the sibling-chain bridge: 2^64 - 1.
pub const SIBLING_ASSET_ID_MAX: u128 = 0xFFFF_FFFF_FFFF_FFFF;

/// Smallest id of the ecosystem range: 2^64.
pub const ECOSYSTEM_ASSET_ID_MIN: u128 = 0x1_0000_0000_0000_0000;

/// Largest id of the ecosystem range: 2^128 - 2.
pub const ECOSYSTEM_ASSET_ID_MAX: u128 = 0xFFFF_FFFF_FFFF_FFFF_FFFF_FFFF_FFFF_FFFE;

/// The one id of the relay chain's native token: 2^128 - 1.
pub const RELAY_TOKEN_ASSET_ID: u128 = 0xFFFF_FFFF_FFFF_FFFF_FFFF_FFFF_FFFF_FFFF;

/// The authority that an asset id belongs to.
#[derive(Clone, Copy, Debug, PartialEq, Eq, Structural)]
pub enum AssetClass {
    /// Id `0`: reserved, never assignable.
    Invalid,
    /// Ids `[1, 2^32 - 1]`: permissionless user registration.
    UserAsset,
    /// Ids `[2^32, 2^64 - 1]`: the sibling-chain bridge.
    SiblingAsset,
    /// Ids `[2^64, 2^128 - 2]`: the wider multi-chain ecosystem.
    EcosystemAsset,
    /// Id `2^128 - 1`: the relay chain's native token.
    RelayToken,
}

/// Why a new asset id cannot be registered.
#[derive(Clone, Copy, Debug, PartialEq, Eq, Structural)]
pub enum AssetIdError {
    /// The id lies outside the range of the requesting authority.
    OutOfRange,
    /// The id is already in the registry.
    AlreadyAllocated,
}

/// The class of an id, by the range that it lies in.
pub open spec fn class_of(id: AssetId) -> AssetClass {
    if id == 0 {
        AssetClass::Invalid
    } else if id <= USER_ASSET_ID_MAX {
        AssetClass::UserAsset
    } else if id <= SIBLING_ASSET_ID_MAX {
        AssetClass::SiblingAsset
    } else if id <= ECOSYSTEM_ASSET_ID_MAX {
        AssetClass::EcosystemAsset
    } else {
        AssetClass::RelayToken
    }
}

/// What registering `id` for `authority` gives, where `allocated` holds the
/// ids already registered.
pub open spec fn validation_outcome(
    id: AssetId,
    authority: AssetClass,
    allocated: Set<AssetId>,
) -> Result<(), AssetIdError> {
    if class_of(id) is Invalid || class_of(id) != authority {
        Err(AssetIdError::OutOfRange)
    } else if allocated.contains(id) {
        Err(AssetIdError::AlreadyAllocated)
    } else {
        Ok(())
    }
}

/// The authority that `id` belongs to.
pub fn classify(id: AssetId) -> (r: AssetClass)
    ensures
        r == class_of(id),
{
    if id == 0 {
        AssetClass::Invalid
    } else if id <= USER_ASSET_ID_MAX {
        AssetClass::UserAsset
    } else if id <= SIBLING_ASSET_ID_MAX {
        AssetClass::SiblingAsset
    } else if id <= ECOSYSTEM_ASSET_ID_MAX {
        AssetClass::EcosystemAsset
    } else {
        AssetClass::RelayToken
    }
}

/// The ranges of the namespace, one authority each: the id `0` and the id
/// `2^128 - 1` stand alone, users hold `[1, 2^32 - 1]`, the sibling bridge
/// `[2^32, 2^64 - 1]` and the ecosystem `[2^64, 2^128 - 2]`.
pub proof fn lemma_asset_ranges(id: AssetId)
    ensures
        USER_ASSET_ID_MIN <= id <= USER_ASSET_ID_MAX ==> class_of(id) == AssetClass::UserAsset,
        SIBLING_ASSET_ID_MIN <= id <= SIBLING_ASSET_ID_MAX ==> class_of(id)
            == AssetClass::SiblingAsset,
        ECOSYSTEM_ASSET_ID_MIN <= id <= ECOSYSTEM_ASSET_ID_MAX ==> class_of(id)
            == AssetClass::EcosystemAsset,
        id == RELAY_TOKEN_ASSET_ID ==> class_of(id) == AssetClass::RelayToken,
        id == 0 ==> class_of(id) == AssetClass::Invalid,
{
}

/// The ids already registered, as the asset registry keeps them. Each id is
/// held once.
pub struct AssetRegistry {
    ids: Vec<AssetId>,
}

impl View for AssetRegistry {
    type V = Set<AssetId>;

    closed spec fn view(&self) -> Set<AssetId> {
        Set::new(|id: AssetId| self.ids@.contains(id))
    }
}

impl AssetRegistry {
    /// Each id stands once in the list.
    pub closed spec fn well_formed(&self) -> bool {
        self.ids@.no_duplicates()
    }

    /// A registry that holds no id.
    pub fn new() -> (r: Self)
        ensures
            r.well_formed(),
            r@ == Set::<AssetId>::empty(),
    {
        let r = AssetRegistry { ids: Vec::new() };
        assert(r@ =~= Set::<AssetId>::empty());
        r
    }

    /// Whether `id` is registered.
    pub fn contains(&self, id: AssetId) -> (r: bool)
        ensures
            r == self@.contains(id),
    {
        let mut i: usize = 0;
        while i < self.ids.len()
            invariant
                0 <= i <= self.ids@.len(),
                forall|j: int| 0 <= j < i ==> self.ids@[j] != id,
            decreases self.ids@.len() - i,
        {
            if self.ids[i] == id {
                return true;
            }
            i += 1;
        }
        false
    }

    /// The number of ids registered.
    pub fn len(&self) -> (r: usize)
        requires
            self.well_formed(),
        ensures
            r == self@.len(),
    {
        proof {
            self.ids@.unique_seq_to_set();
            assert(self@ =~= self.ids@.to_set());
        }
        self.ids.len()
    }

    /// Records `id` as registered; an id already there stays once.
    pub fn insert(&mut self, id: AssetId)
        requires
            old(self).well_formed(),
        ensures
            final(self).well_formed(),
            final(self)@ == old(self)@.insert(id),
    {
        if !self.contains(id) {
            let ghost before = self.ids@;
            self.ids.push(id);
            proof {
                assert forall|x: AssetId| self.ids@.contains(x) <==> (before.contains(x) || x == id) by {
                    if self.ids@.contains(x) {
                        let j = choose|j: int| 0 <= j < self.ids@.len() && self.ids@[j] == x;
                        if j < before.len() {
                            assert(before[j] == x);
                        }
                    }
                    if before.contains(x) {
                        let j = choose|j: int| 0 <= j < before.len() && before[j] == x;
                        assert(self.ids@[j] == x);
                    }
                    assert(self.ids@[before.len() as int] == id);
                }
            }
        }
        assert(self@ =~= old(self)@.insert(id));
    }
}

/// Checks a request of `authority` to register `id`: `OutOfRange` where the
/// id is not in the authority's range (the id `0` is in none), else
/// `AlreadyAllocated` where `registry` holds it, else `Ok`. The registry is
/// only read: the caller records the id.
pub fn validate_new(id: AssetId, authority: AssetClass, registry: &AssetRegistry) -> (r: Result<
    (),
    AssetIdError,
>)
    ensures
        r == validation_outcome(id, authority, registry@),
{
    let class = classify(id);
    if class == AssetClass::Invalid || class != authority {
        Err(AssetIdError::OutOfRange)
    } else if registry.contains(id) {
        Err(AssetIdError::AlreadyAllocated)
    } else {
        Ok(())
    }
}

/// Registering an id twice for one authority: where the first request is
/// accepted and the id is recorded, the second is refused with
/// `AlreadyAllocated`.
pub proof fn lemma_second_registration_refused(
    id: AssetId,
    authority: AssetClass,
    allocated: Set<AssetId>,
)
    requires
        validation_outcome(id, authority, allocated) is Ok,
    ensures
        validation_outcome(id, authority, allocated.insert(id)) == Err::<(), AssetIdError>(
            AssetIdError::AlreadyAllocated,
        ),
{
}

} // verus!
