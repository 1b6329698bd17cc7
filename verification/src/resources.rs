//! Models of the ledger runtime's resource primitives: fungible and
//! non-fungible resource managers, buckets, and vaults.
//!
//! Each resource kind is identified by a `u64` address that the runtime
//! allocates. A manager tracks the total supply of its kind; a bucket stands
//! for freshly minted (or deposited) units of one kind. The runtime's
//! authorization rule — only the owning registry may mint — is enforced
//! structurally: the registry owns its managers and nothing else mutates them.

use vstd::prelude::*;

verus! {

/// The resource-kind address of the runtime's native settlement unit.
pub const XRD: u64 = 0;

/// Reasons an operation of the registry or of a resource manager aborts.
#[derive(Clone, Copy, PartialEq, Eq, Structural, Debug)]
pub enum MemberError {
    /// The caller lacks the required certificate proof.
    AuthorizationDenied,
    /// A non-fungible mint reused an already-minted identifier.
    DuplicateIdentity,
}

/// A quantity of units of one fungible resource kind.
#[derive(Clone, Copy, PartialEq, Eq, Structural, Debug)]
pub struct Bucket {
    /// The resource kind the units belong to.
    pub resource_kind: u64,
    /// How many units the bucket holds.
    pub amount: u64,
}

/// Ownership of exactly one freshly minted non-fungible unit, carrying the
/// unit's identifier and its immutable-at-mint data.
#[derive(Debug)]
pub struct NonFungibleBucket<D> {
    /// The resource kind the unit belongs to.
    pub resource_kind: u64,
    /// The unit's identifier, unique within its resource kind.
    pub id: u64,
    /// The data recorded for this unit at mint time.
    pub data: D,
}

/// Mints units of one fungible resource kind and tracks its total supply.
pub struct FungibleResourceManager {
    /// The resource kind this manager mints.
    pub resource_kind: u64,
    /// Every unit minted to date; there is no burn path, so the supply only grows.
    pub total_supply: u64,
}

impl FungibleResourceManager {
    /// Creates the manager of a new resource kind with no initial supply.
    pub fn create_with_no_initial_supply(resource_kind: u64) -> (m: FungibleResourceManager)
        ensures
            m.resource_kind == resource_kind,
            m.total_supply == 0,
    {
        FungibleResourceManager { resource_kind, total_supply: 0 }
    }

    /// Mints `amount` fresh units, growing the total supply by exactly that
    /// much. An amount of zero is accepted and yields a valid, empty bucket.
    pub fn mint(&mut self, amount: u64) -> (b: Bucket)
        requires
            old(self).total_supply + amount <= u64::MAX,
        ensures
            final(self).resource_kind == old(self).resource_kind,
            final(self).total_supply == old(self).total_supply + amount,
            b.resource_kind == old(self).resource_kind,
            b.amount == amount,
    {
        self.total_supply = self.total_supply + amount;
        Bucket { resource_kind: self.resource_kind, amount }
    }
}

/// Mints identified units of one non-fungible resource kind, refusing any
/// identifier that was minted before.
pub struct NonFungibleResourceManager {
    /// The resource kind this manager mints.
    pub resource_kind: u64,
    /// The identifiers minted to date, in mint order.
    pub minted_ids: Vec<u64>,
}

impl NonFungibleResourceManager {
    /// Creates the manager of a new non-fungible resource kind with nothing minted.
    pub fn create_with_no_initial_supply(resource_kind: u64) -> (m: NonFungibleResourceManager)
        ensures
            m.resource_kind == resource_kind,
            m.minted_ids@ == Seq::<u64>::empty(),
    {
        NonFungibleResourceManager { resource_kind, minted_ids: Vec::new() }
    }

    /// Whether `id` has been minted under this resource kind.
    pub fn is_minted(&self, id: u64) -> (b: bool)
        ensures
            b == self.minted_ids@.contains(id),
    {
        let mut i: usize = 0;
        while i < self.minted_ids.len()
            invariant
                0 <= i <= self.minted_ids@.len(),
                forall|k: int| 0 <= k < i ==> self.minted_ids@[k] != id,
            decreases self.minted_ids@.len() - i,
        {
            if self.minted_ids[i] == id {
                return true;
            }
            i = i + 1;
        }
        false
    }

    /// Mints the one unit identified by `id`, recording `(id, data)`, or
    /// fails with `DuplicateIdentity` — leaving the minted set unchanged —
    /// exactly when `id` was minted before.
    pub fn mint_non_fungible<D>(&mut self, id: u64, data: D) -> (r: Result<
        NonFungibleBucket<D>,
        MemberError,
    >)
        ensures
            old(self).minted_ids@.contains(id) ==> {
                &&& r == Err::<NonFungibleBucket<D>, MemberError>(MemberError::DuplicateIdentity)
                &&& final(self).resource_kind == old(self).resource_kind
                &&& final(self).minted_ids@ == old(self).minted_ids@
            },
            !old(self).minted_ids@.contains(id) ==> {
                &&& r is Ok
                &&& r->Ok_0.resource_kind == old(self).resource_kind
                &&& r->Ok_0.id == id
                &&& r->Ok_0.data == data
                &&& final(self).resource_kind == old(self).resource_kind
                &&& final(self).minted_ids@ == old(self).minted_ids@.push(id)
            },
    {
        if self.is_minted(id) {
            return Err(MemberError::DuplicateIdentity);
        }
        self.minted_ids.push(id);
        Ok(NonFungibleBucket { resource_kind: self.resource_kind, id, data })
    }
}

/// Holds units of one resource kind on behalf of its owner; deposits only.
pub struct Vault {
    /// The one resource kind this vault accepts.
    pub resource_kind: u64,
    /// The units held.
    pub amount: u64,
}

impl Vault {
    /// Creates an empty vault for `resource_kind`.
    pub fn new(resource_kind: u64) -> (v: Vault)
        ensures
            v.resource_kind == resource_kind,
            v.amount == 0,
    {
        Vault { resource_kind, amount: 0 }
    }

    /// Deposits a bucket of this vault's resource kind, growing the balance
    /// by the bucket's amount.
    pub fn put(&mut self, bucket: Bucket)
        requires
            bucket.resource_kind == old(self).resource_kind,
            old(self).amount + bucket.amount <= u64::MAX,
        ensures
            final(self).resource_kind == old(self).resource_kind,
            final(self).amount == old(self).amount + bucket.amount,
    {
        self.amount = self.amount + bucket.amount;
    }
}

} // verus!
