//! The escrow itself: its state, its construction checks, the exchange
//! operation and the replenishment operation, each with a full contract.

use vstd::prelude::*;

verus! {

/// Identifier of a fungible asset on the external ledger, held as plain bits.
/// Only identity (equality) of such values matters to the escrow.
#[derive(Clone, Copy, PartialEq, Eq, Structural, Debug)]
pub struct AssetId {
    pub hi: u128,
    pub lo: u128,
}

/// Address of the administrative owner attached at construction. The escrow
/// stores it as immutable metadata and never consults it.
#[derive(Clone, Copy, PartialEq, Eq, Structural, Debug)]
pub struct ComponentId {
    pub hi: u128,
    pub lo: u128,
}

/// A parcel of asset units in transit between custody locations.
///
/// Deliberately neither `Clone` nor `Copy`: a bucket is consumed when its
/// units are taken into custody, and is handed back intact when a call
/// rejects it.
#[derive(Debug)]
pub struct Bucket {
    pub asset_id: AssetId,
    pub amount: u128,
}

/// Why a call against the escrow was rejected.
#[derive(Clone, Copy, PartialEq, Eq, Structural, Debug)]
pub enum MigrationError {
    /// Construction was asked to migrate an asset into itself.
    ConfigurationError,
    /// The old asset's total issued supply was determinable and differed
    /// from the quantity of new-asset units deposited at construction.
    SupplyMismatchError,
    /// A bucket of the wrong asset was presented to a pool.
    AssetMismatchError,
    /// The new pool holds fewer units than the exchange requested.
    InsufficientReservesError,
}

/// The abstract state of an escrow: the two asset identities, the two pool
/// balances, and the owner metadata.
pub ghost struct EscrowView {
    pub old_asset: AssetId,
    pub new_asset: AssetId,
    pub old_balance: nat,
    pub new_balance: nat,
    pub owner: ComponentId,
}

/// Whether a claimed total issued supply permits seeding the escrow with
/// `deposited` new-asset units: an undeterminable supply permits anything,
/// a determinable one must be matched exactly.
pub open spec fn supply_matches(total_supply: Option<u128>, deposited: u128) -> bool {
    match total_supply {
        Some(s) => s == deposited,
        None => true,
    }
}

/// The escrow: custody of the retired old asset (only ever received) and of
/// the new asset being handed out in exchange.
pub struct TokenMigration {
    old_asset: AssetId,
    new_asset: AssetId,
    old_balance: u128,
    new_balance: u128,
    dapp_definition: ComponentId,
}

impl View for TokenMigration {
    type V = EscrowView;

    closed spec fn view(&self) -> EscrowView {
        EscrowView {
            old_asset: self.old_asset,
            new_asset: self.new_asset,
            old_balance: self.old_balance as nat,
            new_balance: self.new_balance as nat,
            owner: self.dapp_definition,
        }
    }
}

impl TokenMigration {
    /// The construction-time invariant, never revisited: the escrow migrates
    /// between two distinct assets.
    pub open spec fn wf(self) -> bool {
        self@.old_asset != self@.new_asset
    }

    /// Constructs the escrow without consulting the old asset's supply.
    ///
    /// Rejects only an attempt to migrate an asset into itself; on rejection
    /// the input bucket is handed back unconsumed. On success the old pool
    /// starts empty and the new pool holds exactly the deposited bucket.
    pub fn instantiate_without_supply_validation(
        old_address: AssetId,
        new_token: Bucket,
        dapp_definition: ComponentId,
    ) -> (r: Result<TokenMigration, (MigrationError, Bucket)>)
        ensures
            match r {
                Ok(m) => {
                    &&& old_address != new_token.asset_id
                    &&& m.wf()
                    &&& m@.old_asset == old_address
                    &&& m@.new_asset == new_token.asset_id
                    &&& m@.old_balance == 0
                    &&& m@.new_balance == new_token.amount
                    &&& m@.owner == dapp_definition
                },
                Err((e, b)) => {
                    &&& old_address == new_token.asset_id
                    &&& e == MigrationError::ConfigurationError
                    &&& b == new_token
                },
            },
    {
        if old_address == new_token.asset_id {
            return Err((MigrationError::ConfigurationError, new_token));
        }
        Ok(TokenMigration {
            old_asset: old_address,
            new_asset: new_token.asset_id,
            old_balance: 0,
            new_balance: new_token.amount,
            dapp_definition,
        })
    }

    /// Constructs the escrow: first the identity precondition — the two
    /// asset identities must differ — then the best-effort supply check,
    /// holding the deposited new-asset quantity against the old asset's
    /// total issued supply as the caller determined it from the ledger
    /// (`None` when undeterminable).
    ///
    /// Succeeds exactly when the two asset identities differ and the supply
    /// check passes; every rejection hands the input bucket back unconsumed.
    pub fn instantiate(
        old_address: AssetId,
        new_token: Bucket,
        old_total_supply: Option<u128>,
        dapp_definition: ComponentId,
    ) -> (r: Result<TokenMigration, (MigrationError, Bucket)>)
        ensures
            match r {
                Ok(m) => {
                    &&& supply_matches(old_total_supply, new_token.amount)
                    &&& old_address != new_token.asset_id
                    &&& m.wf()
                    &&& m@.old_asset == old_address
                    &&& m@.new_asset == new_token.asset_id
                    &&& m@.old_balance == 0
                    &&& m@.new_balance == new_token.amount
                    &&& m@.owner == dapp_definition
                },
                Err((e, b)) => {
                    &&& b == new_token
                    &&& (e == MigrationError::ConfigurationError || e
                        == MigrationError::SupplyMismatchError)
                    &&& (e == MigrationError::ConfigurationError <==> old_address
                        == new_token.asset_id)
                    &&& (e == MigrationError::SupplyMismatchError <==> old_address
                        != new_token.asset_id && !supply_matches(
                        old_total_supply,
                        new_token.amount,
                    ))
                },
            },
    {
        if old_address == new_token.asset_id {
            return Err((MigrationError::ConfigurationError, new_token));
        }
        if let Some(supply) = old_total_supply {
            if supply != new_token.amount {
                return Err((MigrationError::SupplyMismatchError, new_token));
            }
        }
        Self::instantiate_without_supply_validation(old_address, new_token, dapp_definition)
    }

    /// Exchanges a bucket of old-asset units, one for one, for new-asset
    /// units out of the reserve.
    ///
    /// On success the whole input bucket is permanently retained by the old
    /// pool and a bucket of equal quantity leaves the new pool. A bucket of
    /// the wrong asset, or a quantity the reserve cannot cover, is rejected
    /// with the input bucket handed back and both balances untouched.
    pub fn swap(&mut self, old_token: Bucket) -> (r: Result<
        Bucket,
        (MigrationError, Bucket),
    >)
        requires
            old(self).wf(),
            old_token.asset_id == old(self)@.old_asset && old_token.amount
                <= old(self)@.new_balance ==> old(self)@.old_balance + old_token.amount
                <= u128::MAX,
        ensures
            final(self).wf(),
            final(self)@.old_asset == old(self)@.old_asset,
            final(self)@.new_asset == old(self)@.new_asset,
            final(self)@.owner == old(self)@.owner,
            match r {
                Ok(b) => {
                    &&& old_token.asset_id == old(self)@.old_asset
                    &&& old_token.amount <= old(self)@.new_balance
                    &&& b.asset_id == old(self)@.new_asset
                    &&& b.amount == old_token.amount
                    &&& final(self)@.old_balance == old(self)@.old_balance + old_token.amount
                    &&& final(self)@.new_balance == old(self)@.new_balance - old_token.amount
                },
                Err((e, b)) => {
                    &&& final(self)@ == old(self)@
                    &&& b == old_token
                    &&& (e == MigrationError::AssetMismatchError || e
                        == MigrationError::InsufficientReservesError)
                    &&& (e == MigrationError::AssetMismatchError <==> old_token.asset_id != old(
                        self,
                    )@.old_asset)
                    &&& (e == MigrationError::InsufficientReservesError <==> old_token.asset_id
                        == old(self)@.old_asset && old_token.amount > old(self)@.new_balance)
                },
            },
    {
        if old_token.asset_id != self.old_asset {
            return Err((MigrationError::AssetMismatchError, old_token));
        }
        if old_token.amount > self.new_balance {
            return Err((MigrationError::InsufficientReservesError, old_token));
        }
        let old_amount = old_token.amount;
        self.old_balance = self.old_balance + old_amount;
        self.new_balance = self.new_balance - old_amount;
        Ok(Bucket { asset_id: self.new_asset, amount: old_amount })
    }

    /// Replenishes the new pool with a further bucket of the new asset, by
    /// any quantity; the old pool is never affected.
    ///
    /// A bucket of any other asset is rejected and handed back unconsumed,
    /// with both balances untouched.
    pub fn add_new_tokens(&mut self, new_token: Bucket) -> (r: Result<
        (),
        (MigrationError, Bucket),
    >)
        requires
            old(self).wf(),
            new_token.asset_id == old(self)@.new_asset ==> old(self)@.new_balance
                + new_token.amount <= u128::MAX,
        ensures
            final(self).wf(),
            final(self)@.old_asset == old(self)@.old_asset,
            final(self)@.new_asset == old(self)@.new_asset,
            final(self)@.owner == old(self)@.owner,
            final(self)@.old_balance == old(self)@.old_balance,
            match r {
                Ok(_) => {
                    &&& new_token.asset_id == old(self)@.new_asset
                    &&& final(self)@.new_balance == old(self)@.new_balance + new_token.amount
                },
                Err((e, b)) => {
                    &&& new_token.asset_id != old(self)@.new_asset
                    &&& e == MigrationError::AssetMismatchError
                    &&& b == new_token
                    &&& final(self)@ == old(self)@
                },
            },
    {
        if new_token.asset_id != self.new_asset {
            return Err((MigrationError::AssetMismatchError, new_token));
        }
        self.new_balance = self.new_balance + new_token.amount;
        Ok(())
    }

    /// Law: a successful exchange conserves the combined custody of the two
    /// pools — every unit leaving the new pool is matched by a unit entering
    /// the old pool, so their sum never changes. The premises are exactly
    /// what `swap` ensures of a successful call.
    pub proof fn lemma_exchange_conserves_units(pre: EscrowView, post: EscrowView, q: nat)
        requires
            q <= pre.new_balance,
            post.old_balance == pre.old_balance + q,
            post.new_balance == pre.new_balance - q,
        ensures
            post.old_balance + post.new_balance == pre.old_balance + pre.new_balance,
    {
    }

    /// The identifier of the asset being retired.
    pub fn old_asset_id(&self) -> (r: AssetId)
        ensures
            r == self@.old_asset,
    {
        self.old_asset
    }

    /// The identifier of the asset being handed out.
    pub fn new_asset_id(&self) -> (r: AssetId)
        ensures
            r == self@.new_asset,
    {
        self.new_asset
    }

    /// How many old-asset units the escrow has retained so far.
    pub fn old_balance(&self) -> (r: u128)
        ensures
            r == self@.old_balance,
    {
        self.old_balance
    }

    /// How many new-asset units the reserve still holds.
    pub fn new_balance(&self) -> (r: u128)
        ensures
            r == self@.new_balance,
    {
        self.new_balance
    }

    /// The owner metadata attached at construction.
    pub fn dapp_definition(&self) -> (r: ComponentId)
        ensures
            r == self@.owner,
    {
        self.dapp_definition
    }
}

} // verus!
