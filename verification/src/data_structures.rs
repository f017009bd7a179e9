//! Core data types of the pool harness: 32-byte identifiers, pool ids,
//! pool state, and the parameter bundles the liquidity scripts take.

use vstd::prelude::*;

verus! {

/// A 256-bit identifier held as its 32 raw bytes.
///
/// Asset ids, contract ids and sub ids on the chain are all such values;
/// the aliases below name the roles they play.
pub struct Id32 {
    pub bytes: Vec<u8>,
}

/// Lexicographic "strictly less" on byte strings: the order in which
/// the two assets of a pool are canonically arranged.
pub open spec fn lex_lt(a: Seq<u8>, b: Seq<u8>) -> bool
    decreases a.len(),
{
    if b.len() == 0 {
        false
    } else if a.len() == 0 {
        true
    } else if a[0] < b[0] {
        true
    } else if a[0] > b[0] {
        false
    } else {
        lex_lt(a.drop_first(), b.drop_first())
    }
}

impl Id32 {
    /// Well-formed: exactly 32 bytes.
    pub open spec fn wf(self) -> bool {
        self.bytes@.len() == 32
    }

    pub fn new(bytes: Vec<u8>) -> (r: Id32)
        requires
            bytes@.len() == 32,
        ensures
            r.bytes@ == bytes@,
            r.wf(),
    {
        Id32 { bytes }
    }

    /// The all-zero identifier.
    pub fn zeroed() -> (r: Id32)
        ensures
            r.wf(),
            forall|i: int| 0 <= i < 32 ==> r.bytes@[i] == 0u8,
    {
        let mut bytes: Vec<u8> = Vec::new();
        let mut i: usize = 0;
        while i < 32
            invariant
                i <= 32,
                bytes@.len() == i,
                forall|j: int| 0 <= j < i ==> bytes@[j] == 0u8,
            decreases 32 - i,
        {
            bytes.push(0u8);
            i = i + 1;
        }
        Id32 { bytes }
    }
}

/// Strict lexicographic comparison of two identifiers.
pub fn id_lt(a: &Id32, b: &Id32) -> (r: bool)
    requires
        a.wf(),
        b.wf(),
    ensures
        r == lex_lt(a.bytes@, b.bytes@),
{
    let mut i: usize = 0;
    proof {
        assert(a.bytes@.skip(0) =~= a.bytes@);
        assert(b.bytes@.skip(0) =~= b.bytes@);
    }
    while i < 32
        invariant
            i <= 32,
            a.wf(),
            b.wf(),
            lex_lt(a.bytes@, b.bytes@) == lex_lt(
                a.bytes@.skip(i as int),
                b.bytes@.skip(i as int),
            ),
            forall|j: int| 0 <= j < i ==> a.bytes@[j] == b.bytes@[j],
        decreases 32 - i,
    {
        let x = a.bytes[i];
        let y = b.bytes[i];
        if x < y {
            return true;
        }
        if x > y {
            return false;
        }
        proof {
            assert(a.bytes@.skip(i as int).drop_first() =~= a.bytes@.skip(i + 1));
            assert(b.bytes@.skip(i as int).drop_first() =~= b.bytes@.skip(i + 1));
        }
        i = i + 1;
    }
    proof {
        assert(a.bytes@.skip(32) =~= Seq::<u8>::empty());
        assert(b.bytes@.skip(32) =~= Seq::<u8>::empty());
    }
    false
}

pub type AssetId = Id32;

pub type ContractId = Id32;

pub type Bytes32 = Id32;

pub type Bits256 = Id32;

/// A pool is keyed by its two asset ids in canonical (ascending) order.
pub type PoolId = (AssetId, AssetId);

/// Arranges two asset ids into a pool id, smaller id first.
pub fn build_pool_id(asset_a: AssetId, asset_b: AssetId) -> (r: PoolId)
    requires
        asset_a.wf(),
        asset_b.wf(),
    ensures
        lex_lt(asset_a.bytes@, asset_b.bytes@) ==> r == (asset_a, asset_b),
        !lex_lt(asset_a.bytes@, asset_b.bytes@) ==> r == (asset_b, asset_a),
        r.0.wf(),
        r.1.wf(),
{
    if id_lt(&asset_a, &asset_b) {
        (asset_a, asset_b)
    } else {
        (asset_b, asset_a)
    }
}

pub const AMOUNT_PER_COIN: u64 = 1_000_000;

pub const COINS_PER_ASSET: u64 = 100;

pub const DEADLINE: u32 = 1000;

pub const DEPOSIT_AMOUNT_0: u64 = 10000;

pub const DEPOSIT_AMOUNT_1: u64 = 40000;

pub const LIQUIDITY: u64 = 20000;

pub const NUMBER_OF_ASSETS: u64 = 5;

/// An amount of one asset, tagged with the asset's id.
pub struct Asset {
    pub id: AssetId,
    pub amount: u64,
}

/// The state of one pool: its two reserves and the liquidity
/// tokens issued against them.
pub struct PoolMetadata {
    pub reserve_0: u64,
    pub reserve_1: u64,
    pub liquidity: Asset,
    pub decimals_0: u8,
    pub decimals_1: u8,
}

impl PoolMetadata {
    /// A pool that has issued liquidity holds something of both assets.
    pub open spec fn wf(self) -> bool {
        self.liquidity.amount > 0 ==> self.reserve_0 > 0 && self.reserve_1 > 0
    }
}

/// What an add- or remove-liquidity call deposits, by when, and how
/// much liquidity it expects.
pub struct LiquidityParameters {
    pub amounts: (u64, u64),
    pub deadline: u32,
    pub liquidity: u64,
}

impl LiquidityParameters {
    pub fn new(amounts: Option<(u64, u64)>, deadline: Option<u32>, liquidity: Option<u64>) -> (r:
        Self)
        ensures
            r.amounts == (match amounts {
                Option::Some(a) => a,
                Option::None => (DEPOSIT_AMOUNT_0, DEPOSIT_AMOUNT_1),
            }),
            r.deadline == (match deadline {
                Option::Some(d) => d,
                Option::None => DEADLINE,
            }),
            r.liquidity == (match liquidity {
                Option::Some(l) => l,
                Option::None => LIQUIDITY,
            }),
    {
        Self {
            amounts: match amounts {
                Option::Some(a) => a,
                Option::None => (DEPOSIT_AMOUNT_0, DEPOSIT_AMOUNT_1),
            },
            deadline: match deadline {
                Option::Some(d) => d,
                Option::None => DEADLINE,
            },
            liquidity: match liquidity {
                Option::Some(l) => l,
                Option::None => LIQUIDITY,
            },
        }
    }
}

/// How many assets a test wallet is set up with, and in what coins.
pub struct WalletAssetConfiguration {
    pub number_of_assets: u64,
    pub coins_per_asset: u64,
    pub amount_per_coin: u64,
}

impl Default for WalletAssetConfiguration {
    fn default() -> (r: Self)
        ensures
            r.number_of_assets == NUMBER_OF_ASSETS,
            r.coins_per_asset == COINS_PER_ASSET,
            r.amount_per_coin == AMOUNT_PER_COIN,
    {
        Self {
            number_of_assets: NUMBER_OF_ASSETS,
            coins_per_asset: COINS_PER_ASSET,
            amount_per_coin: AMOUNT_PER_COIN,
        }
    }
}

/// What a swap puts in, and how long a route it takes.
pub struct SwapParameters {
    pub amount: u64,
    pub route_length: u64,
}

/// What a swap paid out, against what was expected of it.
pub struct SwapResult {
    pub actual: u64,
    pub expected: Option<u64>,
}

/// A wallet's holdings of a pool's two assets and of its liquidity token.
pub struct WalletBalances {
    pub asset_a: u64,
    pub asset_b: u64,
    pub liquidity_pool_asset: u64,
}

} // verus!
