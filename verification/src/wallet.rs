//! The planning half of transaction assembly: which output each
//! asset gets, and what amount of each asset a transaction requests.
//! Gathering coins and submitting the transaction happen outside.

use vstd::prelude::*;

verus! {

/// The kind of output a transaction carries for one asset.
#[derive(PartialEq, Eq, Structural)]
pub enum OutputKind {
    /// Returns an asset's unspent coins to the wallet.
    Change,
    /// Receives an asset of which the wallet held no coins.
    Variable,
}

/// For each asset, the output to carry: change where spendable coins
/// were found, a variable output where none were.
pub fn plan_outputs(coin_counts: &Vec<usize>) -> (r: Vec<OutputKind>)
    ensures
        r@.len() == coin_counts@.len(),
        forall|i: int|
            0 <= i < r@.len() ==> r@[i] == (if coin_counts@[i] == 0 {
                OutputKind::Variable
            } else {
                OutputKind::Change
            }),
{
    let mut outputs: Vec<OutputKind> = Vec::new();
    let mut i: usize = 0;
    while i < coin_counts.len()
        invariant
            i <= coin_counts@.len(),
            outputs@.len() == i,
            forall|j: int|
                0 <= j < i ==> outputs@[j] == (if coin_counts@[j] == 0 {
                    OutputKind::Variable
                } else {
                    OutputKind::Change
                }),
        decreases coin_counts@.len() - i,
    {
        if coin_counts[i] == 0 {
            outputs.push(OutputKind::Variable);
        } else {
            outputs.push(OutputKind::Change);
        }
        i = i + 1;
    }
    outputs
}

/// The amount of each of `count` assets a transaction requests: the
/// caller's amounts where given, else `fallback` for every asset.
pub fn fill_amounts(amounts: Option<&Vec<u64>>, count: usize, fallback: u64) -> (r: Vec<u64>)
    requires
        amounts matches Option::Some(a) ==> a@.len() >= count,
    ensures
        r@.len() == count,
        forall|i: int|
            0 <= i < count ==> r@[i] == (match amounts {
                Option::Some(a) => a@[i],
                Option::None => fallback,
            }),
{
    let mut filled: Vec<u64> = Vec::new();
    let mut i: usize = 0;
    while i < count
        invariant
            i <= count,
            filled@.len() == i,
            amounts matches Option::Some(a) ==> a@.len() >= count,
            forall|j: int|
                0 <= j < i ==> filled@[j] == (match amounts {
                    Option::Some(a) => a@[j],
                    Option::None => fallback,
                }),
        decreases count - i,
    {
        match amounts {
            Option::Some(a) => filled.push(a[i]),
            Option::None => filled.push(fallback),
        }
        i = i + 1;
    }
    filled
}

} // verus!
