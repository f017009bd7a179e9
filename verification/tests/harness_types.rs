use amm_harness::data_structures::{
    LiquidityParameters, WalletAssetConfiguration, AMOUNT_PER_COIN, COINS_PER_ASSET,
    NUMBER_OF_ASSETS,
};
use amm_harness::wallet::{fill_amounts, plan_outputs, OutputKind};

#[test]
fn liquidity_parameters_defaults() {
    let params = LiquidityParameters::new(None, None, None);
    assert_eq!(params.amounts, (10000, 40000));
    assert_eq!(params.deadline, 1000);
    assert_eq!(params.liquidity, 20000);
}

#[test]
fn liquidity_parameters_explicit_values() {
    let params = LiquidityParameters::new(Some((1, 2)), Some(77), Some(42));
    assert_eq!(params.amounts, (1, 2));
    assert_eq!(params.deadline, 77);
    assert_eq!(params.liquidity, 42);
}

#[test]
fn wallet_asset_configuration_default() {
    let config = WalletAssetConfiguration::default();
    assert_eq!(config.number_of_assets, NUMBER_OF_ASSETS);
    assert_eq!(config.coins_per_asset, COINS_PER_ASSET);
    assert_eq!(config.amount_per_coin, AMOUNT_PER_COIN);
}

#[test]
fn plan_outputs_change_for_found_coins() {
    let plan = plan_outputs(&vec![2, 0, 1]);
    assert_eq!(plan.len(), 3);
    assert!(plan[0] == OutputKind::Change);
    assert!(plan[1] == OutputKind::Variable);
    assert!(plan[2] == OutputKind::Change);
}

#[test]
fn fill_amounts_takes_given_amounts() {
    let amounts = vec![5, 6, 7];
    let filled = fill_amounts(Some(&amounts), 3, 100);
    assert_eq!(filled, vec![5, 6, 7]);
}

#[test]
fn fill_amounts_falls_back_when_none_given() {
    let filled = fill_amounts(None, 2, 100_000);
    assert_eq!(filled, vec![100_000, 100_000]);
}
