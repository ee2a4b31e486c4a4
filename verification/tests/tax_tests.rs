use smartwallet::types::Coin;
use smartwallet::tax::compute_tax;
use smartwallet::tax::deduct_tax;

#[test]
fn zero_rate_means_zero_tax() {
    assert_eq!(compute_tax(1000, 0, 500), 0);
}

#[test]
fn ten_percent_rate_exact_value() {
    // kept = floor(300 * 10^18 / 1.1 * 10^18) = 272, so the tax is 28
    assert_eq!(compute_tax(300, 100_000_000_000_000_000, 1000), 28);
}

#[test]
fn tax_is_capped() {
    assert_eq!(compute_tax(300, 100_000_000_000_000_000, 5), 5);
}

#[test]
fn tax_of_zero_amount_is_zero() {
    assert_eq!(compute_tax(0, 100_000_000_000_000_000, 5), 0);
}

#[test]
fn deduct_tax_returns_net_coin() {
    let coin = Coin { denom: "uusd".to_string(), amount: 300 };
    let net = deduct_tax(coin, 100_000_000_000_000_000, 1000);
    assert_eq!(net.denom.as_str(), "uusd");
    assert_eq!(net.amount, 272);
}

#[test]
fn full_rate_halves_the_amount() {
    // a rate of 1.0 keeps floor(a/2)
    assert_eq!(compute_tax(100, 1_000_000_000_000_000_000, u64::MAX), 50);
    assert_eq!(compute_tax(101, 1_000_000_000_000_000_000, u64::MAX), 51);
}
