use kaikei_rs::tax::consumption;
use kaikei_rs::tax::corporate;
use kaikei_rs::tax::income;
use kaikei_rs::tax::tables::{BusinessType, CapitalTier, FiscalYear};

#[test]
fn test_round_trip_exact_when_tax_is_whole() {
    let fy = FiscalYear::Reiwa7;
    for p in [0u64, 10, 100, 1_000, 10_000, 123_450] {
        let inclusive = consumption::price_with_tax(fy, p, false);
        assert_eq!(consumption::price_without_tax(fy, inclusive, false), p);
        assert_eq!(
            consumption::tax_from_inclusive(fy, inclusive, false),
            consumption::calc_tax(fy, p, false)
        );
    }
    // reduced rate: 8% of a multiple of 25 is whole
    for p in [25u64, 10_000, 12_375] {
        let inclusive = consumption::price_with_tax(fy, p, true);
        assert_eq!(consumption::price_without_tax(fy, inclusive, true), p);
    }
}

#[test]
fn test_round_trip_shortfall_of_one_yen() {
    let fy = FiscalYear::Reiwa7;
    // 16 yen: tax 1 (1.6 truncated), 17 yen inclusive, 17/11 = 1.55 rounds to 2
    assert_eq!(consumption::price_with_tax(fy, 16, false), 17);
    assert_eq!(consumption::tax_from_inclusive(fy, 17, false), 2);
    assert_eq!(consumption::price_without_tax(fy, 17, false), 15);
    // 15 yen: tax 1, 16 yen inclusive, 16/11 = 1.45 rounds to 1: exact
    assert_eq!(consumption::price_without_tax(fy, 16, false), 15);
}

#[test]
fn test_simplified_never_exceeds_sales_tax() {
    let fy = FiscalYear::Reiwa7;
    let sales = 12_345_678;
    let sales_tax = consumption::calc_tax(fy, sales, false);
    assert_eq!(sales_tax, 1_234_567);
    let retail = consumption::calc_simplified(fy, sales, consumption::SimplifiedCategory::Retail);
    // 1,234,567 - floor(1,234,567 * 0.8) = 1,234,567 - 987,653
    assert_eq!(retail, 246_914);
    assert!(retail <= sales_tax);
}

#[test]
fn test_income_tax_progressive_on_thousands() {
    let fy = FiscalYear::Reiwa7;
    let mut previous = 0;
    let mut x = 0u64;
    while x <= 45_000_000 {
        let tax = income::calc_income_tax(fy, x);
        assert!(tax >= previous);
        previous = tax;
        x += 1_000;
    }
    // bracket boundaries
    assert_eq!(income::calc_income_tax(fy, 1_949_000), 97_450);
    assert_eq!(income::calc_income_tax(fy, 40_000_000), 13_204_000);
}

#[test]
fn test_income_tax_not_monotone_between_thousands() {
    // Inside the thousand below a bracket boundary the higher rate applies
    // with its full quick deduction.
    let fy = FiscalYear::Reiwa7;
    assert_eq!(income::calc_income_tax(fy, 1_949_001), 97_400);
    assert!(income::calc_income_tax(fy, 1_949_001) < income::calc_income_tax(fy, 1_949_000));
}

#[test]
fn test_sole_proprietor_monotone_in_revenue_and_expenses() {
    let fy = FiscalYear::Reiwa7;
    let mut previous = 0;
    let mut revenue = 0u64;
    while revenue <= 60_000_000 {
        let total = income::calc_sole_proprietor(fy, revenue, 1_000_000, true).total();
        assert!(total >= previous);
        previous = total;
        revenue += 250_000;
    }
    let low = income::calc_sole_proprietor(fy, 30_000_000, 9_000_000, false).total();
    let high = income::calc_sole_proprietor(fy, 30_000_000, 5_000_000, false).total();
    assert!(low <= high);
}

#[test]
fn test_reiwa7_never_more_than_reiwa6() {
    for revenue in [0u64, 3_000_000, 8_000_000, 24_000_000, 26_000_000, 100_000_000] {
        for blue in [false, true] {
            let r6 = income::calc_sole_proprietor(FiscalYear::Reiwa6, revenue, 500_000, blue);
            let r7 = income::calc_sole_proprietor(FiscalYear::Reiwa7, revenue, 500_000, blue);
            assert!(r7.total() <= r6.total());
            assert!(r7.total_deductions >= r6.total_deductions);
        }
    }
}

#[test]
fn test_no_profit_no_tax_any_business_type() {
    let r = income::calc_sole_proprietor_with_options(
        FiscalYear::Reiwa6,
        3_000_000,
        3_000_000,
        false,
        BusinessType::Type2,
    );
    assert_eq!(r.business_income, 0);
    assert_eq!(r.taxable_income, 0);
    assert_eq!(r.total(), 0);
}

#[test]
fn test_sole_proprietor_with_options_exact() {
    // 事業所得 1,000万, 第3種(低), 紙の青色申告 (no e-Tax deduction)
    let r = income::calc_sole_proprietor_with_options(
        FiscalYear::Reiwa6,
        15_000_000,
        5_000_000,
        false,
        BusinessType::Type3Low,
    );
    assert_eq!(r.business_income, 10_000_000);
    assert_eq!(r.total_deductions, 480_000);
    assert_eq!(r.taxable_income, 9_520_000);
    // 9,520,000 * 33% - 1,536,000
    assert_eq!(r.income_tax, 1_605_600);
    assert_eq!(r.reconstruction_tax, 33_717);
    assert_eq!(r.resident_tax, 957_000);
    // (10,000,000 - 2,900,000) * 3%
    assert_eq!(r.business_tax, 213_000);
    assert_eq!(r.effective_rate_parts(), (2_809_317, 10_000_000));
}

#[test]
fn test_sole_proprietor_extreme_revenue() {
    let r = income::calc_sole_proprietor(FiscalYear::Reiwa7, u64::MAX, 0, true);
    assert_eq!(r.business_income, u64::MAX);
    assert_eq!(r.total_deductions, 650_000);
    assert!(r.total() < u64::MAX);
}

#[test]
fn test_corporate_monotone_and_flat_portion() {
    let fy = FiscalYear::Reiwa7;
    let mut previous = 0;
    let mut revenue = 0u64;
    while revenue <= 30_000_000 {
        let r = corporate::calc_corporate(fy, revenue, 2_000_000, CapitalTier::Under100M, true);
        assert!(r.total() >= previous);
        assert!(r.total() >= 200_000);
        previous = r.total();
        revenue += 125_000;
    }
    let loss = corporate::calc_corporate(fy, 1, 2, CapitalTier::Under1B, false);
    assert_eq!(loss.total(), 290_000);
    assert_eq!(loss.effective_rate_parts(), (0, 1));
}

#[test]
fn test_corporate_resident_tax_tiers() {
    let fy = FiscalYear::Reiwa6;
    assert_eq!(
        corporate::calc_corporate_resident_tax(fy, 1_000_000, CapitalTier::Under5B, false),
        70_000 + 950_000
    );
    assert_eq!(
        corporate::calc_corporate_resident_tax(fy, 0, CapitalTier::Under5B, true),
        2_290_000
    );
}

#[test]
fn test_corporate_taxable_income_rounds_down() {
    let r = corporate::calc_corporate(
        FiscalYear::Reiwa7,
        9_000_999,
        1_000_000,
        CapitalTier::Under10M,
        false,
    );
    assert_eq!(r.taxable_income, 8_000_000);
    assert_eq!(r.corporate_tax, 1_200_000);
    assert_eq!(r.enterprise_tax, 352_000);
    assert_eq!(r.special_enterprise_tax, 130_240);
    assert_eq!(r.local_corporate_tax, 123_600);
    assert_eq!(r.corporate_resident_tax, 84_000 + 70_000);
}
