use kaikei_rs::tax::consumption::{self, SimplifiedCategory};
use kaikei_rs::tax::rate::{apply_inclusive_rate, apply_rate};
use kaikei_rs::tax::tables::{self, BusinessType, CapitalTier, FiscalYear};

#[test]
fn test_calendar_year_and_label() {
    assert_eq!(FiscalYear::Reiwa6.calendar_year(), 2024);
    assert_eq!(FiscalYear::Reiwa7.calendar_year(), 2025);
    assert_eq!(FiscalYear::Reiwa6.label(), "令和6年 (2024)");
    assert_eq!(FiscalYear::Reiwa7.label(), "令和7年 (2025)");
}

#[test]
fn test_basic_deduction_steps() {
    let r6 = FiscalYear::Reiwa6;
    let r7 = FiscalYear::Reiwa7;
    assert_eq!(tables::basic_deduction(r6, 0), 480_000);
    assert_eq!(tables::basic_deduction(r6, 24_000_000), 480_000);
    assert_eq!(tables::basic_deduction(r6, 24_000_001), 320_000);
    assert_eq!(tables::basic_deduction(r6, 24_500_001), 160_000);
    assert_eq!(tables::basic_deduction(r6, 25_000_001), 0);
    assert_eq!(tables::basic_deduction(r7, 23_500_000), 580_000);
    assert_eq!(tables::basic_deduction(r7, 23_500_001), 480_000);
    assert_eq!(tables::basic_deduction(r7, 24_000_001), 320_000);
    assert_eq!(tables::basic_deduction(r7, 24_500_001), 160_000);
    assert_eq!(tables::basic_deduction(r7, 25_000_000), 160_000);
    assert_eq!(tables::basic_deduction(r7, 25_000_001), 0);
}

#[test]
fn test_fixed_table_values() {
    let fy = FiscalYear::Reiwa7;
    assert_eq!(tables::blue_return_deduction(fy, true), 650_000);
    assert_eq!(tables::blue_return_deduction(fy, false), 550_000);
    assert_eq!(tables::resident_tax_rate(fy), 100);
    assert_eq!(tables::resident_tax_per_capita(fy), 5_000);
    assert_eq!(tables::reconstruction_tax_rate(fy), 21);
    assert_eq!(tables::business_tax_deduction(fy), 2_900_000);
    assert_eq!(tables::consumption_tax_rate(fy), 100);
    assert_eq!(tables::consumption_tax_reduced_rate(fy), 80);
    assert_eq!(BusinessType::Type1.rate(), 50);
    assert_eq!(BusinessType::Type2.rate(), 40);
    assert_eq!(BusinessType::Type3.rate(), 50);
    assert_eq!(BusinessType::Type3Low.rate(), 30);
    assert_eq!(BusinessType::Exempt.rate(), 0);
    assert_eq!(SimplifiedCategory::Retail.deemed_rate(), 800);
    assert_eq!(SimplifiedCategory::RealEstate.deemed_rate(), 400);
}

#[test]
fn test_income_tax_bracket_table() {
    let brackets = tables::income_tax_brackets(FiscalYear::Reiwa6);
    assert_eq!(brackets.len(), 7);
    assert_eq!(brackets[0], (1_949_000, 50, 0));
    assert_eq!(brackets[3], (8_999_000, 230, 636_000));
    assert_eq!(brackets[6], (u64::MAX, 450, 4_796_000));
    assert_eq!(brackets, tables::income_tax_brackets(FiscalYear::Reiwa7));
}

#[test]
fn test_corporate_tables() {
    let fy = FiscalYear::Reiwa7;
    assert_eq!(tables::corporate_tax_reduced_threshold(fy), 8_000_000);
    assert_eq!(tables::corporate_tax_reduced_rate(fy), 150);
    assert_eq!(tables::corporate_tax_standard_rate(fy), 232);
    assert_eq!(tables::local_corporate_tax_rate(fy), 103);
    assert_eq!(tables::corporate_resident_tax_rate(fy), 70);
    assert_eq!(tables::special_corporate_enterprise_tax_rate(fy), 370);
    assert_eq!(
        tables::corporate_enterprise_tax_rates(fy),
        (4_000_000, 8_000_000, 35, 53, 70)
    );
    assert_eq!(tables::corporate_resident_tax_flat(fy, CapitalTier::Under10M, false), 70_000);
    assert_eq!(tables::corporate_resident_tax_flat(fy, CapitalTier::Under10M, true), 140_000);
    assert_eq!(tables::corporate_resident_tax_flat(fy, CapitalTier::Over5B, true), 3_800_000);
}

#[test]
fn test_rate_helpers() {
    // truncation
    assert_eq!(apply_rate(999, 21), 20);
    assert_eq!(apply_rate(u64::MAX, 1000), u64::MAX);
    assert_eq!(apply_rate(u64::MAX, 450), u64::MAX / 1000 * 450 + (u64::MAX % 1000) * 450 / 1000);
    // rounding to the nearest yen: 17 * 100 / 1100 = 1.55 rounds to 2
    assert_eq!(apply_inclusive_rate(11, 100), 1);
    assert_eq!(apply_inclusive_rate(121, 100), 11);
    assert_eq!(apply_inclusive_rate(60_500, 100), 5_500);
    assert_eq!(apply_inclusive_rate(17, 100), 2);
    assert_eq!(apply_inclusive_rate(u64::MAX, 1000) <= u64::MAX, true);
}

#[test]
fn test_consumption_large_amounts() {
    let fy = FiscalYear::Reiwa7;
    assert_eq!(consumption::calc_tax(fy, u64::MAX, false), u64::MAX / 10);
    assert_eq!(
        consumption::tax_from_inclusive(fy, u64::MAX, false)
            + consumption::price_without_tax(fy, u64::MAX, false),
        u64::MAX
    );
}
