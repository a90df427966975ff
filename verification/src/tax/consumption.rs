//! Consumption tax (消費税) calculations.
//!
//! Supports the standard rate (10%) and the reduced rate (8%) for
//! food and newspapers, and simplified taxation (簡易課税).
use vstd::prelude::*;

use super::rate::{
    apply_inclusive_rate, apply_rate, inclusive_share, lemma_per_mille_bounds, per_mille,
    remainder_after,
};
use super::tables::{consumption_tax_rate, consumption_tax_reduced_rate, FiscalYear};

verus! {

/// The consumption tax rate that applies, per-mille: the reduced rate
/// for reduced-rate goods, the standard rate otherwise.
pub open spec fn applicable_rate(fy: FiscalYear, reduced_rate: bool) -> u64 {
    if reduced_rate {
        consumption_tax_reduced_rate(fy)
    } else {
        consumption_tax_rate(fy)
    }
}

/// Tax on a tax-exclusive price: the price times the rate, truncated to whole yen.
pub open spec fn tax_on_exclusive(fy: FiscalYear, price_exclusive: int, reduced_rate: bool) -> int {
    per_mille(price_exclusive, applicable_rate(fy, reduced_rate) as int)
}

/// Tax contained in a tax-inclusive price:
/// `price * rate / (1 + rate)`, rounded to the nearest yen (halves up).
pub open spec fn tax_in_inclusive(fy: FiscalYear, price_inclusive: int, reduced_rate: bool) -> int {
    inclusive_share(price_inclusive, applicable_rate(fy, reduced_rate) as int)
}

fn rate_for(fy: FiscalYear, reduced_rate: bool) -> (rate: u64)
    ensures
        rate == applicable_rate(fy, reduced_rate),
        rate <= 1000,
{
    if reduced_rate {
        consumption_tax_reduced_rate(fy)
    } else {
        consumption_tax_rate(fy)
    }
}

/// Calculate consumption tax amount from a tax-exclusive price (税抜→税額).
pub fn calc_tax(fy: FiscalYear, price_exclusive: u64, reduced_rate: bool) -> (tax: u64)
    ensures
        tax == tax_on_exclusive(fy, price_exclusive as int, reduced_rate),
        reduced_rate ==> tax == price_exclusive * 80 / 1000,
        !reduced_rate ==> tax == price_exclusive * 100 / 1000,
        tax <= price_exclusive,
{
    let rate = rate_for(fy, reduced_rate);
    proof {
        lemma_per_mille_bounds(price_exclusive as int, rate as int);
    }
    apply_rate(price_exclusive, rate)
}

/// Calculate tax-inclusive price from a tax-exclusive price (税抜→税込).
pub fn price_with_tax(fy: FiscalYear, price_exclusive: u64, reduced_rate: bool) -> (price: u64)
    requires
        price_exclusive + tax_on_exclusive(fy, price_exclusive as int, reduced_rate) <= u64::MAX,
    ensures
        price == price_exclusive + tax_on_exclusive(fy, price_exclusive as int, reduced_rate),
        reduced_rate ==> price == price_exclusive + price_exclusive * 80 / 1000,
        !reduced_rate ==> price == price_exclusive + price_exclusive * 100 / 1000,
{
    price_exclusive + calc_tax(fy, price_exclusive, reduced_rate)
}

/// Extract consumption tax from a tax-inclusive price (税込→税額).
pub fn tax_from_inclusive(fy: FiscalYear, price_inclusive: u64, reduced_rate: bool) -> (tax: u64)
    ensures
        tax == tax_in_inclusive(fy, price_inclusive as int, reduced_rate),
        reduced_rate ==> tax == (2 * price_inclusive * 80 + 1080) / 2160,
        !reduced_rate ==> tax == (2 * price_inclusive * 100 + 1100) / 2200,
        tax <= price_inclusive,
{
    // tax = inclusive * rate / (1 + rate)
    let rate = rate_for(fy, reduced_rate);
    apply_inclusive_rate(price_inclusive, rate)
}

/// Extract tax-exclusive price from a tax-inclusive price (税込→税抜).
pub fn price_without_tax(fy: FiscalYear, price_inclusive: u64, reduced_rate: bool) -> (price: u64)
    ensures
        price == price_inclusive - tax_in_inclusive(fy, price_inclusive as int, reduced_rate),
        price + tax_in_inclusive(fy, price_inclusive as int, reduced_rate) == price_inclusive,
        reduced_rate ==> price == price_inclusive - (2 * price_inclusive * 80 + 1080) / 2160,
        !reduced_rate ==> price == price_inclusive - (2 * price_inclusive * 100 + 1100) / 2200,
{
    price_inclusive - tax_from_inclusive(fy, price_inclusive, reduced_rate)
}

/// Business category for simplified taxation (簡易課税制度).
///
/// For businesses with taxable sales ≤ 50M yen in the base period.
/// Each category has a deemed purchase rate (みなし仕入率).
#[derive(Debug, Clone, Copy, PartialEq, Eq, Structural)]
pub enum SimplifiedCategory {
    /// 第1種: 卸売業 (90%)
    Wholesale,
    /// 第2種: 小売業 (80%)
    Retail,
    /// 第3種: 製造業等 (70%)
    Manufacturing,
    /// 第4種: その他 (60%)
    Other,
    /// 第5種: サービス業等 (50%)
    Service,
    /// 第6種: 不動産業 (40%)
    RealEstate,
}

impl SimplifiedCategory {
    /// Deemed purchase rate (みなし仕入率), per-mille.
    #[verifier::allow_in_spec]
    pub fn deemed_rate(self) -> u64
        returns
            (match self {
                SimplifiedCategory::Wholesale => 900u64,
                SimplifiedCategory::Retail => 800u64,
                SimplifiedCategory::Manufacturing => 700u64,
                SimplifiedCategory::Other => 600u64,
                SimplifiedCategory::Service => 500u64,
                SimplifiedCategory::RealEstate => 400u64,
            }),
    {
        match self {
            SimplifiedCategory::Wholesale => 900,
            SimplifiedCategory::Retail => 800,
            SimplifiedCategory::Manufacturing => 700,
            SimplifiedCategory::Other => 600,
            SimplifiedCategory::Service => 500,
            SimplifiedCategory::RealEstate => 400,
        }
    }
}

/// Consumption tax payable under simplified taxation: the tax on sales
/// at the standard rate, less the deemed purchase tax (that tax times the
/// deemed purchase rate, truncated).
pub open spec fn simplified_payable(
    fy: FiscalYear,
    taxable_sales: int,
    category: SimplifiedCategory,
) -> int {
    remainder_after(tax_on_exclusive(fy, taxable_sales, false), category.deemed_rate() as int)
}

/// Calculate consumption tax payable under simplified taxation (簡易課税).
///
/// - `taxable_sales`: Tax-exclusive taxable sales amount
/// - `category`: Business category for deemed purchase rate
pub fn calc_simplified(fy: FiscalYear, taxable_sales: u64, category: SimplifiedCategory) -> (payable: u64)
    ensures
        payable == simplified_payable(fy, taxable_sales as int, category),
        payable == taxable_sales * 100 / 1000 - (taxable_sales * 100 / 1000)
            * category.deemed_rate() / 1000,
        payable <= tax_on_exclusive(fy, taxable_sales as int, false),
{
    let sales_tax = calc_tax(fy, taxable_sales, false);
    let deemed_purchase_tax = apply_rate(sales_tax, category.deemed_rate());
    proof {
        lemma_per_mille_bounds(sales_tax as int, category.deemed_rate() as int);
    }
    sales_tax - deemed_purchase_tax
}

/// In every fiscal year, a reduced-rate item (food, newspapers) is taxed at
/// 8% and any other item at 10%, both on the tax-exclusive price (truncated)
/// and inside a tax-inclusive price (rounded to the nearest yen).
pub proof fn lemma_consumption_rates_every_year(fy: FiscalYear, price: int)
    requires
        0 <= price,
    ensures
        applicable_rate(fy, true) == 80,
        applicable_rate(fy, false) == 100,
        tax_on_exclusive(fy, price, true) == price * 80 / 1000,
        tax_on_exclusive(fy, price, false) == price * 100 / 1000,
        tax_in_inclusive(fy, price, true) == (2 * price * 80 + 1080) / 2160,
        tax_in_inclusive(fy, price, false) == (2 * price * 100 + 1100) / 2200,
        tax_on_exclusive(FiscalYear::Reiwa6, price, true) == tax_on_exclusive(
            FiscalYear::Reiwa7,
            price,
            true,
        ),
        tax_on_exclusive(FiscalYear::Reiwa6, price, false) == tax_on_exclusive(
            FiscalYear::Reiwa7,
            price,
            false,
        ),
{
}

/// Simplified taxation pays the tax on sales at the standard 10% less the
/// deemed purchase tax at the category's own deemed purchase rate:
/// 90% wholesale, 80% retail, 70% manufacturing, 60% other, 50% services,
/// 40% real estate; the same in every fiscal year.
pub proof fn lemma_simplified_payable_by_category(
    fy: FiscalYear,
    taxable_sales: int,
    category: SimplifiedCategory,
)
    requires
        0 <= taxable_sales,
    ensures
        ({
            let t = taxable_sales * 100 / 1000;
            &&& simplified_payable(fy, taxable_sales, category) == t - t * category.deemed_rate()
                / 1000
            &&& simplified_payable(fy, taxable_sales, category) == t - t * (match category {
                SimplifiedCategory::Wholesale => 900int,
                SimplifiedCategory::Retail => 800int,
                SimplifiedCategory::Manufacturing => 700int,
                SimplifiedCategory::Other => 600int,
                SimplifiedCategory::Service => 500int,
                SimplifiedCategory::RealEstate => 400int,
            }) / 1000
        }),
        simplified_payable(FiscalYear::Reiwa6, taxable_sales, category) == simplified_payable(
            FiscalYear::Reiwa7,
            taxable_sales,
            category,
        ),
{
}

/// How many yen a price loses going to the tax-inclusive price and back:
/// 1 when the truncated fraction of the tax rounds up on the way back, else 0.
pub open spec fn round_trip_shortfall(fy: FiscalYear, price_exclusive: int, reduced_rate: bool) -> int {
    let rate = applicable_rate(fy, reduced_rate) as int;
    if 2 * ((price_exclusive * rate) % 1000) >= 1000 + rate {
        1
    } else {
        0
    }
}

/// Going from a tax-exclusive price to the tax-inclusive price and back
/// recovers the tax and the price, up to one yen of rounding: extracting the
/// tax from `price_with_tax(p)` gives `calc_tax(p)` plus the shortfall (0 or 1),
/// and `price_without_tax(price_with_tax(p))` is `p` less that shortfall. When
/// the tax on `p` is a whole number of yen, the round trip is exact.
pub proof fn lemma_inclusive_round_trip(fy: FiscalYear, price_exclusive: int, reduced_rate: bool)
    requires
        0 <= price_exclusive,
    ensures
        tax_in_inclusive(
            fy,
            price_exclusive + tax_on_exclusive(fy, price_exclusive, reduced_rate),
            reduced_rate,
        ) == tax_on_exclusive(fy, price_exclusive, reduced_rate) + round_trip_shortfall(
            fy,
            price_exclusive,
            reduced_rate,
        ),
        (price_exclusive + tax_on_exclusive(fy, price_exclusive, reduced_rate)) - tax_in_inclusive(
            fy,
            price_exclusive + tax_on_exclusive(fy, price_exclusive, reduced_rate),
            reduced_rate,
        ) == price_exclusive - round_trip_shortfall(fy, price_exclusive, reduced_rate),
        0 <= round_trip_shortfall(fy, price_exclusive, reduced_rate) <= 1,
        (price_exclusive * applicable_rate(fy, reduced_rate)) % 1000 == 0 ==> round_trip_shortfall(
            fy,
            price_exclusive,
            reduced_rate,
        ) == 0,
{
    let p = price_exclusive;
    let r = applicable_rate(fy, reduced_rate) as int;
    let a = (p * r) / 1000;
    let m = (p * r) % 1000;
    assert(p * r == 1000 * a + m && 0 <= m < 1000) by {
        vstd::arithmetic::div_mod::lemma_fundamental_div_mod(p * r, 1000);
        vstd::arithmetic::div_mod::lemma_mod_bound(p * r, 1000);
    }
    let q = p + a;
    let d = 2 * (1000 + r);
    // 2qr + 1000 + r == d * a + (2m + 1000 + r)
    assert(2 * q * r + 1000 + r == d * a + (2 * m + 1000 + r)) by (nonlinear_arith)
        requires
            p * r == 1000 * a + m,
            q == p + a,
            d == 2 * (1000 + r),
    ;
    let b: int = if 2 * m >= 1000 + r {
        1
    } else {
        0
    };
    assert(0 <= (2 * m + 1000 + r) - d * b < d);
    assert((a + b) * d == d * a + d * b) by (nonlinear_arith);
    vstd::arithmetic::div_mod::lemma_fundamental_div_mod_converse(
        2 * q * r + 1000 + r,
        d,
        a + b,
        (2 * m + 1000 + r) - d * b,
    );
}

} // verus!
