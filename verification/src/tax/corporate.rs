//! Corporate tax calculations for small/medium enterprises (中小法人).
//!
//! Covers:
//! - 法人税 (Corporate income tax)
//! - 地方法人税 (Local corporate tax)
//! - 法人住民税 (Corporate resident tax)
//! - 法人事業税 (Corporate enterprise tax)
//! - 特別法人事業税 (Special corporate enterprise tax)
use vstd::prelude::*;

use super::rate::{apply_rate, lemma_per_mille_bounds, lemma_per_mille_monotone, per_mille};
use super::tables::{
    corporate_enterprise_tax_rates, corporate_resident_tax_flat, corporate_resident_tax_rate,
    corporate_tax_reduced_rate, corporate_tax_reduced_threshold, corporate_tax_standard_rate,
    local_corporate_tax_rate, special_corporate_enterprise_tax_rate, CapitalTier, FiscalYear,
};
use super::CorporateResult;

verus! {

/// Corporate income tax (法人税) of an SME: the reduced rate up to the
/// threshold, the standard rate on the part above it.
pub open spec fn corporate_tax_on(fy: FiscalYear, taxable_income: int) -> int {
    let threshold = corporate_tax_reduced_threshold(fy) as int;
    let reduced = corporate_tax_reduced_rate(fy) as int;
    let standard = corporate_tax_standard_rate(fy) as int;
    if taxable_income == 0 {
        0
    } else if taxable_income <= threshold {
        per_mille(taxable_income, reduced)
    } else {
        per_mille(threshold, reduced) + per_mille(taxable_income - threshold, standard)
    }
}

/// Calculate corporate income tax (法人税) for SMEs.
///
/// - 800万円以下: 15% (中小法人特例)
/// - 800万円超: 23.2%
pub fn calc_corporate_tax(fy: FiscalYear, taxable_income: u64) -> (tax: u64)
    ensures
        tax == corporate_tax_on(fy, taxable_income as int),
        taxable_income <= 8_000_000 ==> tax == taxable_income * 150 / 1000,
        taxable_income > 8_000_000 ==> tax == 1_200_000 + (taxable_income - 8_000_000) * 232
            / 1000,
{
    if taxable_income == 0 {
        return 0;
    }
    let threshold = corporate_tax_reduced_threshold(fy);
    let reduced_rate = corporate_tax_reduced_rate(fy);
    let standard_rate = corporate_tax_standard_rate(fy);

    if taxable_income <= threshold {
        apply_rate(taxable_income, reduced_rate)
    } else {
        let low = apply_rate(threshold, reduced_rate);
        let high = apply_rate(taxable_income - threshold, standard_rate);
        proof {
            lemma_per_mille_bounds(taxable_income - threshold, standard_rate as int);
        }
        low + high
    }
}

/// Local corporate tax (地方法人税): 10.3% of the corporate tax.
pub open spec fn local_corporate_tax_on(fy: FiscalYear, corporate_tax: int) -> int {
    per_mille(corporate_tax, local_corporate_tax_rate(fy) as int)
}

/// Calculate local corporate tax (地方法人税).
/// 法人税額 × 10.3%
pub fn calc_local_corporate_tax(fy: FiscalYear, corporate_tax: u64) -> (tax: u64)
    ensures
        tax == local_corporate_tax_on(fy, corporate_tax as int),
        tax == corporate_tax * 103 / 1000,
{
    apply_rate(corporate_tax, local_corporate_tax_rate(fy))
}

/// Corporate resident tax (法人住民税): 7% of the corporate tax (法人税割)
/// plus the flat amount for the capital tier and head count (均等割).
pub open spec fn corporate_resident_tax_on(
    fy: FiscalYear,
    corporate_tax: int,
    capital_tier: CapitalTier,
    employees_over_50: bool,
) -> int {
    per_mille(corporate_tax, corporate_resident_tax_rate(fy) as int) + corporate_resident_tax_flat(
        fy,
        capital_tier,
        employees_over_50,
    )
}

/// Calculate corporate resident tax (法人住民税).
/// 法人税割 (7% of 法人税額) + 均等割 (flat amount).
pub fn calc_corporate_resident_tax(
    fy: FiscalYear,
    corporate_tax: u64,
    capital_tier: CapitalTier,
    employees_over_50: bool,
) -> (tax: u64)
    ensures
        tax == corporate_resident_tax_on(fy, corporate_tax as int, capital_tier, employees_over_50),
        tax == corporate_tax * 70 / 1000 + corporate_resident_tax_flat(
            fy,
            capital_tier,
            employees_over_50,
        ),
{
    let income_portion = apply_rate(corporate_tax, corporate_resident_tax_rate(fy));
    let flat_portion = corporate_resident_tax_flat(fy, capital_tier, employees_over_50);
    income_portion + flat_portion
}

/// Corporate enterprise tax on income (法人事業税 所得割), progressive over
/// three brackets: each part of the income at the rate of its bracket.
pub open spec fn corporate_enterprise_tax_on(fy: FiscalYear, taxable_income: int) -> int {
    let (t1, t2, r1, r2, r3) = corporate_enterprise_tax_rates(fy);
    if taxable_income == 0 {
        0
    } else if taxable_income <= t1 {
        per_mille(taxable_income, r1 as int)
    } else if taxable_income <= t2 {
        per_mille(t1 as int, r1 as int) + per_mille(taxable_income - t1, r2 as int)
    } else {
        per_mille(t1 as int, r1 as int) + per_mille(t2 - t1, r2 as int) + per_mille(
            taxable_income - t2,
            r3 as int,
        )
    }
}

/// Calculate corporate enterprise tax (法人事業税 所得割).
/// Progressive brackets: 400万以下 3.5%, 400万超〜800万 5.3%, 800万超 7.0%
pub fn calc_corporate_enterprise_tax(fy: FiscalYear, taxable_income: u64) -> (tax: u64)
    ensures
        tax == corporate_enterprise_tax_on(fy, taxable_income as int),
        taxable_income <= 4_000_000 ==> tax == taxable_income * 35 / 1000,
        4_000_000 < taxable_income <= 8_000_000 ==> tax == 140_000 + (taxable_income - 4_000_000)
            * 53 / 1000,
        taxable_income > 8_000_000 ==> tax == 352_000 + (taxable_income - 8_000_000) * 70 / 1000,
{
    if taxable_income == 0 {
        return 0;
    }

    let (t1, t2, r1, r2, r3) = corporate_enterprise_tax_rates(fy);

    if taxable_income <= t1 {
        apply_rate(taxable_income, r1)
    } else if taxable_income <= t2 {
        let part1 = apply_rate(t1, r1);
        let part2 = apply_rate(taxable_income - t1, r2);
        part1 + part2
    } else {
        let part1 = apply_rate(t1, r1);
        let part2 = apply_rate(t2 - t1, r2);
        let part3 = apply_rate(taxable_income - t2, r3);
        proof {
            lemma_per_mille_bounds(taxable_income - t2, r3 as int);
        }
        part1 + part2 + part3
    }
}

/// Special corporate enterprise tax (特別法人事業税): 37% of the enterprise tax.
pub open spec fn special_enterprise_tax_on(fy: FiscalYear, enterprise_tax: int) -> int {
    per_mille(enterprise_tax, special_corporate_enterprise_tax_rate(fy) as int)
}

/// Calculate special corporate enterprise tax (特別法人事業税).
/// 法人事業税所得割額 × 37%
pub fn calc_special_enterprise_tax(fy: FiscalYear, enterprise_tax: u64) -> (tax: u64)
    ensures
        tax == special_enterprise_tax_on(fy, enterprise_tax as int),
        tax == enterprise_tax * 370 / 1000,
{
    apply_rate(enterprise_tax, special_corporate_enterprise_tax_rate(fy))
}

/// Taxable income of a corporation (課税所得): revenue less expenses,
/// never below zero, rounded down to a multiple of 1,000 yen.
pub open spec fn corporate_taxable_income_of(revenue: u64, expenses: u64) -> int {
    (if revenue >= expenses {
        revenue - expenses
    } else {
        0
    }) / 1000 * 1000
}

/// Total of the five corporate taxes on a taxable income.
pub open spec fn corporate_tax_total_on(
    fy: FiscalYear,
    taxable_income: int,
    capital_tier: CapitalTier,
    employees_over_50: bool,
) -> int {
    let corporate_tax = corporate_tax_on(fy, taxable_income);
    let enterprise_tax = corporate_enterprise_tax_on(fy, taxable_income);
    corporate_tax + local_corporate_tax_on(fy, corporate_tax) + corporate_resident_tax_on(
        fy,
        corporate_tax,
        capital_tier,
        employees_over_50,
    ) + enterprise_tax + special_enterprise_tax_on(fy, enterprise_tax)
}

/// Total of the five corporate taxes for the given revenue and expenses.
pub open spec fn corporate_tax_total(
    fy: FiscalYear,
    revenue: u64,
    expenses: u64,
    capital_tier: CapitalTier,
    employees_over_50: bool,
) -> int {
    corporate_tax_total_on(
        fy,
        corporate_taxable_income_of(revenue, expenses),
        capital_tier,
        employees_over_50,
    )
}

/// Bounds on each corporate tax, enough to keep their total within `u64`.
proof fn lemma_corporate_taxes_bounded(
    fy: FiscalYear,
    taxable_income: int,
    capital_tier: CapitalTier,
    employees_over_50: bool,
)
    requires
        0 <= taxable_income <= u64::MAX,
    ensures
        0 <= corporate_tax_on(fy, taxable_income) <= taxable_income / 4,
        0 <= corporate_enterprise_tax_on(fy, taxable_income) <= taxable_income / 10,
        corporate_tax_total_on(fy, taxable_income, capital_tier, employees_over_50) <= u64::MAX,
        corporate_tax_total_on(fy, taxable_income, capital_tier, employees_over_50)
            >= corporate_resident_tax_flat(fy, capital_tier, employees_over_50),
{
    let ct = corporate_tax_on(fy, taxable_income);
    let et = corporate_enterprise_tax_on(fy, taxable_income);
    assert(0 <= ct <= taxable_income / 4);
    assert(0 <= et <= taxable_income / 10);
    lemma_per_mille_bounds(ct, 103);
    lemma_per_mille_bounds(ct, 70);
    lemma_per_mille_bounds(et, 370);
}

/// Calculate all taxes for a small/medium corporation.
///
/// - `revenue`: Gross revenue (売上)
/// - `expenses`: Deductible expenses (経費, including officer compensation)
/// - `capital_tier`: Capital range for resident tax flat portion
/// - `employees_over_50`: Whether employee count exceeds 50
pub fn calc_corporate(
    fy: FiscalYear,
    revenue: u64,
    expenses: u64,
    capital_tier: CapitalTier,
    employees_over_50: bool,
) -> (result: CorporateResult)
    ensures
        result.fiscal_year == fy,
        result.revenue == revenue,
        result.expenses == expenses,
        result.taxable_income == corporate_taxable_income_of(revenue, expenses),
        result.corporate_tax == corporate_tax_on(fy, result.taxable_income as int),
        result.local_corporate_tax == local_corporate_tax_on(fy, result.corporate_tax as int),
        result.corporate_resident_tax == corporate_resident_tax_on(
            fy,
            result.corporate_tax as int,
            capital_tier,
            employees_over_50,
        ),
        result.enterprise_tax == corporate_enterprise_tax_on(fy, result.taxable_income as int),
        result.special_enterprise_tax == special_enterprise_tax_on(
            fy,
            result.enterprise_tax as int,
        ),
        result.tax_sum() == corporate_tax_total(
            fy,
            revenue,
            expenses,
            capital_tier,
            employees_over_50,
        ),
        result.tax_sum() <= u64::MAX,
        result.taxable_income % 1000 == 0,
        revenue >= expenses ==> result.taxable_income <= revenue - expenses
            < result.taxable_income + 1000,
        revenue < expenses ==> result.taxable_income == 0,
{
    // 課税所得 = 売上 - 経費 (1,000円未満切り捨て)
    let taxable_income = revenue.saturating_sub(expenses) / 1_000 * 1_000;

    // 法人税
    let corporate_tax = calc_corporate_tax(fy, taxable_income);

    // 地方法人税 (法人税額ベース)
    let local_corporate_tax = calc_local_corporate_tax(fy, corporate_tax);

    // 法人住民税 (法人税額ベース + 均等割)
    let corporate_resident_tax = calc_corporate_resident_tax(
        fy,
        corporate_tax,
        capital_tier,
        employees_over_50,
    );

    // 法人事業税 (課税所得ベース)
    let enterprise_tax = calc_corporate_enterprise_tax(fy, taxable_income);

    // 特別法人事業税 (事業税ベース)
    let special_enterprise_tax = calc_special_enterprise_tax(fy, enterprise_tax);

    proof {
        lemma_corporate_taxes_bounded(fy, taxable_income as int, capital_tier, employees_over_50);
    }

    CorporateResult {
        fiscal_year: fy,
        revenue,
        expenses,
        taxable_income,
        corporate_tax,
        local_corporate_tax,
        corporate_resident_tax,
        enterprise_tax,
        special_enterprise_tax,
    }
}

/// In every fiscal year an SME pays corporate tax at 15% on taxable income
/// up to 800万円 and at 23.2% on the part above it (1,200,000 yen on the
/// first 800万円).
pub proof fn lemma_corporate_tax_rates_every_year(fy: FiscalYear, x: int)
    requires
        0 <= x,
    ensures
        x <= 8_000_000 ==> corporate_tax_on(fy, x) == x * 150 / 1000,
        x > 8_000_000 ==> corporate_tax_on(fy, x) == 1_200_000 + (x - 8_000_000) * 232 / 1000,
        corporate_tax_on(FiscalYear::Reiwa6, x) == corporate_tax_on(FiscalYear::Reiwa7, x),
{
}

/// In every fiscal year the corporate enterprise tax is 3.5% up to 400万円,
/// 5.3% from 400万円 to 800万円 and 7.0% above, each on its own part of the
/// income (140,000 yen on the first 400万円, 352,000 yen on the first 800万円).
pub proof fn lemma_corporate_enterprise_tax_rates_every_year(fy: FiscalYear, x: int)
    requires
        0 <= x,
    ensures
        x <= 4_000_000 ==> corporate_enterprise_tax_on(fy, x) == x * 35 / 1000,
        4_000_000 < x <= 8_000_000 ==> corporate_enterprise_tax_on(fy, x) == 140_000 + (x
            - 4_000_000) * 53 / 1000,
        x > 8_000_000 ==> corporate_enterprise_tax_on(fy, x) == 352_000 + (x - 8_000_000) * 70
            / 1000,
        corporate_enterprise_tax_on(FiscalYear::Reiwa6, x) == corporate_enterprise_tax_on(
            FiscalYear::Reiwa7,
            x,
        ),
{
}

/// In every fiscal year the taxes levied on other taxes are: local corporate
/// tax 10.3% of the corporate tax, corporate resident tax 7% of the corporate
/// tax plus the flat amount, special enterprise tax 37% of the enterprise tax.
pub proof fn lemma_corporate_surtaxes_every_year(
    fy: FiscalYear,
    corporate_tax: int,
    enterprise_tax: int,
    capital_tier: CapitalTier,
    employees_over_50: bool,
)
    requires
        0 <= corporate_tax,
        0 <= enterprise_tax,
    ensures
        local_corporate_tax_on(fy, corporate_tax) == corporate_tax * 103 / 1000,
        corporate_resident_tax_on(fy, corporate_tax, capital_tier, employees_over_50)
            == corporate_tax * 70 / 1000 + corporate_resident_tax_flat(
            fy,
            capital_tier,
            employees_over_50,
        ),
        special_enterprise_tax_on(fy, enterprise_tax) == enterprise_tax * 370 / 1000,
        corporate_resident_tax_flat(fy, capital_tier, employees_over_50) == (match capital_tier {
            CapitalTier::Under10M => if employees_over_50 {
                140_000u64
            } else {
                70_000u64
            },
            CapitalTier::Under100M => if employees_over_50 {
                200_000u64
            } else {
                180_000u64
            },
            CapitalTier::Under1B => if employees_over_50 {
                530_000u64
            } else {
                290_000u64
            },
            CapitalTier::Under5B => if employees_over_50 {
                2_290_000u64
            } else {
                950_000u64
            },
            CapitalTier::Over5B => if employees_over_50 {
                3_800_000u64
            } else {
                1_210_000u64
            },
        }),
{
}

/// A larger taxable income never gives a smaller corporate tax.
pub proof fn lemma_corporate_tax_monotone(fy: FiscalYear, x: int, y: int)
    requires
        0 <= x <= y,
    ensures
        corporate_tax_on(fy, x) <= corporate_tax_on(fy, y),
{
    if 0 < x && x <= 8_000_000 {
        if y <= 8_000_000 {
            lemma_per_mille_monotone(x, y, 150);
        } else {
            lemma_per_mille_monotone(x, 8_000_000, 150);
            lemma_per_mille_bounds(y - 8_000_000, 232);
        }
    } else if x > 8_000_000 {
        lemma_per_mille_monotone(x - 8_000_000, y - 8_000_000, 232);
    } else if y > 8_000_000 {
        lemma_per_mille_bounds(y - 8_000_000, 232);
    } else {
        lemma_per_mille_bounds(y, 150);
    }
}

/// A larger taxable income never gives a smaller corporate enterprise tax.
pub proof fn lemma_corporate_enterprise_tax_monotone(fy: FiscalYear, x: int, y: int)
    requires
        0 <= x <= y,
    ensures
        corporate_enterprise_tax_on(fy, x) <= corporate_enterprise_tax_on(fy, y),
{
    lemma_per_mille_bounds(y, 35);
    if y > 4_000_000 {
        lemma_per_mille_bounds(y - 4_000_000, 53);
    }
    if y > 8_000_000 {
        lemma_per_mille_bounds(y - 8_000_000, 70);
    }
    if x <= 4_000_000 {
        if y <= 4_000_000 {
            lemma_per_mille_monotone(x, y, 35);
        } else {
            lemma_per_mille_monotone(x, 4_000_000, 35);
        }
    } else if x <= 8_000_000 {
        if y <= 8_000_000 {
            lemma_per_mille_monotone(x - 4_000_000, y - 4_000_000, 53);
        } else {
            lemma_per_mille_monotone(x - 4_000_000, 4_000_000, 53);
        }
    } else {
        lemma_per_mille_monotone(x - 8_000_000, y - 8_000_000, 70);
    }
}

/// A larger taxable income never gives a smaller total of the five
/// corporate taxes.
pub proof fn lemma_corporate_total_monotone_in_income(
    fy: FiscalYear,
    x: int,
    y: int,
    capital_tier: CapitalTier,
    employees_over_50: bool,
)
    requires
        0 <= x <= y <= u64::MAX,
    ensures
        corporate_tax_total_on(fy, x, capital_tier, employees_over_50) <= corporate_tax_total_on(
            fy,
            y,
            capital_tier,
            employees_over_50,
        ),
{
    lemma_corporate_taxes_bounded(fy, x, capital_tier, employees_over_50);
    lemma_corporate_taxes_bounded(fy, y, capital_tier, employees_over_50);
    lemma_corporate_tax_monotone(fy, x, y);
    lemma_corporate_enterprise_tax_monotone(fy, x, y);
    let cx = corporate_tax_on(fy, x);
    let cy = corporate_tax_on(fy, y);
    let ex = corporate_enterprise_tax_on(fy, x);
    let ey = corporate_enterprise_tax_on(fy, y);
    lemma_per_mille_monotone(cx, cy, 103);
    lemma_per_mille_monotone(cx, cy, 70);
    lemma_per_mille_monotone(ex, ey, 370);
}

/// More revenue, with the same expenses, never lowers the corporate taxes.
pub proof fn lemma_corporate_more_revenue_never_lowers_tax(
    fy: FiscalYear,
    revenue1: u64,
    revenue2: u64,
    expenses: u64,
    capital_tier: CapitalTier,
    employees_over_50: bool,
)
    requires
        revenue1 <= revenue2,
    ensures
        corporate_tax_total(fy, revenue1, expenses, capital_tier, employees_over_50)
            <= corporate_tax_total(fy, revenue2, expenses, capital_tier, employees_over_50),
{
    let n1: int = if revenue1 >= expenses {
        revenue1 - expenses
    } else {
        0
    };
    let n2: int = if revenue2 >= expenses {
        revenue2 - expenses
    } else {
        0
    };
    vstd::arithmetic::div_mod::lemma_div_is_ordered(n1, n2, 1000);
    lemma_corporate_total_monotone_in_income(
        fy,
        corporate_taxable_income_of(revenue1, expenses),
        corporate_taxable_income_of(revenue2, expenses),
        capital_tier,
        employees_over_50,
    );
}

/// More expenses, with the same revenue, never raise the corporate taxes.
pub proof fn lemma_corporate_more_expenses_never_raise_tax(
    fy: FiscalYear,
    revenue: u64,
    expenses1: u64,
    expenses2: u64,
    capital_tier: CapitalTier,
    employees_over_50: bool,
)
    requires
        expenses1 <= expenses2,
    ensures
        corporate_tax_total(fy, revenue, expenses2, capital_tier, employees_over_50)
            <= corporate_tax_total(fy, revenue, expenses1, capital_tier, employees_over_50),
{
    let n1: int = if revenue >= expenses1 {
        revenue - expenses1
    } else {
        0
    };
    let n2: int = if revenue >= expenses2 {
        revenue - expenses2
    } else {
        0
    };
    vstd::arithmetic::div_mod::lemma_div_is_ordered(n2, n1, 1000);
    lemma_corporate_total_monotone_in_income(
        fy,
        corporate_taxable_income_of(revenue, expenses2),
        corporate_taxable_income_of(revenue, expenses1),
        capital_tier,
        employees_over_50,
    );
}

/// The flat portion of the corporate resident tax is always due: the total
/// never falls below it, and a corporation without profit pays exactly it
/// and no corporate tax.
pub proof fn lemma_corporate_flat_portion_always_due(
    fy: FiscalYear,
    revenue: u64,
    expenses: u64,
    capital_tier: CapitalTier,
    employees_over_50: bool,
)
    ensures
        corporate_tax_total(fy, revenue, expenses, capital_tier, employees_over_50)
            >= corporate_resident_tax_flat(fy, capital_tier, employees_over_50),
        revenue <= expenses ==> corporate_taxable_income_of(revenue, expenses) == 0,
        revenue <= expenses ==> corporate_tax_total(
            fy,
            revenue,
            expenses,
            capital_tier,
            employees_over_50,
        ) == corporate_resident_tax_flat(fy, capital_tier, employees_over_50),
{
    let n: int = if revenue >= expenses {
        revenue - expenses
    } else {
        0
    };
    assert(0 <= n / 1000 * 1000 <= n);
    lemma_corporate_taxes_bounded(
        fy,
        corporate_taxable_income_of(revenue, expenses),
        capital_tier,
        employees_over_50,
    );
}

} // verus!
