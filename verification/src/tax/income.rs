//! Income tax and related tax calculations for sole proprietors.
use vstd::prelude::*;

use super::rate::{apply_rate, lemma_per_mille_bounds, lemma_per_mille_monotone, per_mille};
use super::tables::{
    basic_deduction, blue_return_deduction, business_tax_deduction, income_tax_bracket_table,
    income_tax_brackets, reconstruction_tax_rate, resident_tax_per_capita, resident_tax_rate,
    BusinessType, FiscalYear, IncomeTaxBracket,
};
use super::SolePropResult;

verus! {

/// Tax in one bracket of the quick-deduction table:
/// `income * rate / 1000 - quick_deduction`, never below zero.
pub open spec fn bracket_tax(bracket: IncomeTaxBracket, income: int) -> int {
    let gross = per_mille(income, bracket.1 as int);
    if gross >= bracket.2 {
        gross - bracket.2
    } else {
        0
    }
}

/// Tax by the first bracket whose upper limit is at least `income`;
/// zero when no bracket reaches that far.
pub open spec fn tax_by_brackets(brackets: Seq<IncomeTaxBracket>, income: int) -> int
    decreases brackets.len(),
{
    if brackets.len() == 0 {
        0
    } else if income <= brackets[0].0 {
        bracket_tax(brackets[0], income)
    } else {
        tax_by_brackets(brackets.drop_first(), income)
    }
}

/// Income tax (所得税) on a taxable income, by the year's bracket table.
pub open spec fn income_tax_on(fy: FiscalYear, taxable_income: int) -> int {
    if taxable_income == 0 {
        0
    } else {
        tax_by_brackets(income_tax_bracket_table(fy), taxable_income)
    }
}

/// Calculate income tax from taxable income using the bracket table.
pub fn calc_income_tax(fy: FiscalYear, taxable_income: u64) -> (tax: u64)
    ensures
        tax == income_tax_on(fy, taxable_income as int),
        taxable_income == 0 ==> tax == 0,
        taxable_income > 0 ==> tax == (if taxable_income <= 1_949_000 {
            taxable_income * 50 / 1000
        } else if taxable_income <= 3_299_000 {
            taxable_income * 100 / 1000 - 97_500
        } else if taxable_income <= 6_949_000 {
            taxable_income * 200 / 1000 - 427_500
        } else if taxable_income <= 8_999_000 {
            taxable_income * 230 / 1000 - 636_000
        } else if taxable_income <= 17_999_000 {
            taxable_income * 330 / 1000 - 1_536_000
        } else if taxable_income <= 39_999_000 {
            taxable_income * 400 / 1000 - 2_796_000
        } else {
            taxable_income * 450 / 1000 - 4_796_000
        }),
{
    if taxable_income == 0 {
        return 0;
    }
    let brackets = income_tax_brackets(fy);
    let ghost table = income_tax_bracket_table(fy);
    assert forall|j: int| 0 <= j < table.len() implies #[trigger] table[j].1 <= 1000 by {
        if j == 0 {
        } else if j == 1 {
        } else if j == 2 {
        } else if j == 3 {
        } else if j == 4 {
        } else if j == 5 {
        } else {
        }
    }
    assert(table.skip(0) =~= table);
    let mut i: usize = 0;
    while i < brackets.len()
        invariant
            brackets@ == table,
            table == income_tax_bracket_table(fy),
            forall|j: int| 0 <= j < table.len() ==> #[trigger] table[j].1 <= 1000,
            0 <= i <= brackets.len(),
            taxable_income != 0,
            forall|j: int| 0 <= j < i ==> taxable_income > #[trigger] table[j].0,
            tax_by_brackets(table, taxable_income as int) == tax_by_brackets(
                table.skip(i as int),
                taxable_income as int,
            ),
        decreases brackets.len() - i,
    {
        let (upper, rate, deduction) = brackets[i];
        assert(table.skip(i as int)[0] == table[i as int]);
        if taxable_income <= upper {
            let tax = apply_rate(taxable_income, rate);
            proof {
                lemma_income_tax_quick_deduction(fy, taxable_income as int);
            }
            return tax.saturating_sub(deduction);
        }
        assert(table.skip(i as int).drop_first() =~= table.skip(i + 1));
        i = i + 1;
    }
    // Not reached: the highest bracket's limit is u64::MAX.
    assert(taxable_income > table[6].0);
    0
}

/// Reconstruction special income tax (復興特別所得税) on an income tax amount.
pub open spec fn reconstruction_tax_on(fy: FiscalYear, income_tax: int) -> int {
    per_mille(income_tax, reconstruction_tax_rate(fy) as int)
}

/// Calculate reconstruction special income tax (復興特別所得税).
pub fn calc_reconstruction_tax(fy: FiscalYear, income_tax: u64) -> (tax: u64)
    ensures
        tax == reconstruction_tax_on(fy, income_tax as int),
        tax == income_tax * 21 / 1000,
{
    apply_rate(income_tax, reconstruction_tax_rate(fy))
}

/// Resident tax (住民税): the income-proportional part plus the per-capita
/// levy, and nothing at all on zero taxable income.
pub open spec fn resident_tax_on(fy: FiscalYear, taxable_income: int) -> int {
    if taxable_income == 0 {
        0
    } else {
        per_mille(taxable_income, resident_tax_rate(fy) as int) + resident_tax_per_capita(fy)
    }
}

/// Calculate resident tax (住民税) - income-proportional + per-capita.
pub fn calc_resident_tax(fy: FiscalYear, taxable_income: u64) -> (tax: u64)
    ensures
        tax == resident_tax_on(fy, taxable_income as int),
        taxable_income == 0 ==> tax == 0,
        taxable_income > 0 ==> tax == taxable_income * 100 / 1000 + 5_000,
{
    if taxable_income == 0 {
        return 0;
    }
    let income_portion = apply_rate(taxable_income, resident_tax_rate(fy));
    income_portion + resident_tax_per_capita(fy)
}

/// Business tax (個人事業税): business income above the 290万円 deduction,
/// times the rate of the business type.
pub open spec fn business_tax_on(fy: FiscalYear, business_income: int, business_type: BusinessType) -> int {
    if business_income <= business_tax_deduction(fy) {
        0
    } else {
        per_mille(business_income - business_tax_deduction(fy), business_type.rate() as int)
    }
}

/// Calculate business tax (個人事業税).
///
/// Business income minus 290万 deduction, times the rate for the business type.
pub fn calc_business_tax(fy: FiscalYear, business_income: u64, business_type: BusinessType) -> (tax: u64)
    ensures
        tax == business_tax_on(fy, business_income as int, business_type),
        business_income <= 2_900_000 ==> tax == 0,
        business_income > 2_900_000 ==> tax == (business_income - 2_900_000) * business_type.rate()
            / 1000,
{
    let deduction = business_tax_deduction(fy);
    if business_income <= deduction {
        return 0;
    }
    let taxable = business_income - deduction;
    apply_rate(taxable, business_type.rate())
}

/// Business income (事業所得): revenue less expenses, never below zero.
pub open spec fn business_income_of(revenue: u64, expenses: u64) -> int {
    if revenue >= expenses {
        revenue - expenses
    } else {
        0
    }
}

/// Personal deductions (所得控除): the basic deduction for the business
/// income, plus the e-Tax blue return deduction when filing so.
pub open spec fn deductions_of(fy: FiscalYear, business_income: int, blue_return_etax: bool) -> int {
    basic_deduction(fy, business_income as u64) + if blue_return_etax {
        blue_return_deduction(fy, true) as int
    } else {
        0int
    }
}

/// Taxable income (課税所得): income less deductions, never below zero,
/// rounded down to a multiple of 1,000 yen.
pub open spec fn taxable_income_of(business_income: int, deductions: int) -> int {
    (if business_income >= deductions {
        business_income - deductions
    } else {
        0
    }) / 1000 * 1000
}

/// Taxable income of a sole proprietor with the given business income.
pub open spec fn sole_proprietor_taxable(
    fy: FiscalYear,
    business_income: int,
    blue_return_etax: bool,
) -> int {
    taxable_income_of(business_income, deductions_of(fy, business_income, blue_return_etax))
}

/// Total tax of a sole proprietor with the given business income: income
/// tax, reconstruction tax, resident tax and business tax together.
pub open spec fn sole_proprietor_tax_on_income(
    fy: FiscalYear,
    business_income: int,
    blue_return_etax: bool,
    business_type: BusinessType,
) -> int {
    let taxable = sole_proprietor_taxable(fy, business_income, blue_return_etax);
    let income_tax = income_tax_on(fy, taxable);
    income_tax + reconstruction_tax_on(fy, income_tax) + resident_tax_on(fy, taxable)
        + business_tax_on(fy, business_income, business_type)
}

/// Total tax of a sole proprietor with the given revenue and expenses.
pub open spec fn sole_proprietor_tax(
    fy: FiscalYear,
    revenue: u64,
    expenses: u64,
    blue_return_etax: bool,
    business_type: BusinessType,
) -> int {
    sole_proprietor_tax_on_income(
        fy,
        business_income_of(revenue, expenses),
        blue_return_etax,
        business_type,
    )
}

/// In every fiscal year, an e-Tax blue return adds 650,000 yen to the basic
/// deduction and any other filing adds nothing.
pub proof fn lemma_deductions_by_filing(fy: FiscalYear, business_income: int)
    requires
        0 <= business_income <= u64::MAX,
    ensures
        deductions_of(fy, business_income, true) == basic_deduction(fy, business_income as u64)
            + 650_000,
        deductions_of(fy, business_income, false) == basic_deduction(fy, business_income as u64),
        deductions_of(fy, business_income, true) - deductions_of(fy, business_income, false)
            == 650_000,
{
}

/// The basic deduction (基礎控除) by year and total income: 令和6年 48万円 up to
/// 2,400万円, 令和7年 58万円 up to 2,350万円 and 48万円 up to 2,400万円; in both
/// years 32万円 up to 2,450万円, 16万円 up to 2,500万円 and nothing above.
pub proof fn lemma_basic_deduction_by_year(fy: FiscalYear, income: u64)
    ensures
        income <= 23_500_000 ==> basic_deduction(fy, income) == (match fy {
            FiscalYear::Reiwa6 => 480_000u64,
            FiscalYear::Reiwa7 => 580_000u64,
        }),
        23_500_000 < income <= 24_000_000 ==> basic_deduction(fy, income) == 480_000,
        24_000_000 < income <= 24_500_000 ==> basic_deduction(fy, income) == 320_000,
        24_500_000 < income <= 25_000_000 ==> basic_deduction(fy, income) == 160_000,
        income > 25_000_000 ==> basic_deduction(fy, income) == 0,
{
}

/// In every fiscal year: the reconstruction tax is 2.1% of the income tax,
/// the resident tax 10% of a nonzero taxable income plus 5,000 yen, and the
/// business tax the type's rate on business income above 290万円.
pub proof fn lemma_income_surtaxes_every_year(
    fy: FiscalYear,
    income_tax: int,
    taxable_income: int,
    business_income: int,
    business_type: BusinessType,
)
    requires
        0 <= income_tax,
        0 <= taxable_income,
        0 <= business_income,
    ensures
        reconstruction_tax_on(fy, income_tax) == income_tax * 21 / 1000,
        taxable_income == 0 ==> resident_tax_on(fy, taxable_income) == 0,
        taxable_income > 0 ==> resident_tax_on(fy, taxable_income) == taxable_income * 100 / 1000
            + 5_000,
        business_income <= 2_900_000 ==> business_tax_on(fy, business_income, business_type) == 0,
        business_income > 2_900_000 ==> business_tax_on(fy, business_income, business_type) == (
        business_income - 2_900_000) * (match business_type {
            BusinessType::Type1 => 50int,
            BusinessType::Type2 => 40int,
            BusinessType::Type3 => 50int,
            BusinessType::Type3Low => 30int,
            BusinessType::Exempt => 0int,
        }) / 1000,
{
}

/// The income tax by the bracket table, written out bracket by bracket.
pub proof fn lemma_income_tax_brackets_unfolded(fy: FiscalYear, x: int)
    requires
        0 < x <= u64::MAX,
    ensures
        income_tax_on(fy, x) == (if x <= 1_949_000 {
            bracket_tax((1_949_000u64, 50u64, 0u64), x)
        } else if x <= 3_299_000 {
            bracket_tax((3_299_000u64, 100u64, 97_500u64), x)
        } else if x <= 6_949_000 {
            bracket_tax((6_949_000u64, 200u64, 427_500u64), x)
        } else if x <= 8_999_000 {
            bracket_tax((8_999_000u64, 230u64, 636_000u64), x)
        } else if x <= 17_999_000 {
            bracket_tax((17_999_000u64, 330u64, 1_536_000u64), x)
        } else if x <= 39_999_000 {
            bracket_tax((39_999_000u64, 400u64, 2_796_000u64), x)
        } else {
            bracket_tax((u64::MAX, 450u64, 4_796_000u64), x)
        }),
{
    let t = income_tax_bracket_table(fy);
    assert(t.drop_first() =~= t.subrange(1, 7));
    assert(t.subrange(1, 7).drop_first() =~= t.subrange(2, 7));
    assert(t.subrange(2, 7).drop_first() =~= t.subrange(3, 7));
    assert(t.subrange(3, 7).drop_first() =~= t.subrange(4, 7));
    assert(t.subrange(4, 7).drop_first() =~= t.subrange(5, 7));
    assert(t.subrange(5, 7).drop_first() =~= t.subrange(6, 7));
    reveal_with_fuel(tax_by_brackets, 8);
}

/// The quick-deduction table (速算表) of both years: 5% up to 1,949,000 yen,
/// then 10% less 97,500, 20% less 427,500, 23% less 636,000, 33% less
/// 1,536,000, 40% less 2,796,000, and 45% less 4,796,000 above 39,999,000.
pub proof fn lemma_income_tax_quick_deduction(fy: FiscalYear, x: int)
    requires
        0 < x <= u64::MAX,
    ensures
        income_tax_on(fy, x) == (if x <= 1_949_000 {
                x * 50 / 1000
            } else if x <= 3_299_000 {
                x * 100 / 1000 - 97_500
            } else if x <= 6_949_000 {
                x * 200 / 1000 - 427_500
            } else if x <= 8_999_000 {
                x * 230 / 1000 - 636_000
            } else if x <= 17_999_000 {
                x * 330 / 1000 - 1_536_000
            } else if x <= 39_999_000 {
                x * 400 / 1000 - 2_796_000
            } else {
                x * 450 / 1000 - 4_796_000
            }),
        income_tax_on(FiscalYear::Reiwa6, x) == income_tax_on(FiscalYear::Reiwa7, x),
{
    lemma_income_tax_brackets_unfolded(fy, x);
    lemma_income_tax_brackets_unfolded(FiscalYear::Reiwa6, x);
    lemma_income_tax_brackets_unfolded(FiscalYear::Reiwa7, x);
}

/// Income tax takes at most half of the taxable income.
pub proof fn lemma_income_tax_at_most_half(fy: FiscalYear, x: int)
    requires
        0 <= x <= u64::MAX,
    ensures
        0 <= income_tax_on(fy, x),
        2 * income_tax_on(fy, x) <= x,
{
    if x > 0 {
        lemma_income_tax_brackets_unfolded(fy, x);
    }
}

/// One more thousand yen of taxable income never lowers the income tax.
proof fn lemma_income_tax_step(fy: FiscalYear, x: int)
    requires
        0 <= x,
        x + 1000 <= u64::MAX,
        x % 1000 == 0,
    ensures
        income_tax_on(fy, x) <= income_tax_on(fy, x + 1000),
{
    lemma_income_tax_at_most_half(fy, x + 1000);
    if x > 0 {
        lemma_income_tax_brackets_unfolded(fy, x);
        lemma_income_tax_brackets_unfolded(fy, x + 1000);
    }
}

/// Progressive taxation: on taxable incomes in whole thousands of yen (as
/// sole-proprietor taxable income always is), a larger taxable income never
/// gives a smaller income tax.
pub proof fn lemma_income_tax_monotone(fy: FiscalYear, x: int, y: int)
    requires
        0 <= x <= y <= u64::MAX,
        x % 1000 == 0,
        y % 1000 == 0,
    ensures
        income_tax_on(fy, x) <= income_tax_on(fy, y),
    decreases y - x,
{
    if x < y {
        lemma_income_tax_step(fy, x);
        lemma_income_tax_monotone(fy, x + 1000, y);
    }
}

/// The four taxes of a sole proprietor together stay within `u64`.
proof fn lemma_sole_proprietor_tax_fits(
    fy: FiscalYear,
    business_income: int,
    blue_return_etax: bool,
    business_type: BusinessType,
)
    requires
        0 <= business_income <= u64::MAX,
    ensures
        0 <= sole_proprietor_taxable(fy, business_income, blue_return_etax) <= business_income,
        sole_proprietor_taxable(fy, business_income, blue_return_etax) % 1000 == 0,
        sole_proprietor_tax_on_income(fy, business_income, blue_return_etax, business_type)
            <= u64::MAX,
        0 <= sole_proprietor_tax_on_income(fy, business_income, blue_return_etax, business_type),
{
    let taxable = sole_proprietor_taxable(fy, business_income, blue_return_etax);
    lemma_income_tax_at_most_half(fy, taxable);
    let income_tax = income_tax_on(fy, taxable);
    lemma_per_mille_bounds(income_tax, 21);
    lemma_per_mille_bounds(taxable, 100);
}

/// Calculate all taxes for a sole proprietor (default: Type1 business).
///
/// This is the main entry point for a simple tax calculation.
///
/// - `revenue`: Gross revenue (売上)
/// - `expenses`: Deductible expenses (経費)
/// - `blue_return_etax`: Whether filing blue return via e-Tax
pub fn calc_sole_proprietor(
    fy: FiscalYear,
    revenue: u64,
    expenses: u64,
    blue_return_etax: bool,
) -> (result: SolePropResult)
    ensures
        result.fiscal_year == fy,
        result.revenue == revenue,
        result.expenses == expenses,
        result.business_income == business_income_of(revenue, expenses),
        result.total_deductions == deductions_of(fy, result.business_income as int, blue_return_etax),
        result.taxable_income == taxable_income_of(
            result.business_income as int,
            result.total_deductions as int,
        ),
        result.income_tax == income_tax_on(fy, result.taxable_income as int),
        result.reconstruction_tax == reconstruction_tax_on(fy, result.income_tax as int),
        result.resident_tax == resident_tax_on(fy, result.taxable_income as int),
        result.business_tax == business_tax_on(
            fy,
            result.business_income as int,
            BusinessType::Type1,
        ),
        result.tax_sum() == sole_proprietor_tax(
            fy,
            revenue,
            expenses,
            blue_return_etax,
            BusinessType::Type1,
        ),
        result.tax_sum() <= u64::MAX,
        revenue >= expenses ==> result.business_income == revenue - expenses,
        revenue < expenses ==> result.business_income == 0,
        result.taxable_income % 1000 == 0,
        result.business_income >= result.total_deductions ==> result.taxable_income
            <= result.business_income - result.total_deductions < result.taxable_income + 1000,
        result.business_income < result.total_deductions ==> result.taxable_income == 0,
        blue_return_etax ==> result.total_deductions == basic_deduction(fy, result.business_income)
            + 650_000,
        !blue_return_etax ==> result.total_deductions == basic_deduction(
            fy,
            result.business_income,
        ),
        result.reconstruction_tax == result.income_tax * 21 / 1000,
        result.taxable_income == 0 ==> result.resident_tax == 0,
        result.taxable_income > 0 ==> result.resident_tax == result.taxable_income * 100 / 1000
            + 5_000,
{
    calc_sole_proprietor_with_options(fy, revenue, expenses, blue_return_etax, BusinessType::Type1)
}

/// Calculate all taxes with full options.
pub fn calc_sole_proprietor_with_options(
    fy: FiscalYear,
    revenue: u64,
    expenses: u64,
    blue_return_etax: bool,
    business_type: BusinessType,
) -> (result: SolePropResult)
    ensures
        result.fiscal_year == fy,
        result.revenue == revenue,
        result.expenses == expenses,
        result.business_income == business_income_of(revenue, expenses),
        result.total_deductions == deductions_of(fy, result.business_income as int, blue_return_etax),
        result.taxable_income == taxable_income_of(
            result.business_income as int,
            result.total_deductions as int,
        ),
        result.income_tax == income_tax_on(fy, result.taxable_income as int),
        result.reconstruction_tax == reconstruction_tax_on(fy, result.income_tax as int),
        result.resident_tax == resident_tax_on(fy, result.taxable_income as int),
        result.business_tax == business_tax_on(fy, result.business_income as int, business_type),
        result.tax_sum() == sole_proprietor_tax(
            fy,
            revenue,
            expenses,
            blue_return_etax,
            business_type,
        ),
        result.tax_sum() <= u64::MAX,
        revenue >= expenses ==> result.business_income == revenue - expenses,
        revenue < expenses ==> result.business_income == 0,
        result.taxable_income % 1000 == 0,
        result.business_income >= result.total_deductions ==> result.taxable_income
            <= result.business_income - result.total_deductions < result.taxable_income + 1000,
        result.business_income < result.total_deductions ==> result.taxable_income == 0,
        blue_return_etax ==> result.total_deductions == basic_deduction(fy, result.business_income)
            + 650_000,
        !blue_return_etax ==> result.total_deductions == basic_deduction(
            fy,
            result.business_income,
        ),
        result.reconstruction_tax == result.income_tax * 21 / 1000,
        result.taxable_income == 0 ==> result.resident_tax == 0,
        result.taxable_income > 0 ==> result.resident_tax == result.taxable_income * 100 / 1000
            + 5_000,
{
    // 事業所得 = 売上 - 経費
    let business_income = revenue.saturating_sub(expenses);

    // 所得控除
    let basic = basic_deduction(fy, business_income);
    let blue = if blue_return_etax {
        blue_return_deduction(fy, true)
    } else {
        0
    };
    let total_deductions = basic + blue;

    // 課税所得 (1,000円未満切り捨て)
    let taxable_income = business_income.saturating_sub(total_deductions) / 1_000 * 1_000;

    // 所得税
    let income_tax = calc_income_tax(fy, taxable_income);

    // 復興特別所得税
    let reconstruction_tax = calc_reconstruction_tax(fy, income_tax);

    // 住民税 (課税所得ベース)
    let resident_tax = calc_resident_tax(fy, taxable_income);

    // 個人事業税 (事業所得ベース、青色控除前)
    let business_tax = calc_business_tax(fy, business_income, business_type);

    proof {
        lemma_sole_proprietor_tax_fits(fy, business_income as int, blue_return_etax, business_type);
    }

    SolePropResult {
        fiscal_year: fy,
        revenue,
        expenses,
        business_income,
        total_deductions,
        taxable_income,
        income_tax,
        reconstruction_tax,
        resident_tax,
        business_tax,
    }
}

/// Taxable income never falls as business income rises: the basic deduction
/// only shrinks as income grows.
proof fn lemma_taxable_monotone(fy: FiscalYear, b1: int, b2: int, blue_return_etax: bool)
    requires
        0 <= b1 <= b2 <= u64::MAX,
    ensures
        sole_proprietor_taxable(fy, b1, blue_return_etax) <= sole_proprietor_taxable(
            fy,
            b2,
            blue_return_etax,
        ),
{
    let d1 = deductions_of(fy, b1, blue_return_etax);
    let d2 = deductions_of(fy, b2, blue_return_etax);
    assert(d2 <= d1);
    let n1 = if b1 >= d1 {
        b1 - d1
    } else {
        0
    };
    let n2 = if b2 >= d2 {
        b2 - d2
    } else {
        0
    };
    assert(n1 <= n2);
    vstd::arithmetic::div_mod::lemma_div_is_ordered(n1, n2, 1000);
}

/// More business income never lowers the total tax of a sole proprietor.
pub proof fn lemma_tax_monotone_in_business_income(
    fy: FiscalYear,
    b1: int,
    b2: int,
    blue_return_etax: bool,
    business_type: BusinessType,
)
    requires
        0 <= b1 <= b2 <= u64::MAX,
    ensures
        sole_proprietor_tax_on_income(fy, b1, blue_return_etax, business_type)
            <= sole_proprietor_tax_on_income(fy, b2, blue_return_etax, business_type),
{
    let t1 = sole_proprietor_taxable(fy, b1, blue_return_etax);
    let t2 = sole_proprietor_taxable(fy, b2, blue_return_etax);
    lemma_sole_proprietor_tax_fits(fy, b1, blue_return_etax, business_type);
    lemma_sole_proprietor_tax_fits(fy, b2, blue_return_etax, business_type);
    lemma_taxable_monotone(fy, b1, b2, blue_return_etax);
    lemma_income_tax_monotone(fy, t1, t2);
    lemma_income_tax_at_most_half(fy, t1);
    lemma_per_mille_monotone(income_tax_on(fy, t1), income_tax_on(fy, t2), 21);
    lemma_per_mille_monotone(t1, t2, 100);
    lemma_per_mille_bounds(t2, 100);
    if b1 > 2_900_000 {
        lemma_per_mille_monotone(
            b1 - 2_900_000,
            b2 - 2_900_000,
            business_type.rate() as int,
        );
    }
    if b2 > 2_900_000 {
        lemma_per_mille_bounds(b2 - 2_900_000, business_type.rate() as int);
    }
}

/// More revenue, with the same expenses, never lowers the total tax.
pub proof fn lemma_more_revenue_never_lowers_tax(
    fy: FiscalYear,
    revenue1: u64,
    revenue2: u64,
    expenses: u64,
    blue_return_etax: bool,
    business_type: BusinessType,
)
    requires
        revenue1 <= revenue2,
    ensures
        sole_proprietor_tax(fy, revenue1, expenses, blue_return_etax, business_type)
            <= sole_proprietor_tax(fy, revenue2, expenses, blue_return_etax, business_type),
{
    lemma_tax_monotone_in_business_income(
        fy,
        business_income_of(revenue1, expenses),
        business_income_of(revenue2, expenses),
        blue_return_etax,
        business_type,
    );
}

/// More expenses, with the same revenue, never raise the total tax.
pub proof fn lemma_more_expenses_never_raise_tax(
    fy: FiscalYear,
    revenue: u64,
    expenses1: u64,
    expenses2: u64,
    blue_return_etax: bool,
    business_type: BusinessType,
)
    requires
        expenses1 <= expenses2,
    ensures
        sole_proprietor_tax(fy, revenue, expenses2, blue_return_etax, business_type)
            <= sole_proprietor_tax(fy, revenue, expenses1, blue_return_etax, business_type),
{
    lemma_tax_monotone_in_business_income(
        fy,
        business_income_of(revenue, expenses2),
        business_income_of(revenue, expenses1),
        blue_return_etax,
        business_type,
    );
}

/// Without profit there is no tax: when expenses reach the revenue, the
/// business income and every one of the four taxes are zero.
pub proof fn lemma_no_profit_no_tax(
    fy: FiscalYear,
    revenue: u64,
    expenses: u64,
    blue_return_etax: bool,
    business_type: BusinessType,
)
    requires
        revenue <= expenses,
    ensures
        business_income_of(revenue, expenses) == 0,
        sole_proprietor_tax(fy, revenue, expenses, blue_return_etax, business_type) == 0,
{
    assert(sole_proprietor_taxable(fy, 0, blue_return_etax) == 0);
}

/// The 令和7年 reform only raised the basic deduction: for the same revenue,
/// expenses and options, the deductions are at least those of 令和6年 and the
/// total tax is at most that of 令和6年.
pub proof fn lemma_reiwa7_never_taxes_more_than_reiwa6(
    revenue: u64,
    expenses: u64,
    blue_return_etax: bool,
    business_type: BusinessType,
)
    ensures
        deductions_of(FiscalYear::Reiwa7, business_income_of(revenue, expenses), blue_return_etax)
            >= deductions_of(
            FiscalYear::Reiwa6,
            business_income_of(revenue, expenses),
            blue_return_etax,
        ),
        sole_proprietor_tax(FiscalYear::Reiwa7, revenue, expenses, blue_return_etax, business_type)
            <= sole_proprietor_tax(
            FiscalYear::Reiwa6,
            revenue,
            expenses,
            blue_return_etax,
            business_type,
        ),
{
    let b = business_income_of(revenue, expenses);
    let t7 = sole_proprietor_taxable(FiscalYear::Reiwa7, b, blue_return_etax);
    let t6 = sole_proprietor_taxable(FiscalYear::Reiwa6, b, blue_return_etax);
    lemma_sole_proprietor_tax_fits(FiscalYear::Reiwa7, b, blue_return_etax, business_type);
    lemma_sole_proprietor_tax_fits(FiscalYear::Reiwa6, b, blue_return_etax, business_type);
    let d7 = deductions_of(FiscalYear::Reiwa7, b, blue_return_etax);
    let d6 = deductions_of(FiscalYear::Reiwa6, b, blue_return_etax);
    assert(d6 <= d7);
    let n7 = if b >= d7 {
        b - d7
    } else {
        0
    };
    let n6 = if b >= d6 {
        b - d6
    } else {
        0
    };
    vstd::arithmetic::div_mod::lemma_div_is_ordered(n7, n6, 1000);
    assert(t7 <= t6);
    // Both years share the bracket table and the rates.
    assert(income_tax_on(FiscalYear::Reiwa7, t7) == income_tax_on(FiscalYear::Reiwa6, t7));
    lemma_income_tax_monotone(FiscalYear::Reiwa6, t7, t6);
    lemma_income_tax_at_most_half(FiscalYear::Reiwa6, t7);
    lemma_per_mille_monotone(
        income_tax_on(FiscalYear::Reiwa6, t7),
        income_tax_on(FiscalYear::Reiwa6, t6),
        21,
    );
    lemma_per_mille_monotone(t7, t6, 100);
    lemma_per_mille_bounds(t6, 100);
}

} // verus!
