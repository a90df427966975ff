//! Tax rate tables by fiscal year.
//!
//! Each fiscal year defines its own set of tax brackets, deductions, and rates.
//! Every rate is exact and written in per-mille (thousandths of the amount):
//! `100` stands for 10%, `232` for 23.2%.
use vstd::prelude::*;

verus! {

/// Supported fiscal years.
#[derive(Debug, Clone, Copy, PartialEq, Eq, Structural)]
pub enum FiscalYear {
    /// 令和6年 (2024)
    Reiwa6,
    /// 令和7年 (2025)
    Reiwa7,
}

impl FiscalYear {
    /// Calendar year corresponding to this fiscal year.
    #[verifier::allow_in_spec]
    pub fn calendar_year(self) -> u32
        returns
            (match self {
                FiscalYear::Reiwa6 => 2024u32,
                FiscalYear::Reiwa7 => 2025u32,
            }),
    {
        match self {
            FiscalYear::Reiwa6 => 2024,
            FiscalYear::Reiwa7 => 2025,
        }
    }

    /// Human-readable name of the fiscal year, era name and calendar year.
    pub fn label(self) -> (s: &'static str)
        ensures
            s@ == (match self {
                FiscalYear::Reiwa6 => "令和6年 (2024)"@,
                FiscalYear::Reiwa7 => "令和7年 (2025)"@,
            }),
    {
        match self {
            FiscalYear::Reiwa6 => "令和6年 (2024)",
            FiscalYear::Reiwa7 => "令和7年 (2025)",
        }
    }
}

/// Income tax bracket: (upper_limit, rate in per-mille, quick_deduction).
/// `upper_limit` is inclusive; the highest bracket uses `u64::MAX`.
pub type IncomeTaxBracket = (u64, u64, u64);

/// The income tax bracket table (所得税の速算表) of a fiscal year.
/// Both supported years share the same table.
pub open spec fn income_tax_bracket_table(fy: FiscalYear) -> Seq<IncomeTaxBracket> {
    seq![
        (1_949_000u64, 50u64, 0u64),
        (3_299_000u64, 100u64, 97_500u64),
        (6_949_000u64, 200u64, 427_500u64),
        (8_999_000u64, 230u64, 636_000u64),
        (17_999_000u64, 330u64, 1_536_000u64),
        (39_999_000u64, 400u64, 2_796_000u64),
        (u64::MAX, 450u64, 4_796_000u64),
    ]
}

/// Get income tax brackets for the given fiscal year.
///
/// Formula within a bracket: tax = taxable_income * rate / 1000 - quick_deduction.
pub fn income_tax_brackets(fy: FiscalYear) -> (brackets: Vec<IncomeTaxBracket>)
    ensures
        brackets@ == income_tax_bracket_table(fy),
{
    // 所得税率は令和6年・令和7年とも同じ
    let v: Vec<IncomeTaxBracket> = vec![
        (1_949_000, 50, 0),
        (3_299_000, 100, 97_500),
        (6_949_000, 200, 427_500),
        (8_999_000, 230, 636_000),
        (17_999_000, 330, 1_536_000),
        (39_999_000, 400, 2_796_000),
        (u64::MAX, 450, 4_796_000),
    ];
    assert(v@ =~= income_tax_bracket_table(fy));
    v
}

/// Reconstruction special income tax rate (復興特別所得税率): 2.1% of income tax.
/// Applied until 2037 (令和19年).
#[verifier::allow_in_spec]
pub fn reconstruction_tax_rate(_fy: FiscalYear) -> u64
    returns
        21u64,
{
    21
}

/// Basic deduction (基礎控除) for sole proprietors, by total income.
#[verifier::allow_in_spec]
pub fn basic_deduction(fy: FiscalYear, total_income: u64) -> u64
    returns
        (match fy {
            FiscalYear::Reiwa6 => if total_income <= 24_000_000 {
                480_000u64
            } else if total_income <= 24_500_000 {
                320_000u64
            } else if total_income <= 25_000_000 {
                160_000u64
            } else {
                0u64
            },
            FiscalYear::Reiwa7 => if total_income <= 23_500_000 {
                580_000u64
            } else if total_income <= 24_000_000 {
                480_000u64
            } else if total_income <= 24_500_000 {
                320_000u64
            } else if total_income <= 25_000_000 {
                160_000u64
            } else {
                0u64
            },
        }),
{
    match fy {
        FiscalYear::Reiwa6 => {
            // 令和6年: 合計所得2,400万以下→48万
            if total_income <= 24_000_000 {
                480_000
            } else if total_income <= 24_500_000 {
                320_000
            } else if total_income <= 25_000_000 {
                160_000
            } else {
                0
            }
        },
        FiscalYear::Reiwa7 => {
            // 令和7年: 合計所得2,350万以下→58万, 2,400万以下→48万
            if total_income <= 23_500_000 {
                580_000
            } else if total_income <= 24_000_000 {
                480_000
            } else if total_income <= 24_500_000 {
                320_000
            } else if total_income <= 25_000_000 {
                160_000
            } else {
                0
            }
        },
    }
}

/// Blue return special deduction (青色申告特別控除):
/// 65万円 with e-Tax or electronic bookkeeping, 55万円 on paper.
#[verifier::allow_in_spec]
pub fn blue_return_deduction(_fy: FiscalYear, e_tax: bool) -> u64
    returns
        (if e_tax {
            650_000u64
        } else {
            550_000u64
        }),
{
    if e_tax {
        650_000
    } else {
        550_000
    }
}

/// Resident tax rate (住民税率), per-mille.
/// 所得割: 市町村民税6% + 道府県民税4% = 10%
#[verifier::allow_in_spec]
pub fn resident_tax_rate(_fy: FiscalYear) -> u64
    returns
        100u64,
{
    100
}

/// Resident tax per-capita levy (住民税均等割).
/// 市町村民税3,000円 + 道府県民税1,000円 + 森林環境税1,000円 = 5,000円
#[verifier::allow_in_spec]
pub fn resident_tax_per_capita(fy: FiscalYear) -> u64
    returns
        5_000u64,
{
    match fy {
        FiscalYear::Reiwa6 | FiscalYear::Reiwa7 => 5_000,
    }
}

/// Business type for the individual business tax (個人事業税).
#[derive(Debug, Clone, Copy, PartialEq, Eq, Structural)]
pub enum BusinessType {
    /// 第1種事業 (物品販売業、飲食店業など): 5%
    Type1,
    /// 第2種事業 (畜産業など): 4%
    Type2,
    /// 第3種事業 (医業、弁護士業など): 5%
    Type3,
    /// 第3種事業 (あんま・マッサージ等): 3%
    Type3Low,
    /// 非課税 (農業、林業、作家など)
    Exempt,
}

impl BusinessType {
    /// Tax rate for this business type, per-mille.
    #[verifier::allow_in_spec]
    pub fn rate(self) -> u64
        returns
            (match self {
                BusinessType::Type1 => 50u64,
                BusinessType::Type2 => 40u64,
                BusinessType::Type3 => 50u64,
                BusinessType::Type3Low => 30u64,
                BusinessType::Exempt => 0u64,
            }),
    {
        match self {
            BusinessType::Type1 => 50,
            BusinessType::Type2 => 40,
            BusinessType::Type3 => 50,
            BusinessType::Type3Low => 30,
            BusinessType::Exempt => 0,
        }
    }
}

/// Business tax deduction (事業主控除): 290万円
#[verifier::allow_in_spec]
pub fn business_tax_deduction(_fy: FiscalYear) -> u64
    returns
        2_900_000u64,
{
    2_900_000
}

/// Consumption tax standard rate (消費税標準税率), per-mille.
#[verifier::allow_in_spec]
pub fn consumption_tax_rate(_fy: FiscalYear) -> u64
    returns
        100u64,
{
    100
}

/// Consumption tax reduced rate (消費税軽減税率, food/newspaper), per-mille.
#[verifier::allow_in_spec]
pub fn consumption_tax_reduced_rate(_fy: FiscalYear) -> u64
    returns
        80u64,
{
    80
}

/// Capital size of a corporation (資本金区分), which sets the flat portion
/// (均等割) of the corporate resident tax.
#[derive(Debug, Clone, Copy, PartialEq, Eq, Structural)]
pub enum CapitalTier {
    /// 資本金1,000万円以下
    Under10M,
    /// 資本金1,000万円超1億円以下
    Under100M,
    /// 資本金1億円超10億円以下
    Under1B,
    /// 資本金10億円超50億円以下
    Under5B,
    /// 資本金50億円超
    Over5B,
}

/// Taxable income up to which SMEs pay the reduced corporate tax rate: 800万円.
#[verifier::allow_in_spec]
pub fn corporate_tax_reduced_threshold(_fy: FiscalYear) -> u64
    returns
        8_000_000u64,
{
    8_000_000
}

/// Reduced corporate tax rate for SMEs (中小法人の軽減税率): 15%, per-mille.
#[verifier::allow_in_spec]
pub fn corporate_tax_reduced_rate(_fy: FiscalYear) -> u64
    returns
        150u64,
{
    150
}

/// Standard corporate tax rate (法人税の基本税率): 23.2%, per-mille.
#[verifier::allow_in_spec]
pub fn corporate_tax_standard_rate(_fy: FiscalYear) -> u64
    returns
        232u64,
{
    232
}

/// Local corporate tax rate (地方法人税率): 10.3% of corporate tax, per-mille.
#[verifier::allow_in_spec]
pub fn local_corporate_tax_rate(_fy: FiscalYear) -> u64
    returns
        103u64,
{
    103
}

/// Corporate resident tax rate on corporate tax (法人税割): 7%, per-mille.
#[verifier::allow_in_spec]
pub fn corporate_resident_tax_rate(_fy: FiscalYear) -> u64
    returns
        70u64,
{
    70
}

/// Flat portion of the corporate resident tax (法人住民税均等割):
/// the prefectural and municipal standard amounts together.
#[verifier::allow_in_spec]
pub fn corporate_resident_tax_flat(
    _fy: FiscalYear,
    capital_tier: CapitalTier,
    employees_over_50: bool,
) -> u64
    returns
        (match capital_tier {
            CapitalTier::Under10M => if employees_over_50 {
                140_000u64
            } else {
                70_000u64
            },
            CapitalTier::Under100M => if employees_over_50 {
                200_000u64
            } else {
                180_000u64
            },
            CapitalTier::Under1B => if employees_over_50 {
                530_000u64
            } else {
                290_000u64
            },
            CapitalTier::Under5B => if employees_over_50 {
                2_290_000u64
            } else {
                950_000u64
            },
            CapitalTier::Over5B => if employees_over_50 {
                3_800_000u64
            } else {
                1_210_000u64
            },
        }),
{
    match capital_tier {
        CapitalTier::Under10M => if employees_over_50 {
            140_000
        } else {
            70_000
        },
        CapitalTier::Under100M => if employees_over_50 {
            200_000
        } else {
            180_000
        },
        CapitalTier::Under1B => if employees_over_50 {
            530_000
        } else {
            290_000
        },
        CapitalTier::Under5B => if employees_over_50 {
            2_290_000
        } else {
            950_000
        },
        CapitalTier::Over5B => if employees_over_50 {
            3_800_000
        } else {
            1_210_000
        },
    }
}

/// Corporate enterprise tax brackets (法人事業税 所得割):
/// (first limit, second limit, rate up to the first, rate up to the second,
/// rate above the second), rates per-mille.
/// 400万以下 3.5%, 400万超〜800万 5.3%, 800万超 7.0%
#[verifier::allow_in_spec]
pub fn corporate_enterprise_tax_rates(_fy: FiscalYear) -> (u64, u64, u64, u64, u64)
    returns
        (4_000_000u64, 8_000_000u64, 35u64, 53u64, 70u64),
{
    (4_000_000, 8_000_000, 35, 53, 70)
}

/// Special corporate enterprise tax rate (特別法人事業税率):
/// 37% of the enterprise tax, per-mille.
#[verifier::allow_in_spec]
pub fn special_corporate_enterprise_tax_rate(_fy: FiscalYear) -> u64
    returns
        370u64,
{
    370
}

} // verus!
