//! Japanese tax calculation modules.
//!
//! All calculations take a [`FiscalYear`], so rates and deductions follow
//! the legislation of that year.
pub mod consumption;
pub mod corporate;
pub mod income;
pub mod parse;
pub mod rate;
pub mod tables;

pub use tables::FiscalYear;

use vstd::prelude::*;

verus! {

/// Summary of all taxes for a sole proprietor.
#[derive(Debug, Clone)]
pub struct SolePropResult {
    /// Fiscal year used for calculation.
    pub fiscal_year: FiscalYear,
    /// Gross revenue (売上).
    pub revenue: u64,
    /// Total deductible expenses (経費).
    pub expenses: u64,
    /// Business income before deductions (事業所得).
    pub business_income: u64,
    /// Total personal deductions applied (所得控除合計).
    pub total_deductions: u64,
    /// Taxable income (課税所得).
    pub taxable_income: u64,
    /// Income tax (所得税).
    pub income_tax: u64,
    /// Reconstruction special income tax (復興特別所得税).
    pub reconstruction_tax: u64,
    /// Resident tax (住民税).
    pub resident_tax: u64,
    /// Business tax (個人事業税).
    pub business_tax: u64,
}

impl SolePropResult {
    /// Sum of the four taxes of this result.
    pub open spec fn tax_sum(&self) -> int {
        self.income_tax + self.reconstruction_tax + self.resident_tax + self.business_tax
    }

    /// Total tax burden (税金合計).
    pub fn total(&self) -> (total: u64)
        requires
            self.tax_sum() <= u64::MAX,
        ensures
            total == self.tax_sum(),
    {
        self.income_tax + self.reconstruction_tax + self.resident_tax + self.business_tax
    }

    /// Effective tax rate (実効税率) as an exact fraction
    /// `(numerator, denominator)`: the total tax over the business income,
    /// and `(0, 1)` when there is no business income.
    pub fn effective_rate_parts(&self) -> (parts: (u64, u64))
        requires
            self.tax_sum() <= u64::MAX,
        ensures
            parts == (if self.business_income == 0 {
                (0u64, 1u64)
            } else {
                (self.tax_sum() as u64, self.business_income)
            }),
    {
        if self.business_income == 0 {
            return (0, 1);
        }
        (self.total(), self.business_income)
    }
}

/// Summary of all taxes for a small/medium corporation.
#[derive(Debug, Clone)]
pub struct CorporateResult {
    /// Fiscal year used for calculation.
    pub fiscal_year: FiscalYear,
    /// Gross revenue (売上).
    pub revenue: u64,
    /// Total deductible expenses (経費).
    pub expenses: u64,
    /// Taxable income (課税所得).
    pub taxable_income: u64,
    /// Corporate income tax (法人税).
    pub corporate_tax: u64,
    /// Local corporate tax (地方法人税).
    pub local_corporate_tax: u64,
    /// Corporate resident tax (法人住民税).
    pub corporate_resident_tax: u64,
    /// Corporate enterprise tax (法人事業税).
    pub enterprise_tax: u64,
    /// Special corporate enterprise tax (特別法人事業税).
    pub special_enterprise_tax: u64,
}

impl CorporateResult {
    /// Sum of the five taxes of this result.
    pub open spec fn tax_sum(&self) -> int {
        self.corporate_tax + self.local_corporate_tax + self.corporate_resident_tax
            + self.enterprise_tax + self.special_enterprise_tax
    }

    /// Total tax burden (税金合計).
    pub fn total(&self) -> (total: u64)
        requires
            self.tax_sum() <= u64::MAX,
        ensures
            total == self.tax_sum(),
    {
        self.corporate_tax + self.local_corporate_tax + self.corporate_resident_tax
            + self.enterprise_tax + self.special_enterprise_tax
    }

    /// Effective tax rate (実効税率) as an exact fraction
    /// `(numerator, denominator)`: the total tax over the taxable income,
    /// and `(0, 1)` when there is no taxable income.
    pub fn effective_rate_parts(&self) -> (parts: (u64, u64))
        requires
            self.tax_sum() <= u64::MAX,
        ensures
            parts == (if self.taxable_income == 0 {
                (0u64, 1u64)
            } else {
                (self.tax_sum() as u64, self.taxable_income)
            }),
    {
        if self.taxable_income == 0 {
            return (0, 1);
        }
        (self.total(), self.taxable_income)
    }
}

} // verus!
