//! Names by which callers of the browser interface select a fiscal year
//! and a business type.
use vstd::prelude::*;

use super::tables::{BusinessType, FiscalYear};
use vstd::string::StrSliceExecFns;

verus! {

/// Whether two strings hold the same characters.
fn same_text(a: &str, b: &str) -> (eq: bool)
    ensures
        eq == (a@ == b@),
{
    let n = a.unicode_len();
    if n != b.unicode_len() {
        return false;
    }
    let mut i: usize = 0;
    while i < n
        invariant
            n == a@.len(),
            a@.len() == b@.len(),
            0 <= i <= n,
            forall|j: int| 0 <= j < i ==> a@[j] == b@[j],
        decreases n - i,
    {
        if a.get_char(i) != b.get_char(i) {
            return false;
        }
        i = i + 1;
    }
    assert(a@ =~= b@);
    true
}

/// The fiscal year a name stands for: `reiwa6` or `2024`, `reiwa7` or `2025`.
pub open spec fn fiscal_year_named(name: Seq<char>) -> Option<FiscalYear> {
    if name == "reiwa6"@ || name == "2024"@ {
        Some(FiscalYear::Reiwa6)
    } else if name == "reiwa7"@ || name == "2025"@ {
        Some(FiscalYear::Reiwa7)
    } else {
        None
    }
}

/// The business type a name stands for; any name other than `type1`,
/// `type2`, `type3`, `type3low` and `exempt` stands for `Type1`.
pub open spec fn business_type_named(name: Seq<char>) -> BusinessType {
    if name == "type2"@ {
        BusinessType::Type2
    } else if name == "type3"@ {
        BusinessType::Type3
    } else if name == "type3low"@ {
        BusinessType::Type3Low
    } else if name == "exempt"@ {
        BusinessType::Exempt
    } else {
        BusinessType::Type1
    }
}

/// Parses a fiscal year name (`reiwa6`, `2024`, `reiwa7`, `2025`);
/// `None` for any other name.
pub fn parse_fiscal_year(year: &str) -> (fy: Option<FiscalYear>)
    ensures
        fy == fiscal_year_named(year@),
{
    if same_text(year, "reiwa6") || same_text(year, "2024") {
        Some(FiscalYear::Reiwa6)
    } else if same_text(year, "reiwa7") || same_text(year, "2025") {
        Some(FiscalYear::Reiwa7)
    } else {
        None
    }
}

/// Parses a business type name; unknown names give `Type1`.
pub fn parse_business_type(btype: &str) -> (bt: BusinessType)
    ensures
        bt == business_type_named(btype@),
{
    // "type1", like any name not listed here, selects Type1.
    if same_text(btype, "type2") {
        BusinessType::Type2
    } else if same_text(btype, "type3") {
        BusinessType::Type3
    } else if same_text(btype, "type3low") {
        BusinessType::Type3Low
    } else if same_text(btype, "exempt") {
        BusinessType::Exempt
    } else {
        BusinessType::Type1
    }
}

} // verus!
