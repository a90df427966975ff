//! Japanese tax calculations for sole proprietors and small corporations,
//! with every amount computed in whole yen and every rate held exactly.
pub mod tax;
