//! Shops and payees remembered for quick entry.

use vstd::prelude::*;

verus! {

#[derive(Debug, Clone)]
pub struct Merchant {
    pub id: String,
    pub household_id: String,
    pub name: String,
    pub default_category_id: Option<String>,
    pub last_used_at: i64,
    pub updated_at: i64,
    pub is_deleted: bool,
}

} // verus!
