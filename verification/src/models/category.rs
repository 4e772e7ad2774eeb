//! Income and expense categories.

use vstd::prelude::*;
use crate::text::{opt_view, str_eq};

verus! {

/// A category that operations are filed under.
#[derive(Debug, Clone)]
pub struct Category {
    pub id: String,
    pub household_id: String,
    pub name: String,
    pub category_type: String,
    pub parent_id: Option<String>,
    pub color: i64,
    pub icon_key: String,
    pub sort_order: i32,
    pub updated_at: i64,
    pub is_deleted: bool,
}

/// The abstract value of a [`Category`].
pub struct CategoryV {
    pub id: Seq<char>,
    pub household_id: Seq<char>,
    pub name: Seq<char>,
    pub category_type: Seq<char>,
    pub parent_id: Option<Seq<char>>,
    pub color: i64,
    pub icon_key: Seq<char>,
    pub sort_order: i32,
    pub updated_at: i64,
    pub is_deleted: bool,
}

impl View for Category {
    type V = CategoryV;

    open spec fn view(&self) -> CategoryV {
        CategoryV {
            id: self.id@,
            household_id: self.household_id@,
            name: self.name@,
            category_type: self.category_type@,
            parent_id: opt_view(self.parent_id),
            color: self.color,
            icon_key: self.icon_key@,
            sort_order: self.sort_order,
            updated_at: self.updated_at,
            is_deleted: self.is_deleted,
        }
    }
}

pub const TYPE_INCOME: &'static str = "INCOME";

pub const TYPE_EXPENSE: &'static str = "EXPENSE";

/// The category types the application knows.
pub open spec fn valid_category_type(t: Seq<char>) -> bool {
    t == TYPE_INCOME@ || t == TYPE_EXPENSE@
}

/// Whether `t` names a known category type.
pub fn is_valid_type(t: &str) -> (r: bool)
    ensures
        r == valid_category_type(t@),
{
    str_eq(t, TYPE_INCOME) || str_eq(t, TYPE_EXPENSE)
}

} // verus!
