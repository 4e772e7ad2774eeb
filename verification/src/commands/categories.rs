//! Creating and editing categories.

use vstd::prelude::*;
use crate::commands::accounts::clone_id;
use crate::error::{AppError, AppErrorV};
use crate::ids::{id_or_new, uuid_v4_text};
use crate::models::category::{is_valid_type, valid_category_type, Category, CategoryV};
use crate::repository::now_ms;
use crate::text::{concat_str, opt_view, owned, trim, trimmed};

verus! {

/// What the user interface sends to create or edit a category.
#[derive(Debug)]
pub struct CategoryInput {
    pub id: Option<String>,
    pub household_id: String,
    pub name: String,
    pub category_type: String,
    pub parent_id: Option<String>,
    pub color: Option<i64>,
    pub icon_key: Option<String>,
    pub sort_order: Option<i32>,
}

/// The colour of a category created without one (0xFF9E9E9E, opaque grey).
pub const DEFAULT_CATEGORY_COLOR: i64 = 0xFF9E9E9E;

/// The category saved for `input` under `id` at `now`: the name trimmed,
/// colour grey, icon "more_horiz" and sort order 0 unless given, not deleted.
pub open spec fn category_for_input(input: CategoryInput, id: Seq<char>, now: i64) -> CategoryV {
    CategoryV {
        id,
        household_id: input.household_id@,
        name: trimmed(input.name@),
        category_type: input.category_type@,
        parent_id: opt_view(input.parent_id),
        color: match input.color {
            Some(c) => c,
            None => DEFAULT_CATEGORY_COLOR,
        },
        icon_key: match input.icon_key {
            Some(k) => k@,
            None => "more_horiz"@,
        },
        sort_order: match input.sort_order {
            Some(o) => o,
            None => 0,
        },
        updated_at: now,
        is_deleted: false,
    }
}

pub open spec fn invalid_category_type(t: Seq<char>) -> AppErrorV {
    AppErrorV::InvalidArg("invalid category type: "@ + t)
}

/// The category to save for `input` under `id` at `now`; an unknown type is refused.
pub fn category_from_input(input: CategoryInput, id: String, now: i64) -> (r: Result<Category, AppError>)
    ensures
        r is Ok <==> valid_category_type(input.category_type@),
        r matches Ok(c) ==> c@ == category_for_input(input, id@, now),
        r matches Err(e) ==> e@ == invalid_category_type(input.category_type@),
{
    if !is_valid_type(input.category_type.as_str()) {
        return Err(AppError::InvalidArg(concat_str("invalid category type: ", input.category_type.as_str())));
    }
    let name = trim(input.name.as_str());
    Ok(
        Category {
            id,
            household_id: input.household_id,
            name,
            category_type: input.category_type,
            parent_id: input.parent_id,
            color: match input.color {
                Some(c) => c,
                None => DEFAULT_CATEGORY_COLOR,
            },
            icon_key: match input.icon_key {
                Some(k) => k,
                None => owned("more_horiz"),
            },
            sort_order: match input.sort_order {
                Some(o) => o,
                None => 0,
            },
            updated_at: now,
            is_deleted: false,
        },
    )
}

/// The category to save for `input`: its given identifier or a new one,
/// stamped with the current time. An unknown type is refused first.
pub fn prepare_category(input: CategoryInput) -> (r: Result<Category, AppError>)
    ensures
        r is Ok <==> valid_category_type(input.category_type@),
        r matches Ok(c) ==> c@ == category_for_input(input, c.id@, c.updated_at),
        r matches Ok(c) ==> match input.id {
            Some(given) => c.id@ == given@,
            None => uuid_v4_text(c.id@),
        },
        r matches Err(e) ==> e@ == invalid_category_type(input.category_type@),
{
    if !is_valid_type(input.category_type.as_str()) {
        return Err(AppError::InvalidArg(concat_str("invalid category type: ", input.category_type.as_str())));
    }
    let now = now_ms();
    let id = id_or_new(clone_id(&input.id));
    category_from_input(input, id, now)
}

/// Saving a category keeps what the user entered, each in the field of the same
/// name: household, type and parent (a subcategory stays under its parent, a
/// top-level category has none); the name is trimmed. Colour, icon and sort
/// order are the given ones, else grey, "more_horiz" and 0. The category
/// carries its identifier, is stamped `now` and is live.
pub proof fn law_saved_category_keeps_input(input: CategoryInput, id: Seq<char>, now: i64)
    ensures
        ({
            let c = category_for_input(input, id, now);
            &&& c.id == id
            &&& c.household_id == input.household_id@
            &&& c.name == trimmed(input.name@)
            &&& c.category_type == input.category_type@
            &&& c.parent_id == opt_view(input.parent_id)
            &&& (match input.color {
                Some(x) => c.color == x,
                None => c.color == 0xFF9E9E9Ei64,
            })
            &&& (match input.icon_key {
                Some(k) => c.icon_key == k@,
                None => c.icon_key == "more_horiz"@,
            })
            &&& (match input.sort_order {
                Some(o) => c.sort_order == o,
                None => c.sort_order == 0,
            })
            &&& c.updated_at == now
            &&& !c.is_deleted
        }),
{
}

} // verus!
