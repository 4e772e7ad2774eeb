//! Creating and editing accounts.

use vstd::prelude::*;
use crate::error::{AppError, AppErrorV};
use crate::ids::{id_or_new, uuid_v4_text};
use crate::models::account::{is_valid_type, valid_account_type, Account, AccountV};
use crate::repository::now_ms;
use crate::text::{concat_str, owned, trim, trimmed};

verus! {

/// What the user interface sends to create or edit an account.
#[derive(Debug)]
pub struct AccountInput {
    pub id: Option<String>,
    pub household_id: String,
    pub name: String,
    pub account_type: String,
    pub currency: Option<String>,
    pub balance_minor: Option<i64>,
    pub credit_limit_minor: Option<i64>,
    pub grace_period_days: Option<i32>,
    pub payment_due_day: Option<i32>,
    pub color: Option<i64>,
    pub icon_key: Option<String>,
}

/// The total balance of the active accounts of a household.
#[derive(Debug, Clone, Copy)]
pub struct TotalsResponse {
    pub total_minor: i64,
}

/// The colour of an account created without one (0xFF607D8B, opaque blue grey).
pub const DEFAULT_ACCOUNT_COLOR: i64 = 0xFF607D8B;

/// The account saved for `input` under identifier `id` at time `now`: the name
/// trimmed, currency "RUB", balance 0, colour blue grey and icon "credit_card"
/// unless given, not archived.
pub open spec fn account_for_input(input: AccountInput, id: Seq<char>, now: i64) -> AccountV {
    AccountV {
        id,
        household_id: input.household_id@,
        name: trimmed(input.name@),
        account_type: input.account_type@,
        currency: match input.currency {
            Some(c) => c@,
            None => "RUB"@,
        },
        balance_minor: match input.balance_minor {
            Some(b) => b,
            None => 0,
        },
        credit_limit_minor: input.credit_limit_minor,
        grace_period_days: input.grace_period_days,
        payment_due_day: input.payment_due_day,
        color: match input.color {
            Some(c) => c,
            None => DEFAULT_ACCOUNT_COLOR,
        },
        icon_key: match input.icon_key {
            Some(k) => k@,
            None => "credit_card"@,
        },
        is_archived: false,
        updated_at: now,
    }
}

/// The refusal of an unknown account type.
pub open spec fn invalid_account_type(t: Seq<char>) -> AppErrorV {
    AppErrorV::InvalidArg("invalid account type: "@ + t)
}

/// The account to save for `input` under `id` at `now`; an unknown type is refused.
pub fn account_from_input(input: AccountInput, id: String, now: i64) -> (r: Result<Account, AppError>)
    ensures
        r is Ok <==> valid_account_type(input.account_type@),
        r matches Ok(a) ==> a@ == account_for_input(input, id@, now),
        r matches Err(e) ==> e@ == invalid_account_type(input.account_type@),
{
    if !is_valid_type(input.account_type.as_str()) {
        return Err(AppError::InvalidArg(concat_str("invalid account type: ", input.account_type.as_str())));
    }
    let name = trim(input.name.as_str());
    Ok(
        Account {
            id,
            household_id: input.household_id,
            name,
            account_type: input.account_type,
            currency: match input.currency {
                Some(c) => c,
                None => owned("RUB"),
            },
            balance_minor: match input.balance_minor {
                Some(b) => b,
                None => 0,
            },
            credit_limit_minor: input.credit_limit_minor,
            grace_period_days: input.grace_period_days,
            payment_due_day: input.payment_due_day,
            color: match input.color {
                Some(c) => c,
                None => DEFAULT_ACCOUNT_COLOR,
            },
            icon_key: match input.icon_key {
                Some(k) => k,
                None => owned("credit_card"),
            },
            is_archived: false,
            updated_at: now,
        },
    )
}

/// The account to save for `input`: its given identifier or a new one, stamped
/// with the current time. An unknown type is refused before anything else.
pub fn prepare_account(input: AccountInput) -> (r: Result<Account, AppError>)
    ensures
        r is Ok <==> valid_account_type(input.account_type@),
        r matches Ok(a) ==> a@ == account_for_input(input, a.id@, a.updated_at),
        r matches Ok(a) ==> match input.id {
            Some(given) => a.id@ == given@,
            None => uuid_v4_text(a.id@),
        },
        r matches Err(e) ==> e@ == invalid_account_type(input.account_type@),
{
    if !is_valid_type(input.account_type.as_str()) {
        return Err(AppError::InvalidArg(concat_str("invalid account type: ", input.account_type.as_str())));
    }
    let now = now_ms();
    let given = clone_id(&input.id);
    let id = id_or_new(given);
    account_from_input(input, id, now)
}

/// A copy of an optional identifier.
pub(crate) fn clone_id(id: &Option<String>) -> (r: Option<String>)
    ensures
        match *id {
            Some(s) => r matches Some(c) && c@ == s@,
            None => r is None,
        },
{
    match id {
        Some(s) => Some(s.clone()),
        None => None,
    }
}

/// Saving an account keeps what the user entered, each in the field of the same
/// name: household, type, credit limit, grace period and payment day; the name
/// is trimmed. Currency, balance, colour and icon are the given ones, else
/// "RUB", 0, blue grey and "credit_card". The account carries its identifier,
/// is stamped `now` and is not archived.
pub proof fn law_saved_account_keeps_input(input: AccountInput, id: Seq<char>, now: i64)
    ensures
        ({
            let a = account_for_input(input, id, now);
            &&& a.id == id
            &&& a.household_id == input.household_id@
            &&& a.name == trimmed(input.name@)
            &&& a.account_type == input.account_type@
            &&& a.credit_limit_minor == input.credit_limit_minor
            &&& a.grace_period_days == input.grace_period_days
            &&& a.payment_due_day == input.payment_due_day
            &&& (match input.currency {
                Some(c) => a.currency == c@,
                None => a.currency == "RUB"@,
            })
            &&& (match input.balance_minor {
                Some(b) => a.balance_minor == b,
                None => a.balance_minor == 0,
            })
            &&& (match input.color {
                Some(c) => a.color == c,
                None => a.color == 0xFF607D8Bi64,
            })
            &&& (match input.icon_key {
                Some(k) => a.icon_key == k@,
                None => a.icon_key == "credit_card"@,
            })
            &&& !a.is_archived
            &&& a.updated_at == now
        }),
{
}

} // verus!
