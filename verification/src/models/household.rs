//! Users, households and their membership.

use vstd::prelude::*;
use crate::text::opt_view;

verus! {

#[derive(Debug, Clone)]
pub struct User {
    pub uid: String,
    pub display_name: String,
    pub email: String,
    pub photo_url: Option<String>,
}

pub struct UserV {
    pub uid: Seq<char>,
    pub display_name: Seq<char>,
    pub email: Seq<char>,
    pub photo_url: Option<Seq<char>>,
}

impl View for User {
    type V = UserV;

    open spec fn view(&self) -> UserV {
        UserV {
            uid: self.uid@,
            display_name: self.display_name@,
            email: self.email@,
            photo_url: opt_view(self.photo_url),
        }
    }
}

#[derive(Debug, Clone)]
pub struct Household {
    pub id: String,
    pub name: String,
    pub owner_uid: String,
    pub base_currency: String,
}

pub struct HouseholdV {
    pub id: Seq<char>,
    pub name: Seq<char>,
    pub owner_uid: Seq<char>,
    pub base_currency: Seq<char>,
}

impl View for Household {
    type V = HouseholdV;

    open spec fn view(&self) -> HouseholdV {
        HouseholdV {
            id: self.id@,
            name: self.name@,
            owner_uid: self.owner_uid@,
            base_currency: self.base_currency@,
        }
    }
}

#[derive(Debug, Clone)]
pub struct HouseholdMember {
    pub household_id: String,
    pub user_uid: String,
    pub role: String,
    pub joined_at: i64,
}

pub struct HouseholdMemberV {
    pub household_id: Seq<char>,
    pub user_uid: Seq<char>,
    pub role: Seq<char>,
    pub joined_at: i64,
}

impl View for HouseholdMember {
    type V = HouseholdMemberV;

    open spec fn view(&self) -> HouseholdMemberV {
        HouseholdMemberV {
            household_id: self.household_id@,
            user_uid: self.user_uid@,
            role: self.role@,
            joined_at: self.joined_at,
        }
    }
}

pub const ROLE_OWNER: &'static str = "OWNER";

pub const ROLE_MEMBER: &'static str = "MEMBER";

} // verus!
