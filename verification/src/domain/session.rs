//! The local household a fresh installation starts with.

use vstd::prelude::*;
use crate::ids::{new_id, uuid_v4_text};
use crate::models::category::{Category, CategoryV, TYPE_EXPENSE, TYPE_INCOME};
use crate::models::household::{
    Household, HouseholdMember, HouseholdMemberV, HouseholdV, User, UserV, ROLE_OWNER,
};
use crate::text::{opt_view, owned};

verus! {

/// Name, icon and colour of a category every new household starts with.
pub open spec fn expense_seeds() -> Seq<(Seq<char>, Seq<char>, i64)> {
    seq![
        ("Продукты"@, "shopping_cart"@, 0xFF4CAF50i64),
        ("Транспорт"@, "directions_car"@, 0xFF2196F3i64),
        ("Кафе и рестораны"@, "restaurant"@, 0xFFFF9800i64),
        ("ЖКХ"@, "home"@, 0xFF9C27B0i64),
        ("Здоровье"@, "local_hospital"@, 0xFFF44336i64),
        ("Развлечения"@, "theaters"@, 0xFFE91E63i64),
        ("Одежда"@, "checkroom"@, 0xFF00BCD4i64),
        ("Связь"@, "phone"@, 0xFF607D8Bi64),
        ("Прочее"@, "more_horiz"@, 0xFF9E9E9Ei64),
    ]
}

pub open spec fn income_seeds() -> Seq<(Seq<char>, Seq<char>, i64)> {
    seq![
        ("Зарплата"@, "work"@, 0xFF4CAF50i64),
        ("Фриланс"@, "laptop"@, 0xFF2196F3i64),
        ("Кэшбэк"@, "card_giftcard"@, 0xFFFF9800i64),
        ("Прочее"@, "more_horiz"@, 0xFF9E9E9Ei64),
    ]
}

fn expense_seed_list() -> (v: Vec<(&'static str, &'static str, i64)>)
    ensures
        v@.len() == expense_seeds().len(),
        forall|i: int|
            0 <= i < v@.len() ==> (#[trigger] v@[i].0@, v@[i].1@, v@[i].2) == expense_seeds()[i],
{
    vec![
        ("Продукты", "shopping_cart", 0xFF4CAF50i64),
        ("Транспорт", "directions_car", 0xFF2196F3i64),
        ("Кафе и рестораны", "restaurant", 0xFFFF9800i64),
        ("ЖКХ", "home", 0xFF9C27B0i64),
        ("Здоровье", "local_hospital", 0xFFF44336i64),
        ("Развлечения", "theaters", 0xFFE91E63i64),
        ("Одежда", "checkroom", 0xFF00BCD4i64),
        ("Связь", "phone", 0xFF607D8Bi64),
        ("Прочее", "more_horiz", 0xFF9E9E9Ei64),
    ]
}

fn income_seed_list() -> (v: Vec<(&'static str, &'static str, i64)>)
    ensures
        v@.len() == income_seeds().len(),
        forall|i: int|
            0 <= i < v@.len() ==> (#[trigger] v@[i].0@, v@[i].1@, v@[i].2) == income_seeds()[i],
{
    vec![
        ("Зарплата", "work", 0xFF4CAF50i64),
        ("Фриланс", "laptop", 0xFF2196F3i64),
        ("Кэшбэк", "card_giftcard", 0xFFFF9800i64),
        ("Прочее", "more_horiz", 0xFF9E9E9Ei64),
    ]
}

/// The user of a local installation.
pub open spec fn local_user() -> UserV {
    UserV { uid: "local"@, display_name: "Я"@, email: ""@, photo_url: None }
}

/// The household of a local installation, owned by the local user.
pub open spec fn local_household(id: Seq<char>) -> HouseholdV {
    HouseholdV { id, name: "Мой кошелёк"@, owner_uid: "local"@, base_currency: "RUB"@ }
}

/// The local user's ownership of household `hid`, since `now`.
pub open spec fn local_membership(hid: Seq<char>, now: i64) -> HouseholdMemberV {
    HouseholdMemberV { household_id: hid, user_uid: "local"@, role: ROLE_OWNER@, joined_at: now }
}

/// The category made from seed `seed` at position `order` of its list.
pub open spec fn seeded_category(
    seed: (Seq<char>, Seq<char>, i64),
    order: int,
    kind: Seq<char>,
    hid: Seq<char>,
    id: Seq<char>,
    now: i64,
) -> CategoryV {
    CategoryV {
        id,
        household_id: hid,
        name: seed.0,
        category_type: kind,
        parent_id: None,
        color: seed.2,
        icon_key: seed.1,
        sort_order: order as i32,
        updated_at: now,
        is_deleted: false,
    }
}

/// Everything a fresh installation stores: the local user, a household it
/// owns, the membership, and the starting categories (expenses, then incomes).
pub struct LocalSession {
    pub user: User,
    pub household: Household,
    pub member: HouseholdMember,
    pub categories: Vec<Category>,
}

/// Whether `cats` are the starting categories of household `hid` made at `now`,
/// each under a new identifier.
pub open spec fn starting_categories(cats: Seq<Category>, hid: Seq<char>, now: i64) -> bool {
    let ne = expense_seeds().len();
    &&& cats.len() == ne + income_seeds().len()
    &&& forall|i: int|
        0 <= i < ne ==> #[trigger] cats[i]@ == seeded_category(
            expense_seeds()[i],
            i,
            TYPE_EXPENSE@,
            hid,
            cats[i].id@,
            now,
        )
    &&& forall|i: int|
        ne <= i < cats.len() ==> #[trigger] cats[i]@ == seeded_category(
            income_seeds()[i - ne],
            i - ne,
            TYPE_INCOME@,
            hid,
            cats[i].id@,
            now,
        )
    &&& forall|i: int| 0 <= i < cats.len() ==> uuid_v4_text((#[trigger] cats[i]).id@)
}

fn seed_categories(
    out: &mut Vec<Category>,
    seeds: &Vec<(&'static str, &'static str, i64)>,
    kind: &str,
    hid: &String,
    now: i64,
)
    requires
        seeds@.len() < 100,
    ensures
        final(out)@.len() == old(out)@.len() + seeds@.len(),
        forall|i: int| 0 <= i < old(out)@.len() ==> #[trigger] final(out)@[i] == old(out)@[i],
        forall|i: int|
            0 <= i < seeds@.len() ==> #[trigger] final(out)@[old(out)@.len() + i]@ == seeded_category(
                (seeds@[i].0@, seeds@[i].1@, seeds@[i].2),
                i,
                kind@,
                hid@,
                final(out)@[old(out)@.len() + i].id@,
                now,
            ),
        forall|i: int|
            0 <= i < seeds@.len() ==> uuid_v4_text(
                (#[trigger] final(out)@[old(out)@.len() + i]).id@,
            ),
{
    let ghost start = out@;
    let mut i: usize = 0;
    while i < seeds.len()
        invariant
            seeds@.len() < 100,
            i <= seeds@.len(),
            out@.len() == start.len() + i,
            forall|j: int| 0 <= j < start.len() ==> #[trigger] out@[j] == start[j],
            forall|j: int|
                0 <= j < i ==> #[trigger] out@[start.len() + j]@ == seeded_category(
                    (seeds@[j].0@, seeds@[j].1@, seeds@[j].2),
                    j,
                    kind@,
                    hid@,
                    out@[start.len() + j].id@,
                    now,
                ),
            forall|j: int| 0 <= j < i ==> uuid_v4_text((#[trigger] out@[start.len() + j]).id@),
        decreases seeds@.len() - i,
    {
        let (name, icon, color) = seeds[i];
        let c = Category {
            id: new_id(),
            household_id: hid.clone(),
            name: owned(name),
            category_type: owned(kind),
            parent_id: None,
            color,
            icon_key: owned(icon),
            sort_order: i as i32,
            updated_at: now,
            is_deleted: false,
        };
        out.push(c);
        i = i + 1;
    }
}

/// The records of a fresh installation, made at `now`, with a new household
/// identifier and a new identifier for each category.
pub fn new_local_session(now: i64) -> (s: LocalSession)
    ensures
        s.user@ == local_user(),
        s.household@ == local_household(s.household.id@),
        uuid_v4_text(s.household.id@),
        s.member@ == local_membership(s.household.id@, now),
        starting_categories(s.categories@, s.household.id@, now),
{
    let hid = new_id();
    let user = User {
        uid: owned("local"),
        display_name: owned("Я"),
        email: owned(""),
        photo_url: None,
    };
    let household = Household {
        id: hid.clone(),
        name: owned("Мой кошелёк"),
        owner_uid: owned("local"),
        base_currency: owned("RUB"),
    };
    let member = HouseholdMember {
        household_id: hid.clone(),
        user_uid: owned("local"),
        role: owned(ROLE_OWNER),
        joined_at: now,
    };
    let mut categories: Vec<Category> = Vec::new();
    let expenses = expense_seed_list();
    let incomes = income_seed_list();
    seed_categories(&mut categories, &expenses, TYPE_EXPENSE, &hid, now);
    let ghost after_expenses = categories@;
    seed_categories(&mut categories, &incomes, TYPE_INCOME, &hid, now);
    proof {
        let cats = categories@;
        let ne = expense_seeds().len();
        assert forall|i: int| 0 <= i < ne implies #[trigger] cats[i]@ == seeded_category(
            expense_seeds()[i],
            i,
            TYPE_EXPENSE@,
            hid@,
            cats[i].id@,
            now,
        ) by {
            assert(cats[i] == after_expenses[0 + i]);
        }
        assert forall|i: int| ne <= i < cats.len() implies #[trigger] cats[i]@ == seeded_category(
            income_seeds()[i - ne],
            i - ne,
            TYPE_INCOME@,
            hid@,
            cats[i].id@,
            now,
        ) by {
            assert(cats[i] == cats[ne + (i - ne)]);
        }
        assert forall|i: int| 0 <= i < cats.len() implies uuid_v4_text((#[trigger] cats[i]).id@) by {
            if i < ne {
                assert(cats[i] == after_expenses[0 + i]);
            } else {
                assert(cats[i] == cats[ne + (i - ne)]);
            }
        }
    }
    LocalSession { user, household, member, categories }
}

/// The session of an installation that already has household `hid` owned by
/// `owner` (the local user when the owner is unknown).
pub fn resume_session(hid: String, owner: Option<String>) -> (r: (String, String))
    ensures
        r.0@ == match owner {
            Some(o) => o@,
            None => "local"@,
        },
        r.1@ == hid@,
{
    let uid = match owner {
        Some(o) => o,
        None => owned("local"),
    };
    (uid, hid)
}

/// The user and household a start resumes: the stored household with its
/// owner, the local user when the owner is unknown.
pub open spec fn resume_ids(hid: Seq<char>, owner: Option<Seq<char>>) -> (Seq<char>, Seq<char>) {
    (
        match owner {
            Some(o) => o,
            None => "local"@,
        },
        hid,
    )
}

/// What starting the application does: resume the stored household, or
/// create the records of a fresh installation.
pub enum SessionStart {
    Resume(String, String),
    Create(LocalSession),
}

/// Decides the start from the stored household and its owner, if any: a
/// stored household is resumed and nothing is created; otherwise the records
/// of a fresh installation are made at `now`.
pub fn start_session(stored: Option<(String, Option<String>)>, now: i64) -> (r: SessionStart)
    ensures
        match stored {
            Some(st) => match r {
                SessionStart::Resume(u, h) => (u@, h@) == resume_ids(st.0@, opt_view(st.1)),
                SessionStart::Create(_) => false,
            },
            None => match r {
                SessionStart::Create(s) => {
                    &&& s.user@ == local_user()
                    &&& s.household@ == local_household(s.household.id@)
                    &&& uuid_v4_text(s.household.id@)
                    &&& s.member@ == local_membership(s.household.id@, now)
                    &&& starting_categories(s.categories@, s.household.id@, now)
                },
                SessionStart::Resume(_, _) => false,
            },
        },
{
    match stored {
        Some((hid, owner)) => {
            let (u, h) = resume_session(hid, owner);
            SessionStart::Resume(u, h)
        },
        None => SessionStart::Create(new_local_session(now)),
    }
}

/// The user and household a start hands to the user interface.
pub fn started_ids(start: &SessionStart) -> (r: (String, String))
    ensures
        match start {
            SessionStart::Resume(u, h) => r.0@ == u@ && r.1@ == h@,
            SessionStart::Create(s) => r.0@ == s.user.uid@ && r.1@ == s.household.id@,
        },
{
    match start {
        SessionStart::Resume(u, h) => (u.clone(), h.clone()),
        SessionStart::Create(s) => (s.user.uid.clone(), s.household.id.clone()),
    }
}

/// Starting again changes nothing: once a start has created household `hid`,
/// the next start finds it with its owner and resumes it with the same user
/// and household, creating no records.
pub proof fn law_second_start_resumes(hid: Seq<char>)
    ensures
        resume_ids(hid, Some(local_household(hid).owner_uid)) == (local_user().uid, hid),
{
}

/// A starting category takes its name, icon and colour from its seed, in that
/// order; it is a top-level category of the given type and household, sorted
/// by its position in the seed list, stamped `now` and live.
pub proof fn law_seeded_category_fields(
    seed: (Seq<char>, Seq<char>, i64),
    order: int,
    kind: Seq<char>,
    hid: Seq<char>,
    id: Seq<char>,
    now: i64,
)
    ensures
        ({
            let c = seeded_category(seed, order, kind, hid, id, now);
            &&& c.id == id
            &&& c.household_id == hid
            &&& c.name == seed.0
            &&& c.icon_key == seed.1
            &&& c.color == seed.2
            &&& c.category_type == kind
            &&& c.parent_id is None
            &&& c.sort_order == order as i32
            &&& c.updated_at == now
            &&& !c.is_deleted
        }),
{
}

} // verus!
