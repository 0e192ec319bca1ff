//! The two tables the Google sign-in works on, as the library models them:
//! the stored states (each a one-time PKCE verifier with its expiry) and
//! the users with the links from Google ids to them. The database in the
//! server keeps the same rows; these models state what its statements do
//! and the laws that follow across calls.

use vstd::prelude::*;
use crate::oauth::{account_decision, oauth_account, state_is_live, OauthAccount};
use crate::text::{chars_eq, chars_of};

verus! {

// ---------------------------------------------------------------------------
// Stored states
// ---------------------------------------------------------------------------

/// A stored OAuth state: the state value, its PKCE verifier and its expiry
/// (Unix seconds).
pub struct StoredState {
    pub state: String,
    pub code_verifier: String,
    pub expires_at: i64,
}

/// The stored states, in the order they were stored.
pub struct StateTable {
    pub rows: Vec<StoredState>,
}

/// The rows that are not for the state `s`, in order.
pub open spec fn rows_without(rows: Seq<StoredState>, s: Seq<char>) -> Seq<StoredState>
    decreases rows.len(),
{
    if rows.len() == 0 {
        rows
    } else {
        let rest = rows_without(rows.drop_first(), s);
        if rows[0].state@ == s {
            rest
        } else {
            seq![rows[0]] + rest
        }
    }
}

/// The first row stored for the state `s`, if any.
pub open spec fn first_state_row(rows: Seq<StoredState>, s: Seq<char>) -> Option<StoredState>
    decreases rows.len(),
{
    if rows.len() == 0 {
        None
    } else if rows[0].state@ == s {
        Some(rows[0])
    } else {
        first_state_row(rows.drop_first(), s)
    }
}

/// The verifier that taking the state `s` at `now` hands out: that of its
/// row, while the row is live.
pub open spec fn taken_verifier(rows: Seq<StoredState>, s: Seq<char>, now: i64) -> Option<Seq<char>> {
    match first_state_row(rows, s) {
        Some(r) => if state_is_live(r.expires_at, now) {
            Some(r.code_verifier@)
        } else {
            None
        },
        None => None,
    }
}

/// Whether two strings are equal.
fn str_eq(a: &str, b: &str) -> (r: bool)
    ensures
        r == (a@ == b@),
{
    let x = chars_of(a);
    let y = chars_of(b);
    chars_eq(x.as_slice(), y.as_slice())
}

impl StateTable {
    /// An empty table.
    pub fn new() -> (t: StateTable)
        ensures
            t.rows@ == Seq::<StoredState>::empty(),
    {
        StateTable { rows: Vec::new() }
    }

    /// Stores a state when the sign-in starts.
    pub fn store(&mut self, row: StoredState)
        ensures
            final(self).rows@ == old(self).rows@.push(row),
    {
        self.rows.push(row);
    }

    /// Takes the state `state` when the callback arrives at `now`: every row
    /// for it is removed, and the verifier of its row is handed out while
    /// that row is live (`DELETE ... RETURNING` on the state).
    pub fn take(&mut self, state: &str, now: i64) -> (r: Option<String>)
        ensures
            final(self).rows@ == rows_without(old(self).rows@, state@),
            match taken_verifier(old(self).rows@, state@, now) {
                Some(v) => r matches Some(t) && t@ == v,
                None => r is None,
            },
    {
        let mut rest: Vec<StoredState> = Vec::new();
        std::mem::swap(&mut rest, &mut self.rows);
        let ghost orig = rest@;
        let mut kept: Vec<StoredState> = Vec::new();
        let mut found: Option<StoredState> = None;
        while rest.len() > 0
            invariant
                kept@ + rows_without(rest@, state@) == rows_without(orig, state@),
                first_state_row(orig, state@) == (match found {
                    Some(f) => Some(f),
                    None => first_state_row(rest@, state@),
                }),
            decreases rest@.len(),
        {
            let ghost before = rest@;
            let row = rest.remove(0);
            assert(rest@ =~= before.drop_first());
            if str_eq(row.state.as_str(), state) {
                if found.is_none() {
                    found = Some(row);
                }
            } else {
                proof {
                    assert(kept@.push(row) + rows_without(rest@, state@) =~= kept@ + (seq![row]
                        + rows_without(rest@, state@)));
                }
                kept.push(row);
            }
        }
        assert(kept@ =~= kept@ + rows_without(rest@, state@));
        self.rows = kept;
        match found {
            Some(f) => if f.expires_at > now {
                Some(f.code_verifier)
            } else {
                None
            },
            None => None,
        }
    }
}

/// A state is used once: after it is taken, no row for it is left, so a
/// second take of it at any time hands out nothing.
pub proof fn lemma_state_single_use(rows: Seq<StoredState>, s: Seq<char>, now: i64)
    ensures
        first_state_row(rows_without(rows, s), s) is None,
        taken_verifier(rows_without(rows, s), s, now) is None,
    decreases rows.len(),
{
    if rows.len() > 0 {
        lemma_state_single_use(rows.drop_first(), s, now);
        let rest = rows_without(rows.drop_first(), s);
        if rows[0].state@ != s {
            assert((seq![rows[0]] + rest).drop_first() =~= rest);
        }
    }
}

/// A state stored when none was stored for it is the one a take finds:
/// taking it before its expiry hands out its verifier.
pub proof fn lemma_stored_state_taken(rows: Seq<StoredState>, row: StoredState, now: i64)
    requires
        first_state_row(rows, row.state@) is None,
        state_is_live(row.expires_at, now),
    ensures
        first_state_row(rows.push(row), row.state@) == Some(row),
        taken_verifier(rows.push(row), row.state@, now) == Some(row.code_verifier@),
    decreases rows.len(),
{
    if rows.len() > 0 {
        lemma_stored_state_taken(rows.drop_first(), row, now);
        assert(rows.push(row).drop_first() =~= rows.drop_first().push(row));
    }
}

/// The row found for a state is for that state and is the first such row;
/// none is found exactly when no row is for the state.
pub proof fn lemma_first_state_row_is_first(rows: Seq<StoredState>, s: Seq<char>)
    ensures
        forall|r: StoredState| first_state_row(rows, s) == Some(r) ==> exists|i: int|
            0 <= i < rows.len() && #[trigger] rows[i] == r && r.state@ == s
                && forall|j: int| 0 <= j < i ==> (#[trigger] rows[j]).state@ != s,
        first_state_row(rows, s) is None <==> forall|i: int| 0 <= i < rows.len() ==> (#[trigger] rows[i]).state@ != s,
    decreases rows.len(),
{
    if rows.len() > 0 {
        let rest = rows.drop_first();
        lemma_first_state_row_is_first(rest, s);
        if rows[0].state@ == s {
            assert forall|r: StoredState| first_state_row(rows, s) == Some(r) implies exists|i: int|
                0 <= i < rows.len() && #[trigger] rows[i] == r && r.state@ == s
                    && forall|j: int| 0 <= j < i ==> (#[trigger] rows[j]).state@ != s by {
                assert(rows[0] == r);
            }
        } else {
            assert forall|r: StoredState| first_state_row(rows, s) == Some(r) implies exists|i: int|
                0 <= i < rows.len() && #[trigger] rows[i] == r && r.state@ == s
                    && forall|j: int| 0 <= j < i ==> (#[trigger] rows[j]).state@ != s by {
                let k = choose|k: int|
                    0 <= k < rest.len() && #[trigger] rest[k] == r && r.state@ == s
                        && forall|j: int| 0 <= j < k ==> (#[trigger] rest[j]).state@ != s;
                assert(rows[k + 1] == rest[k]);
                assert forall|j: int| 0 <= j < k + 1 implies (#[trigger] rows[j]).state@ != s by {
                    if j > 0 {
                        assert(rows[j] == rest[j - 1]);
                    }
                }
            }
            if forall|i: int| 0 <= i < rest.len() ==> (#[trigger] rest[i]).state@ != s {
                assert forall|i: int| 0 <= i < rows.len() implies (#[trigger] rows[i]).state@ != s by {
                    if i > 0 {
                        assert(rows[i] == rest[i - 1]);
                    }
                }
            } else {
                let k = choose|k: int| 0 <= k < rest.len() && (#[trigger] rest[k]).state@ == s;
                assert(rows[k + 1] == rest[k]);
            }
        }
    }
}

/// Taking a state removes exactly the rows for it: every row left is for
/// another state, and every row for another state is left.
pub proof fn lemma_take_keeps_other_states(rows: Seq<StoredState>, s: Seq<char>)
    ensures
        forall|i: int| 0 <= i < rows_without(rows, s).len() ==> (#[trigger] rows_without(rows, s)[i]).state@ != s,
        forall|i: int| 0 <= i < rows.len() && (#[trigger] rows[i]).state@ != s ==> rows_without(rows, s).contains(rows[i]),
        rows_without(rows, s).len() <= rows.len(),
    decreases rows.len(),
{
    if rows.len() > 0 {
        let rest = rows.drop_first();
        lemma_take_keeps_other_states(rest, s);
        let w = rows_without(rest, s);
        if rows[0].state@ == s {
            assert forall|i: int| 0 <= i < rows.len() && (#[trigger] rows[i]).state@ != s implies rows_without(rows, s).contains(rows[i]) by {
                assert(rows[i] == rest[i - 1]);
            }
        } else {
            let all = seq![rows[0]] + w;
            assert forall|i: int| 0 <= i < all.len() implies (#[trigger] all[i]).state@ != s by {
                if i > 0 {
                    assert(all[i] == w[i - 1]);
                }
            }
            assert forall|i: int| 0 <= i < rows.len() && (#[trigger] rows[i]).state@ != s implies all.contains(rows[i]) by {
                if i == 0 {
                    assert(all[0] == rows[0]);
                } else {
                    assert(rows[i] == rest[i - 1]);
                    let k = choose|k: int| 0 <= k < w.len() && w[k] == rest[i - 1];
                    assert(all[k + 1] == w[k]);
                }
            }
        }
    }
}

// ---------------------------------------------------------------------------
// Users and links from Google ids
// ---------------------------------------------------------------------------

/// A user, by e-mail.
pub struct UserRow {
    pub email: String,
    pub user_id: u128,
}

/// A link from a Google account (its `sub`) to a user.
pub struct AccountLink {
    pub provider_user_id: String,
    pub user_id: u128,
}

/// The users and the links, in the order they were added.
pub struct AccountTables {
    pub users: Vec<UserRow>,
    pub links: Vec<AccountLink>,
}

/// The user the first link for the Google id `sub` points to, if any.
pub open spec fn linked_user(links: Seq<AccountLink>, sub: Seq<char>) -> Option<u128>
    decreases links.len(),
{
    if links.len() == 0 {
        None
    } else if links[0].provider_user_id@ == sub {
        Some(links[0].user_id)
    } else {
        linked_user(links.drop_first(), sub)
    }
}

/// The first user holding the e-mail, if any.
pub open spec fn user_with_email(users: Seq<UserRow>, email: Seq<char>) -> Option<u128>
    decreases users.len(),
{
    if users.len() == 0 {
        None
    } else if users[0].email@ == email {
        Some(users[0].user_id)
    } else {
        user_with_email(users.drop_first(), email)
    }
}

/// `new` is `old` with one more link, from `sub` to `id`.
pub open spec fn link_added(old: Seq<AccountLink>, new: Seq<AccountLink>, sub: Seq<char>, id: u128) -> bool {
    &&& new.len() == old.len() + 1
    &&& new.drop_last() == old
    &&& new.last().provider_user_id@ == sub
    &&& new.last().user_id == id
}

/// `new` is `old` with one more user, `id` with the e-mail.
pub open spec fn user_added(old: Seq<UserRow>, new: Seq<UserRow>, email: Seq<char>, id: u128) -> bool {
    &&& new.len() == old.len() + 1
    &&& new.drop_last() == old
    &&& new.last().email@ == email
    &&& new.last().user_id == id
}

/// What find-or-create does to the tables and returns, by the account
/// decision on the tables before the call.
pub open spec fn find_or_create_step(
    old: AccountTables,
    new: AccountTables,
    sub: Seq<char>,
    email: Seq<char>,
    new_id: u128,
    r: u128,
) -> bool {
    match account_decision(linked_user(old.links@, sub), user_with_email(old.users@, email)) {
        OauthAccount::Linked(id) => r == id && new.users@ == old.users@ && new.links@ == old.links@,
        OauthAccount::LinkToExisting(id) => r == id && new.users@ == old.users@ && link_added(
            old.links@,
            new.links@,
            sub,
            id,
        ),
        OauthAccount::CreateNew => r == new_id && user_added(old.users@, new.users@, email, new_id)
            && link_added(old.links@, new.links@, sub, new_id),
    }
}

/// The user id linked to `sub`, found by scanning the links.
fn find_linked(links: &Vec<AccountLink>, sub: &str) -> (r: Option<u128>)
    ensures
        r == linked_user(links@, sub@),
{
    let mut i: usize = 0;
    assert(links@.subrange(0, links@.len() as int) =~= links@);
    while i < links.len()
        invariant
            i <= links@.len(),
            linked_user(links@, sub@) == linked_user(links@.subrange(i as int, links@.len() as int), sub@),
        decreases links@.len() - i,
    {
        let ghost tail = links@.subrange(i as int, links@.len() as int);
        assert(tail.drop_first() =~= links@.subrange(i + 1, links@.len() as int));
        if str_eq(links[i].provider_user_id.as_str(), sub) {
            return Some(links[i].user_id);
        }
        i = i + 1;
    }
    None
}

/// The user holding the e-mail, found by scanning the users.
fn find_by_email(users: &Vec<UserRow>, email: &str) -> (r: Option<u128>)
    ensures
        r == user_with_email(users@, email@),
{
    let mut i: usize = 0;
    assert(users@.subrange(0, users@.len() as int) =~= users@);
    while i < users.len()
        invariant
            i <= users@.len(),
            user_with_email(users@, email@) == user_with_email(users@.subrange(i as int, users@.len() as int), email@),
        decreases users@.len() - i,
    {
        let ghost tail = users@.subrange(i as int, users@.len() as int);
        assert(tail.drop_first() =~= users@.subrange(i + 1, users@.len() as int));
        if str_eq(users[i].email.as_str(), email) {
            return Some(users[i].user_id);
        }
        i = i + 1;
    }
    None
}

impl AccountTables {
    /// Find-or-create for a Google account `sub` with e-mail `email`: the
    /// linked user if there is one; else the user holding the e-mail, now
    /// linked; else a new user `new_id` (an id drawn by the caller), created
    /// and linked together.
    pub fn find_or_create(&mut self, sub: &str, email: &str, new_id: u128) -> (r: u128)
        ensures
            find_or_create_step(*old(self), *final(self), sub@, email@, new_id, r),
    {
        let linked = find_linked(&self.links, sub);
        let with_email = match linked {
            Some(_) => None,
            None => find_by_email(&self.users, email),
        };
        match oauth_account(linked, with_email) {
            OauthAccount::Linked(id) => id,
            OauthAccount::LinkToExisting(id) => {
                self.links.push(AccountLink { provider_user_id: sub.to_owned(), user_id: id });
                assert(self.links@.drop_last() =~= old(self).links@);
                id
            },
            OauthAccount::CreateNew => {
                self.users.push(UserRow { email: email.to_owned(), user_id: new_id });
                self.links.push(AccountLink { provider_user_id: sub.to_owned(), user_id: new_id });
                assert(self.users@.drop_last() =~= old(self).users@);
                assert(self.links@.drop_last() =~= old(self).links@);
                new_id
            },
        }
    }
}

/// A link added for a Google id that had none is the one found for it.
proof fn lemma_linked_after_push(links: Seq<AccountLink>, l: AccountLink, sub: Seq<char>)
    requires
        linked_user(links, sub) is None,
        l.provider_user_id@ == sub,
    ensures
        linked_user(links.push(l), sub) == Some(l.user_id),
    decreases links.len(),
{
    if links.len() > 0 {
        lemma_linked_after_push(links.drop_first(), l, sub);
        assert(links.push(l).drop_first() =~= links.drop_first().push(l));
    }
}

/// After find-or-create, the Google id is linked to the user it returned,
/// so a second call with the same Google id (whatever e-mail and new id it
/// is given) returns the same user and changes nothing.
pub proof fn lemma_find_or_create_idempotent(
    t0: AccountTables,
    t1: AccountTables,
    t2: AccountTables,
    sub: Seq<char>,
    email: Seq<char>,
    email2: Seq<char>,
    new_id: u128,
    new_id2: u128,
    r1: u128,
    r2: u128,
)
    requires
        find_or_create_step(t0, t1, sub, email, new_id, r1),
        find_or_create_step(t1, t2, sub, email2, new_id2, r2),
    ensures
        linked_user(t1.links@, sub) == Some(r1),
        r2 == r1,
        t2.users@ == t1.users@,
        t2.links@ == t1.links@,
{
    match linked_user(t0.links@, sub) {
        Some(id) => {},
        None => {
            let l = t1.links@.last();
            assert(t1.links@ =~= t0.links@.push(l));
            lemma_linked_after_push(t0.links@, l, sub);
        },
    }
}

/// The user found for an e-mail holds that e-mail, and is the first user
/// that does; no user is found exactly when no user holds the e-mail.
pub proof fn lemma_user_with_email_holds_email(users: Seq<UserRow>, email: Seq<char>)
    ensures
        forall|id: u128| user_with_email(users, email) == Some(id) ==> exists|i: int|
            0 <= i < users.len() && (#[trigger] users[i]).email@ == email && users[i].user_id == id
                && forall|j: int| 0 <= j < i ==> (#[trigger] users[j]).email@ != email,
        user_with_email(users, email) is None <==> forall|i: int| 0 <= i < users.len() ==> (#[trigger] users[i]).email@ != email,
    decreases users.len(),
{
    if users.len() > 0 {
        let rest = users.drop_first();
        lemma_user_with_email_holds_email(rest, email);
        if users[0].email@ == email {
            assert forall|id: u128| user_with_email(users, email) == Some(id) implies exists|i: int|
                0 <= i < users.len() && (#[trigger] users[i]).email@ == email && users[i].user_id == id
                    && forall|j: int| 0 <= j < i ==> (#[trigger] users[j]).email@ != email by {
                assert(users[0].email@ == email);
            }
        } else {
            assert forall|id: u128| user_with_email(users, email) == Some(id) implies exists|i: int|
                0 <= i < users.len() && (#[trigger] users[i]).email@ == email && users[i].user_id == id
                    && forall|j: int| 0 <= j < i ==> (#[trigger] users[j]).email@ != email by {
                let k = choose|k: int|
                    0 <= k < rest.len() && (#[trigger] rest[k]).email@ == email && rest[k].user_id == id
                        && forall|j: int| 0 <= j < k ==> (#[trigger] rest[j]).email@ != email;
                assert(users[k + 1] == rest[k]);
                assert forall|j: int| 0 <= j < k + 1 implies (#[trigger] users[j]).email@ != email by {
                    if j > 0 {
                        assert(users[j] == rest[j - 1]);
                    }
                }
            }
            if forall|i: int| 0 <= i < rest.len() ==> (#[trigger] rest[i]).email@ != email {
                assert forall|i: int| 0 <= i < users.len() implies (#[trigger] users[i]).email@ != email by {
                    if i > 0 {
                        assert(users[i] == rest[i - 1]);
                    }
                }
            } else {
                let k = choose|k: int| 0 <= k < rest.len() && (#[trigger] rest[k]).email@ == email;
                assert(users[k + 1] == rest[k]);
            }
        }
    }
}

/// The user found for a Google id is one a link for that id points to, the
/// first such link; no user is found exactly when no link is for the id.
pub proof fn lemma_linked_user_follows_link(links: Seq<AccountLink>, sub: Seq<char>)
    ensures
        forall|id: u128| linked_user(links, sub) == Some(id) ==> exists|i: int|
            0 <= i < links.len() && (#[trigger] links[i]).provider_user_id@ == sub && links[i].user_id == id
                && forall|j: int| 0 <= j < i ==> (#[trigger] links[j]).provider_user_id@ != sub,
        linked_user(links, sub) is None <==> forall|i: int| 0 <= i < links.len() ==> (#[trigger] links[i]).provider_user_id@ != sub,
    decreases links.len(),
{
    if links.len() > 0 {
        let rest = links.drop_first();
        lemma_linked_user_follows_link(rest, sub);
        if links[0].provider_user_id@ == sub {
            assert forall|id: u128| linked_user(links, sub) == Some(id) implies exists|i: int|
                0 <= i < links.len() && (#[trigger] links[i]).provider_user_id@ == sub && links[i].user_id == id
                    && forall|j: int| 0 <= j < i ==> (#[trigger] links[j]).provider_user_id@ != sub by {
                assert(links[0].provider_user_id@ == sub);
            }
        } else {
            assert forall|id: u128| linked_user(links, sub) == Some(id) implies exists|i: int|
                0 <= i < links.len() && (#[trigger] links[i]).provider_user_id@ == sub && links[i].user_id == id
                    && forall|j: int| 0 <= j < i ==> (#[trigger] links[j]).provider_user_id@ != sub by {
                let k = choose|k: int|
                    0 <= k < rest.len() && (#[trigger] rest[k]).provider_user_id@ == sub && rest[k].user_id == id
                        && forall|j: int| 0 <= j < k ==> (#[trigger] rest[j]).provider_user_id@ != sub;
                assert(links[k + 1] == rest[k]);
                assert forall|j: int| 0 <= j < k + 1 implies (#[trigger] links[j]).provider_user_id@ != sub by {
                    if j > 0 {
                        assert(links[j] == rest[j - 1]);
                    }
                }
            }
            if forall|i: int| 0 <= i < rest.len() ==> (#[trigger] rest[i]).provider_user_id@ != sub {
                assert forall|i: int| 0 <= i < links.len() implies (#[trigger] links[i]).provider_user_id@ != sub by {
                    if i > 0 {
                        assert(links[i] == rest[i - 1]);
                    }
                }
            } else {
                let k = choose|k: int| 0 <= k < rest.len() && (#[trigger] rest[k]).provider_user_id@ == sub;
                assert(links[k + 1] == rest[k]);
            }
        }
    }
}

} // verus!
