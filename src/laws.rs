//! Properties of the store operations that hold for every input.
use vstd::prelude::*;

use crate::model::UserRecord;
use crate::ops::{add_user_outcome, append_outcome, remove_outcome};
use crate::store::{
    appended, facet_of, first_match, has_user, lemma_first_match, removed, with_user,
    without_name, Facet, StoreError,
};

verus! {

/// No two users share a name.
pub open spec fn names_unique(users: Seq<UserRecord>) -> bool {
    forall|i: int, j: int|
        0 <= i < users.len() && 0 <= j < users.len() && i != j ==> #[trigger] users[i].name
            != #[trigger] users[j].name
}

/// Exactly one user is named `name`.
pub open spec fn exactly_one_named(users: Seq<UserRecord>, name: Seq<char>) -> bool {
    exists|i: int|
        0 <= i < users.len() && #[trigger] users[i].name == name && forall|j: int|
            0 <= j < users.len() && #[trigger] users[j].name == name ==> j == i
}

/// Two user lists of equal length whose users have the same names in the same
/// places find the same first user for every name.
pub proof fn lemma_first_match_same_names(a: Seq<UserRecord>, b: Seq<UserRecord>, name: Seq<char>)
    requires
        a.len() == b.len(),
        forall|k: int| 0 <= k < a.len() ==> #[trigger] a[k].name == b[k].name,
    ensures
        first_match(a, name) == first_match(b, name),
    decreases a.len(),
{
    if a.len() > 0 {
        let (ra, rb) = (a.drop_first(), b.drop_first());
        assert forall|k: int| 0 <= k < ra.len() implies #[trigger] ra[k].name == rb[k].name by {
            assert(a[k + 1].name == b[k + 1].name);
        }
        lemma_first_match_same_names(ra, rb, name);
        assert(a[0].name == b[0].name);
    }
}

/// Changing one list of the first user named `name` keeps every name in place.
proof fn lemma_change_keeps_names(
    users: Seq<UserRecord>,
    changed: Seq<UserRecord>,
    name: Seq<char>,
)
    requires
        has_user(users, name),
        changed.len() == users.len(),
        forall|k: int| 0 <= k < users.len() ==> #[trigger] changed[k].name == users[k].name,
    ensures
        has_user(changed, name),
        first_match(changed, name) == first_match(users, name),
{
    lemma_first_match(users, name);
    lemma_first_match_same_names(users, changed, name);
    lemma_first_match(changed, name);
}

/// Removing a name from a list that lacks it changes nothing.
proof fn lemma_without_absent_name(v: Seq<Seq<char>>, s: Seq<char>)
    requires
        !v.contains(s),
    ensures
        without_name(v, s) == v,
    decreases v.len(),
{
    reveal(Seq::filter);
    if v.len() > 0 {
        assert(!v.drop_last().contains(s)) by {
            if v.drop_last().contains(s) {
                let k = choose|k: int| 0 <= k < v.drop_last().len() && v.drop_last()[k] == s;
                assert(v[k] == s);
            }
        }
        lemma_without_absent_name(v.drop_last(), s);
        assert(v[v.len() - 1] != s);
        assert(v.drop_last().push(v.last()) =~= v);
    }
}

/// After removing a name, the list holds no occurrence of it.
proof fn lemma_without_name_has_none(v: Seq<Seq<char>>, s: Seq<char>)
    ensures
        !without_name(v, s).contains(s),
{
    let w = without_name(v, s);
    if w.contains(s) {
        let k = choose|k: int| 0 <= k < w.len() && w[k] == s;
        v.lemma_filter_pred(|n: Seq<char>| n != s, k);
    }
}

/// Adding a user unless its name is taken, twice with users of the same name,
/// succeeds both times and the second call changes nothing. On a list with
/// unique names the result still has unique names and holds exactly one user
/// of that name.
pub proof fn lemma_add_user_twice(users: Seq<UserRecord>, u: UserRecord, v: UserRecord)
    requires
        u.name == v.name,
    ensures
        add_user_outcome(users, u) == Ok::<Seq<UserRecord>, StoreError>(with_user(users, u)),
        add_user_outcome(with_user(users, u), v) == add_user_outcome(users, u),
        names_unique(users) ==> names_unique(with_user(with_user(users, u), v)),
        names_unique(users) ==> exactly_one_named(with_user(with_user(users, u), v), u.name),
{
    let once = with_user(users, u);
    assert(has_user(once, u.name)) by {
        if !has_user(users, u.name) {
            assert(once[users.len() as int].name == u.name);
        }
    }
    assert(with_user(once, v) == once);
    if names_unique(users) {
        if !has_user(users, u.name) {
            assert forall|i: int, j: int|
                0 <= i < once.len() && 0 <= j < once.len() && i != j implies #[trigger] once[i].name
                != #[trigger] once[j].name by {
                if i < users.len() && j < users.len() {
                    assert(once[i] == users[i] && once[j] == users[j]);
                } else if i < users.len() {
                    assert(once[i] == users[i]);
                } else {
                    assert(once[j] == users[j]);
                }
            }
        }
        let i = choose|i: int| 0 <= i < once.len() && #[trigger] once[i].name == u.name;
        assert(forall|j: int|
            0 <= j < once.len() && #[trigger] once[j].name == u.name ==> j == i);
    }
}

/// Removing a skill that the found user does not have succeeds and changes nothing.
pub proof fn lemma_remove_absent_is_noop(users: Seq<UserRecord>, name: Seq<char>, f: Facet, s: Seq<char>)
    requires
        has_user(users, name),
        !facet_of(users[first_match(users, name)->0], f).contains(s),
    ensures
        remove_outcome(users, name, f, s) == Ok::<Seq<UserRecord>, StoreError>(users),
{
    lemma_first_match(users, name);
    let i = first_match(users, name)->0;
    lemma_without_absent_name(facet_of(users[i], f), s);
    assert(removed(users, name, f, s) =~= users);
}

/// Removing a skill takes out every occurrence of it in one call, so that a
/// second removal of it succeeds and changes nothing.
pub proof fn lemma_remove_takes_all(users: Seq<UserRecord>, name: Seq<char>, f: Facet, s: Seq<char>)
    requires
        has_user(users, name),
    ensures
        first_match(removed(users, name, f, s), name) == first_match(users, name),
        !facet_of(removed(users, name, f, s)[first_match(users, name)->0], f).contains(s),
        remove_outcome(removed(users, name, f, s), name, f, s) == Ok::<
            Seq<UserRecord>,
            StoreError,
        >(removed(users, name, f, s)),
{
    lemma_first_match(users, name);
    let i = first_match(users, name)->0;
    let once = removed(users, name, f, s);
    lemma_without_name_has_none(facet_of(users[i], f), s);
    lemma_change_keeps_names(users, once, name);
    lemma_remove_absent_is_noop(once, name, f, s);
}

/// A change aimed at a name that no user has fails with `NotFound`, so there
/// is no list to write back.
pub proof fn lemma_not_found_writes_nothing(
    users: Seq<UserRecord>,
    name: Seq<char>,
    f: Facet,
    s: Seq<char>,
)
    requires
        !has_user(users, name),
    ensures
        append_outcome(users, name, f, s) == Err::<Seq<UserRecord>, StoreError>(
            StoreError::NotFound,
        ),
        remove_outcome(users, name, f, s) == Err::<Seq<UserRecord>, StoreError>(
            StoreError::NotFound,
        ),
{
}

/// Two appends that both start from the same loaded list, with no lock
/// between them: the list that is written last holds its own skill on top of
/// what was loaded, and not the other append, so one update is lost.
pub proof fn lemma_last_writer_wins(
    users: Seq<UserRecord>,
    name: Seq<char>,
    f: Facet,
    a: Seq<char>,
    b: Seq<char>,
)
    requires
        has_user(users, name),
    ensures
        append_outcome(users, name, f, b) == Ok::<Seq<UserRecord>, StoreError>(
            appended(users, name, f, b),
        ),
        facet_of(appended(users, name, f, b)[first_match(users, name)->0], f) == facet_of(
            users[first_match(users, name)->0],
            f,
        ).push(b),
        appended(users, name, f, b) != appended(appended(users, name, f, a), name, f, b),
{
    lemma_first_match(users, name);
    let i = first_match(users, name)->0;
    let last = appended(users, name, f, b);
    let first = appended(users, name, f, a);
    lemma_change_keeps_names(users, first, name);
    let both = appended(first, name, f, b);
    assert(facet_of(last[i], f).len() == facet_of(users[i], f).len() + 1);
    assert(facet_of(both[i], f).len() == facet_of(users[i], f).len() + 2);
}

} // verus!
