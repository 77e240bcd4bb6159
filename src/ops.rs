//! The store operations. Each one is a single load, an in-memory change and at
//! most one save: the caller reads the file, hands its state in, and writes
//! back the list that an operation returns; an error means nothing is written.
use vstd::prelude::*;

use crate::model::{Skill, UserInfo, UserList, UserRecord};
use crate::store::{appended, has_user, removed, with_user, Facet, StoreError};

verus! {

/// What was found at the store's path.
#[derive(Debug)]
pub enum StoredFile {
    /// Nothing is there yet.
    Absent,
    /// Something is there but could not be read or parsed; the text says why.
    Unreadable(String),
    /// A well-formed document holding this list.
    Parsed(UserList),
}

/// The users a loaded file stands for: none for a missing file, and no list at
/// all for one that could not be read.
pub open spec fn stored_users(file: StoredFile) -> Option<Seq<UserRecord>> {
    match file {
        StoredFile::Absent => Some(Seq::empty()),
        StoredFile::Unreadable(_) => None,
        StoredFile::Parsed(l) => Some(l@),
    }
}

/// The load failure reported for `file`, when there is one.
pub open spec fn load_error(file: StoredFile) -> StoreError {
    StoreError::LoadFailed(file->Unreadable_0)
}

/// A result carrying a list, as mathematical values.
pub open spec fn outcome_view(r: Result<UserList, StoreError>) -> Result<Seq<UserRecord>, StoreError> {
    match r {
        Ok(l) => Ok(l@),
        Err(e) => Err(e),
    }
}

/// What adding `u` unless its name is taken does to `users`: it always saves.
pub open spec fn add_user_outcome(users: Seq<UserRecord>, u: UserRecord) -> Result<
    Seq<UserRecord>,
    StoreError,
> {
    Ok(with_user(users, u))
}

/// What appending `s` to the list `f` of the user named `name` does to `users`.
pub open spec fn append_outcome(users: Seq<UserRecord>, name: Seq<char>, f: Facet, s: Seq<char>) -> Result<
    Seq<UserRecord>,
    StoreError,
> {
    if has_user(users, name) {
        Ok(appended(users, name, f, s))
    } else {
        Err(StoreError::NotFound)
    }
}

/// What removing every `s` from the list `f` of the user named `name` does to `users`.
pub open spec fn remove_outcome(users: Seq<UserRecord>, name: Seq<char>, f: Facet, s: Seq<char>) -> Result<
    Seq<UserRecord>,
    StoreError,
> {
    if has_user(users, name) {
        Ok(removed(users, name, f, s))
    } else {
        Err(StoreError::NotFound)
    }
}

/// Loads the store: a missing file is the empty list, an unreadable one a
/// load failure.
pub fn read_all_users(file: StoredFile) -> (r: Result<UserList, StoreError>)
    ensures
        match stored_users(file) {
            Some(users) => r is Ok && r->Ok_0@ == users,
            None => r == Err::<UserList, StoreError>(load_error(file)),
        },
{
    match file {
        StoredFile::Absent => {
            let l = UserList::new();
            assert(l@ =~= Seq::empty());
            Ok(l)
        },
        StoredFile::Unreadable(why) => Err(StoreError::LoadFailed(why)),
        StoredFile::Parsed(l) => Ok(l),
    }
}

/// Adds a copy of `user` to the loaded store unless a user of that name is
/// already there, and returns the list to write back (written even when
/// nothing changed).
pub fn user_add_to_store(file: StoredFile, user: &UserInfo) -> (r: Result<UserList, StoreError>)
    ensures
        match stored_users(file) {
            Some(users) => outcome_view(r) == add_user_outcome(users, user@),
            None => r == Err::<UserList, StoreError>(load_error(file)),
        },
{
    let mut list = read_all_users(file)?;
    list.add_user_if_absent(user);
    Ok(list)
}

fn append_and_write(file: StoredFile, user: &UserInfo, facet: Facet, skill: &Skill) -> (r: Result<
    UserList,
    StoreError,
>)
    ensures
        match stored_users(file) {
            Some(users) => outcome_view(r) == append_outcome(users, user@.name, facet, skill@),
            None => r == Err::<UserList, StoreError>(load_error(file)),
        },
{
    let mut list = read_all_users(file)?;
    list.append_to_user(&user.name, facet, skill)?;
    Ok(list)
}

fn remove_and_write(file: StoredFile, user: &UserInfo, facet: Facet, skill: &Skill) -> (r: Result<
    UserList,
    StoreError,
>)
    ensures
        match stored_users(file) {
            Some(users) => outcome_view(r) == remove_outcome(users, user@.name, facet, skill@),
            None => r == Err::<UserList, StoreError>(load_error(file)),
        },
{
    let mut list = read_all_users(file)?;
    list.remove_from_user(&user.name, facet, skill)?;
    Ok(list)
}

/// Appends a copy of `skill` to the skills of the stored user named like
/// `user`, and returns the list to write back; `NotFound` when there is none.
pub fn user_add_skill_and_write(file: StoredFile, user: &UserInfo, skill: &Skill) -> (r: Result<
    UserList,
    StoreError,
>)
    ensures
        match stored_users(file) {
            Some(users) => outcome_view(r) == append_outcome(
                users,
                user@.name,
                Facet::Skills,
                skill@,
            ),
            None => r == Err::<UserList, StoreError>(load_error(file)),
        },
{
    append_and_write(file, user, Facet::Skills, skill)
}

/// Appends a copy of `interest` to the interests of the stored user named
/// like `user`, and returns the list to write back; `NotFound` when there is none.
pub fn user_add_interest_and_write(file: StoredFile, user: &UserInfo, interest: &Skill) -> (r:
    Result<UserList, StoreError>)
    ensures
        match stored_users(file) {
            Some(users) => outcome_view(r) == append_outcome(
                users,
                user@.name,
                Facet::Interests,
                interest@,
            ),
            None => r == Err::<UserList, StoreError>(load_error(file)),
        },
{
    append_and_write(file, user, Facet::Interests, interest)
}

/// Removes every skill named like `skill` from the stored user named like
/// `user`, and returns the list to write back; `NotFound` when there is none.
pub fn user_remove_skill_and_write(file: StoredFile, user: &UserInfo, skill: &Skill) -> (r: Result<
    UserList,
    StoreError,
>)
    ensures
        match stored_users(file) {
            Some(users) => outcome_view(r) == remove_outcome(
                users,
                user@.name,
                Facet::Skills,
                skill@,
            ),
            None => r == Err::<UserList, StoreError>(load_error(file)),
        },
{
    remove_and_write(file, user, Facet::Skills, skill)
}

/// Removes every interest named like `interest` from the stored user named
/// like `user`, and returns the list to write back; `NotFound` when there is none.
pub fn user_remove_interest_and_write(file: StoredFile, user: &UserInfo, interest: &Skill) -> (r:
    Result<UserList, StoreError>)
    ensures
        match stored_users(file) {
            Some(users) => outcome_view(r) == remove_outcome(
                users,
                user@.name,
                Facet::Interests,
                interest@,
            ),
            None => r == Err::<UserList, StoreError>(load_error(file)),
        },
{
    remove_and_write(file, user, Facet::Interests, interest)
}

} // verus!
