use vstd::prelude::*;

use crate::model::{skill_names, Skill, UserInfo, UserList, UserRecord};

verus! {

/// A failure of a call. Callers branch on its status code; the text some
/// variants carry is diagnostic only.
#[derive(Clone, Debug, PartialEq, Eq)]
pub enum StoreError {
    /// A required handle was missing.
    NullArgument,
    /// A text argument was missing or was not well-formed UTF-8.
    InvalidText(TextField),
    /// The store file exists but could not be read or parsed.
    LoadFailed(String),
    /// The store could not be serialized or written.
    WriteFailed(String),
    /// No user of the given name is in the store.
    NotFound,
}

/// The text argument that a constructor or the path setter found malformed.
#[derive(Clone, Copy, Debug, PartialEq, Eq, Structural)]
pub enum TextField {
    Name,
    LocationName,
    Photo,
    Path,
}

/// The status code of each failure.
pub open spec fn error_code(e: StoreError) -> i32 {
    match e {
        StoreError::NullArgument => 1,
        StoreError::InvalidText(_) => 1,
        StoreError::WriteFailed(_) => 2,
        StoreError::LoadFailed(_) => 3,
        StoreError::NotFound => 4,
    }
}

impl StoreError {
    /// The status code of this failure; every code is non-zero.
    pub fn code(&self) -> (r: i32)
        ensures
            r == error_code(*self),
            r != 0,
    {
        match self {
            StoreError::NullArgument => 1,
            StoreError::InvalidText(_) => 1,
            StoreError::WriteFailed(_) => 2,
            StoreError::LoadFailed(_) => 3,
            StoreError::NotFound => 4,
        }
    }
}

/// The status code of a finished call: zero on success.
pub fn status_of(r: Result<(), StoreError>) -> (code: i32)
    ensures
        code == match r {
            Ok(()) => 0,
            Err(e) => error_code(e),
        },
        (code == 0) == (r is Ok),
{
    match r {
        Ok(()) => 0,
        Err(e) => e.code(),
    }
}

/// The index of the first user named `name`, if any.
pub open spec fn first_match(users: Seq<UserRecord>, name: Seq<char>) -> Option<int>
    decreases users.len(),
{
    if users.len() == 0 {
        None
    } else if users[0].name == name {
        Some(0)
    } else {
        match first_match(users.drop_first(), name) {
            Some(i) => Some(i + 1),
            None => None,
        }
    }
}

/// Some user is named `name`.
pub open spec fn has_user(users: Seq<UserRecord>, name: Seq<char>) -> bool {
    exists|i: int| 0 <= i < users.len() && #[trigger] users[i].name == name
}

/// The users after adding `u` unless its name is taken.
pub open spec fn with_user(users: Seq<UserRecord>, u: UserRecord) -> Seq<UserRecord> {
    if has_user(users, u.name) {
        users
    } else {
        users.push(u)
    }
}

/// The names left after removing every occurrence of `s`.
pub open spec fn without_name(names: Seq<Seq<char>>, s: Seq<char>) -> Seq<Seq<char>> {
    names.filter(|k: Seq<char>| k != s)
}

/// Which of a user's two lists an operation reads or changes.
#[derive(Clone, Copy, Debug, PartialEq, Eq, Structural)]
pub enum Facet {
    Skills,
    Interests,
}

/// The list `f` of the user `u`.
pub open spec fn facet_of(u: UserRecord, f: Facet) -> Seq<Seq<char>> {
    match f {
        Facet::Skills => u.skills,
        Facet::Interests => u.interests,
    }
}

/// `u` with the list `f` replaced by `names`.
pub open spec fn with_facet(u: UserRecord, f: Facet, names: Seq<Seq<char>>) -> UserRecord {
    match f {
        Facet::Skills => UserRecord { skills: names, ..u },
        Facet::Interests => UserRecord { interests: names, ..u },
    }
}

/// The users after changing the list `f` of the first user named `name` by `g`.
pub open spec fn change_first(
    users: Seq<UserRecord>,
    name: Seq<char>,
    f: Facet,
    g: spec_fn(Seq<Seq<char>>) -> Seq<Seq<char>>,
) -> Seq<UserRecord> {
    match first_match(users, name) {
        Some(i) => users.update(i, with_facet(users[i], f, g(facet_of(users[i], f)))),
        None => users,
    }
}

/// The users after appending `s` to the list `f` of the first user named `name`.
pub open spec fn appended(users: Seq<UserRecord>, name: Seq<char>, f: Facet, s: Seq<char>) -> Seq<
    UserRecord,
> {
    change_first(users, name, f, |v: Seq<Seq<char>>| v.push(s))
}

/// The users after removing every `s` from the list `f` of the first user named `name`.
pub open spec fn removed(users: Seq<UserRecord>, name: Seq<char>, f: Facet, s: Seq<char>) -> Seq<
    UserRecord,
> {
    change_first(users, name, f, |v: Seq<Seq<char>>| without_name(v, s))
}

/// `first_match` finds nothing when no user has the name, and otherwise the
/// least index that has it.
pub proof fn lemma_first_match(users: Seq<UserRecord>, name: Seq<char>)
    ensures
        match first_match(users, name) {
            Some(i) => 0 <= i < users.len() && users[i].name == name && forall|j: int|
                0 <= j < i ==> users[j].name != name,
            None => !has_user(users, name),
        },
        first_match(users, name) is Some == has_user(users, name),
    decreases users.len(),
{
    if users.len() > 0 && users[0].name != name {
        let rest = users.drop_first();
        lemma_first_match(rest, name);
        if has_user(users, name) {
            let k = choose|k: int| 0 <= k < users.len() && #[trigger] users[k].name == name;
            assert(rest[k - 1].name == name);
        }
        if has_user(rest, name) {
            let k = choose|k: int| 0 <= k < rest.len() && #[trigger] rest[k].name == name;
            assert(users[k + 1].name == name);
        }
        if let Some(i) = first_match(users, name) {
            assert forall|j: int| 0 <= j < i implies users[j].name != name by {
                if j > 0 {
                    assert(users[j] == rest[j - 1]);
                }
            }
        }
    }
}

/// The sequence of names of a vector of skills with one more skill pushed.
proof fn lemma_names_push(v: Seq<Skill>, s: Skill)
    ensures
        skill_names(v.push(s)) == skill_names(v).push(s@),
{
    assert(skill_names(v.push(s)) =~= skill_names(v).push(s@));
}

/// Copies of the skills of `v` whose name differs from `name`, in order.
fn keep_other_names(v: &Vec<Skill>, name: &String) -> (r: Vec<Skill>)
    ensures
        skill_names(r@) == without_name(skill_names(v@), name@),
{
    let mut out: Vec<Skill> = Vec::new();
    let mut i: usize = 0;
    while i < v.len()
        invariant
            i <= v.len(),
            skill_names(out@) == without_name(skill_names(v@).subrange(0, i as int), name@),
        decreases v.len() - i,
    {
        let ghost pre = skill_names(v@).subrange(0, i as int);
        let ghost next = skill_names(v@).subrange(0, i + 1);
        proof {
            assert(next.drop_last() =~= pre);
            reveal(Seq::filter);
        }
        if v[i].name != *name {
            proof {
                lemma_names_push(out@, v@[i as int]);
            }
            out.push(v[i].clone());
        }
        i += 1;
    }
    assert(skill_names(v@).subrange(0, v@.len() as int) =~= skill_names(v@));
    out
}

impl UserList {
    /// The index of the first user named `name`, if any.
    pub fn find_user(&self, name: &String) -> (r: Option<usize>)
        ensures
            match r {
                Some(i) => first_match(self@, name@) == Some(i as int),
                None => first_match(self@, name@) is None,
            },
    {
        proof {
            lemma_first_match(self@, name@);
        }
        let mut i: usize = 0;
        while i < self.users.len()
            invariant
                i <= self.users.len(),
                self@.len() == self.users@.len(),
                forall|j: int| 0 <= j < i ==> #[trigger] self@[j].name != name@,
                first_match(self@, name@) is Some ==> i <= first_match(self@, name@)->0,
            decreases self.users.len() - i,
        {
            assert(self@[i as int] == self.users@[i as int]@);
            proof {
                lemma_first_match(self@, name@);
            }
            if self.users[i].name == *name {
                assert(self@[i as int].name == name@);
                assert(has_user(self@, name@));
                return Some(i);
            }
            i += 1;
        }
        None
    }

    /// Appends a copy of `user` unless a user of the same name is present.
    pub fn add_user_if_absent(&mut self, user: &UserInfo)
        ensures
            final(self)@ == with_user(old(self)@, user@),
    {
        proof {
            lemma_first_match(self@, user.name@);
        }
        match self.find_user(&user.name) {
            Some(_) => {},
            None => {
                let ghost before = self@;
                self.users.push(user.clone());
                assert(self@ =~= before.push(user@));
            },
        }
    }

    /// Appends a copy of `skill` to the list `facet` of the first user named
    /// `name`; fails with `NotFound`, changing nothing, when there is none.
    pub fn append_to_user(&mut self, name: &String, facet: Facet, skill: &Skill) -> (r: Result<
        (),
        StoreError,
    >)
        ensures
            r is Ok == has_user(old(self)@, name@),
            r is Err ==> r == Err::<(), StoreError>(StoreError::NotFound),
            final(self)@ == appended(old(self)@, name@, facet, skill@),
    {
        proof {
            lemma_first_match(self@, name@);
        }
        match self.find_user(name) {
            None => Err(StoreError::NotFound),
            Some(i) => {
                let ghost before = self@;
                let ghost old_users = self.users@;
                let u = &mut self.users[i];
                match facet {
                    Facet::Skills => {
                        proof {
                            lemma_names_push(u.skills@, *skill);
                        }
                        u.skills.push(skill.clone());
                    },
                    Facet::Interests => {
                        proof {
                            lemma_names_push(u.interests@, *skill);
                        }
                        u.interests.push(skill.clone());
                    },
                }
                assert(self@ =~= appended(before, name@, facet, skill@));
                Ok(())
            },
        }
    }

    /// Removes every skill named like `skill` from the list `facet` of the
    /// first user named `name`; fails with `NotFound`, changing nothing, when
    /// there is none. Removing a name that is not in the list succeeds.
    pub fn remove_from_user(&mut self, name: &String, facet: Facet, skill: &Skill) -> (r: Result<
        (),
        StoreError,
    >)
        ensures
            r is Ok == has_user(old(self)@, name@),
            r is Err ==> r == Err::<(), StoreError>(StoreError::NotFound),
            final(self)@ == removed(old(self)@, name@, facet, skill@),
    {
        proof {
            lemma_first_match(self@, name@);
        }
        match self.find_user(name) {
            None => Err(StoreError::NotFound),
            Some(i) => {
                let ghost before = self@;
                let u = &mut self.users[i];
                match facet {
                    Facet::Skills => {
                        u.skills = keep_other_names(&u.skills, &skill.name);
                    },
                    Facet::Interests => {
                        u.interests = keep_other_names(&u.interests, &skill.name);
                    },
                }
                assert(self@ =~= removed(before, name@, facet, skill@));
                Ok(())
            },
        }
    }
}

} // verus!
