use vstd::prelude::*;

verus! {

/// A named skill (also used for interests). Two skills are equal when their
/// names are equal, byte for byte.
#[derive(Debug)]
pub struct Skill {
    pub name: String,
}

impl View for Skill {
    type V = Seq<char>;

    open spec fn view(&self) -> Seq<char> {
        self.name@
    }
}

impl Clone for Skill {
    fn clone(&self) -> (r: Skill)
        ensures
            r == *self,
    {
        Skill { name: self.name.clone() }
    }
}

/// A position. Each coordinate is a 32-bit IEEE 754 value held as its bit
/// pattern, so that any value, NaN and the infinities included, is stored and
/// compared exactly as it was given.
#[derive(Clone, Copy, Debug, PartialEq, Eq, Structural)]
pub struct Location {
    pub lat_bits: u32,
    pub long_bits: u32,
}

/// A user record.
#[derive(Debug)]
pub struct UserInfo {
    pub name: String,
    pub location_name: String,
    pub location: Location,
    pub photo: String,
    pub skills: Vec<Skill>,
    pub interests: Vec<Skill>,
}

/// What a user record holds, as mathematical values.
pub struct UserRecord {
    pub name: Seq<char>,
    pub location_name: Seq<char>,
    pub location: Location,
    pub photo: Seq<char>,
    pub skills: Seq<Seq<char>>,
    pub interests: Seq<Seq<char>>,
}

/// The names of a sequence of skills.
pub open spec fn skill_names(v: Seq<Skill>) -> Seq<Seq<char>> {
    v.map_values(|k: Skill| k@)
}

impl View for UserInfo {
    type V = UserRecord;

    open spec fn view(&self) -> UserRecord {
        UserRecord {
            name: self.name@,
            location_name: self.location_name@,
            location: self.location,
            photo: self.photo@,
            skills: skill_names(self.skills@),
            interests: skill_names(self.interests@),
        }
    }
}

/// Copies a sequence of skills, keeping order.
fn copy_skills(v: &Vec<Skill>) -> (r: Vec<Skill>)
    ensures
        r@ == v@,
{
    let mut out: Vec<Skill> = Vec::new();
    let mut i: usize = 0;
    while i < v.len()
        invariant
            i <= v.len(),
            out@ == v@.subrange(0, i as int),
        decreases v.len() - i,
    {
        out.push(v[i].clone());
        i += 1;
    }
    assert(out@ =~= v@);
    out
}

impl Clone for UserInfo {
    fn clone(&self) -> (r: UserInfo)
        ensures
            r@ == self@,
    {
        UserInfo {
            name: self.name.clone(),
            location_name: self.location_name.clone(),
            location: self.location,
            photo: self.photo.clone(),
            skills: copy_skills(&self.skills),
            interests: copy_skills(&self.interests),
        }
    }
}

/// The whole store: users in stored order. Names are kept unique by the
/// insertion operation only; a list read from elsewhere may hold repeats.
#[derive(Debug)]
pub struct UserList {
    pub users: Vec<UserInfo>,
}

impl View for UserList {
    type V = Seq<UserRecord>;

    open spec fn view(&self) -> Seq<UserRecord> {
        self.users@.map_values(|u: UserInfo| u@)
    }
}

impl UserList {
    /// The empty store.
    pub fn new() -> (r: UserList)
        ensures
            r@.len() == 0,
    {
        UserList { users: Vec::new() }
    }
}

} // verus!
