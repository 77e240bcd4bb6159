//! Constructors and in-place mutators of the values a host creates and owns.
use vstd::prelude::*;

use crate::model::{Location, Skill, UserInfo, UserRecord};
use crate::store::{StoreError, TextField};
use crate::text::{arg_text, text_arg};

verus! {

/// Makes a skill from its name, given as raw bytes (`None` for a missing one);
/// fails when the name is missing or not well-formed UTF-8.
pub fn skill_new(name: Option<&[u8]>) -> (r: Result<Skill, StoreError>)
    ensures
        match arg_text(name) {
            Some(t) => r is Ok && r->Ok_0@ == t,
            None => r == Err::<Skill, StoreError>(StoreError::InvalidText(TextField::Name)),
        },
{
    let name = text_arg(name, TextField::Name)?;
    Ok(Skill { name })
}

/// The record that `user_info_new_basic` makes from well-formed text.
pub open spec fn basic_record(
    name: Seq<char>,
    location_name: Seq<char>,
    lat_bits: u32,
    long_bits: u32,
    photo: Seq<char>,
) -> UserRecord {
    UserRecord {
        name,
        location_name,
        location: Location { lat_bits, long_bits },
        photo,
        skills: Seq::empty(),
        interests: Seq::empty(),
    }
}

/// Makes a user with no skills and no interests. The text arguments are
/// checked in order (name, location name, photo) and the first missing or
/// malformed one is reported; the coordinates are stored as given.
pub fn user_info_new_basic(
    name: Option<&[u8]>,
    location_name: Option<&[u8]>,
    lat_bits: u32,
    long_bits: u32,
    photo: Option<&[u8]>,
) -> (r: Result<UserInfo, StoreError>)
    ensures
        arg_text(name) is None ==> r == Err::<UserInfo, StoreError>(
            StoreError::InvalidText(TextField::Name),
        ),
        arg_text(name) is Some && arg_text(location_name) is None ==> r == Err::<
            UserInfo,
            StoreError,
        >(StoreError::InvalidText(TextField::LocationName)),
        arg_text(name) is Some && arg_text(location_name) is Some && arg_text(photo) is None ==> r
            == Err::<UserInfo, StoreError>(StoreError::InvalidText(TextField::Photo)),
        arg_text(name) is Some && arg_text(location_name) is Some && arg_text(photo) is Some ==> r
            is Ok && r->Ok_0@ == basic_record(
            arg_text(name)->0,
            arg_text(location_name)->0,
            lat_bits,
            long_bits,
            arg_text(photo)->0,
        ),
{
    let name = text_arg(name, TextField::Name)?;
    let location_name = text_arg(location_name, TextField::LocationName)?;
    let photo = text_arg(photo, TextField::Photo)?;
    let user = UserInfo {
        name,
        location_name,
        location: Location { lat_bits, long_bits },
        photo,
        skills: Vec::new(),
        interests: Vec::new(),
    };
    assert(user@.skills =~= Seq::empty());
    assert(user@.interests =~= Seq::empty());
    Ok(user)
}

/// Appends a copy of `skill` to the user's skills.
pub fn user_info_add_skill(user: &mut UserInfo, skill: &Skill)
    ensures
        final(user)@ == (UserRecord { skills: old(user)@.skills.push(skill@), ..old(user)@ }),
{
    user.skills.push(skill.clone());
    assert(user@.skills =~= old(user)@.skills.push(skill@));
}

/// Appends a copy of `skill` to the user's interests.
pub fn user_info_add_interest(user: &mut UserInfo, skill: &Skill)
    ensures
        final(user)@ == (UserRecord { interests: old(user)@.interests.push(skill@), ..old(user)@ }),
{
    user.interests.push(skill.clone());
    assert(user@.interests =~= old(user)@.interests.push(skill@));
}

} // verus!
