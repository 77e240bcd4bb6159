use skill_directory::boundary::{skill_new, user_info_add_interest, user_info_add_skill, user_info_new_basic};
use skill_directory::model::{Location, Skill, UserInfo, UserList};
use skill_directory::ops::{
    read_all_users, user_add_interest_and_write, user_add_skill_and_write, user_add_to_store,
    user_remove_interest_and_write, user_remove_skill_and_write, StoredFile,
};
use skill_directory::store::{status_of, StoreError};

fn skill(name: &str) -> Skill {
    skill_new(Some(name.as_bytes())).expect("well-formed name")
}

fn user(name: &str) -> UserInfo {
    user_info_new_basic(Some(name.as_bytes()), Some(b"Town"), 0, 0, Some(b"p.png"))
        .expect("well-formed text")
}

fn names(v: &[Skill]) -> Vec<String> {
    v.iter().map(|s| s.name.clone()).collect()
}

fn saved(r: Result<UserList, StoreError>) -> UserList {
    match r {
        Ok(l) => l,
        Err(e) => panic!("expected a list to write back, got {:?}", e),
    }
}

#[test]
fn ada_example_scenario() {
    let ada = user_info_new_basic(
        Some(b"Ada"),
        Some(b"London"),
        51.5f32.to_bits(),
        (-0.1f32).to_bits(),
        Some(b"ada.png"),
    )
    .unwrap();
    let list = saved(user_add_to_store(StoredFile::Absent, &ada));
    let dumped = read_all_users(StoredFile::Parsed(list)).unwrap();
    assert_eq!(dumped.users.len(), 1);
    let u = &dumped.users[0];
    assert_eq!(u.name, "Ada");
    assert_eq!(u.location_name, "London");
    assert_eq!(u.photo, "ada.png");
    assert!(u.skills.is_empty());
    assert!(u.interests.is_empty());
    assert_eq!(f32::from_bits(u.location.lat_bits), 51.5);
    assert_eq!(f32::from_bits(u.location.long_bits), -0.1);

    let rust = skill("Rust");
    let list = saved(user_add_skill_and_write(StoredFile::Parsed(dumped), &ada, &rust));
    let dumped = read_all_users(StoredFile::Parsed(list)).unwrap();
    assert_eq!(names(&dumped.users[0].skills), vec!["Rust"]);

    let r = user_remove_skill_and_write(StoredFile::Parsed(dumped), &ada, &rust);
    let list = saved(r);
    assert_eq!(status_of(Ok(())), 0);
    let dumped = read_all_users(StoredFile::Parsed(list)).unwrap();
    assert_eq!(dumped.users.len(), 1);
    assert!(dumped.users[0].skills.is_empty());
}

#[test]
fn adding_same_name_twice_keeps_one_entry() {
    let first = user("Bo");
    let mut second = user("Bo");
    second.photo = "other.png".to_string();
    let list = saved(user_add_to_store(StoredFile::Absent, &first));
    let list = saved(user_add_to_store(StoredFile::Parsed(list), &second));
    assert_eq!(list.users.len(), 1);
    assert_eq!(list.users[0].photo, "p.png");
}

#[test]
fn adding_different_names_appends_in_order() {
    let list = saved(user_add_to_store(StoredFile::Absent, &user("a")));
    let list = saved(user_add_to_store(StoredFile::Parsed(list), &user("b")));
    let list = saved(user_add_to_store(StoredFile::Parsed(list), &user("A")));
    let got: Vec<String> = list.users.iter().map(|u| u.name.clone()).collect();
    assert_eq!(got, vec!["a", "b", "A"]);
}

#[test]
fn removing_absent_skill_changes_nothing() {
    let bo = user("Bo");
    let list = saved(user_add_to_store(StoredFile::Absent, &bo));
    let list = saved(user_add_skill_and_write(StoredFile::Parsed(list), &bo, &skill("Go")));
    let list = saved(user_remove_skill_and_write(StoredFile::Parsed(list), &bo, &skill("Rust")));
    assert_eq!(names(&list.users[0].skills), vec!["Go"]);
}

#[test]
fn removing_skill_present_twice_removes_both() {
    let bo = user("Bo");
    let list = saved(user_add_to_store(StoredFile::Absent, &bo));
    let list = saved(user_add_skill_and_write(StoredFile::Parsed(list), &bo, &skill("Rust")));
    let list = saved(user_add_skill_and_write(StoredFile::Parsed(list), &bo, &skill("Go")));
    let list = saved(user_add_skill_and_write(StoredFile::Parsed(list), &bo, &skill("Rust")));
    let list = saved(user_remove_skill_and_write(StoredFile::Parsed(list), &bo, &skill("Rust")));
    assert_eq!(names(&list.users[0].skills), vec!["Go"]);
    let list = saved(user_remove_skill_and_write(StoredFile::Parsed(list), &bo, &skill("Rust")));
    assert_eq!(names(&list.users[0].skills), vec!["Go"]);
}

#[test]
fn interests_are_kept_apart_from_skills() {
    let bo = user("Bo");
    let list = saved(user_add_to_store(StoredFile::Absent, &bo));
    let list = saved(user_add_interest_and_write(StoredFile::Parsed(list), &bo, &skill("Chess")));
    let list = saved(user_add_interest_and_write(StoredFile::Parsed(list), &bo, &skill("Go")));
    assert!(list.users[0].skills.is_empty());
    assert_eq!(names(&list.users[0].interests), vec!["Chess", "Go"]);
    let list = saved(user_remove_interest_and_write(StoredFile::Parsed(list), &bo, &skill("Chess")));
    assert_eq!(names(&list.users[0].interests), vec!["Go"]);
}

#[test]
fn unknown_user_is_not_found_and_nothing_is_written() {
    let bo = user("Bo");
    let list = saved(user_add_to_store(StoredFile::Absent, &bo));
    let stranger = user("Cy");
    let rust = skill("Rust");
    let r = user_add_skill_and_write(StoredFile::Parsed(list), &stranger, &rust);
    assert!(matches!(r, Err(StoreError::NotFound)));
    assert_eq!(StoreError::NotFound.code(), 4);
    assert!(matches!(
        user_add_interest_and_write(StoredFile::Absent, &stranger, &rust),
        Err(StoreError::NotFound)
    ));
    assert!(matches!(
        user_remove_skill_and_write(StoredFile::Absent, &stranger, &rust),
        Err(StoreError::NotFound)
    ));
    assert!(matches!(
        user_remove_interest_and_write(StoredFile::Absent, &stranger, &rust),
        Err(StoreError::NotFound)
    ));
}

#[test]
fn names_match_exactly() {
    let list = saved(user_add_to_store(StoredFile::Absent, &user("bo")));
    let r = user_add_skill_and_write(StoredFile::Parsed(list), &user("Bo"), &skill("Rust"));
    assert!(matches!(r, Err(StoreError::NotFound)));
}

#[test]
fn missing_file_loads_as_empty_list() {
    let list = read_all_users(StoredFile::Absent).unwrap();
    assert!(list.users.is_empty());
}

#[test]
fn unreadable_file_is_a_load_failure() {
    let r = read_all_users(StoredFile::Unreadable("expected value".to_string()));
    assert_eq!(r.unwrap_err(), StoreError::LoadFailed("expected value".to_string()));
    let r = user_add_to_store(StoredFile::Unreadable("bad".to_string()), &user("Bo"));
    let e = r.unwrap_err();
    assert_eq!(e.code(), 3);
    assert_eq!(status_of(Err(e)), 3);
    let r = user_add_skill_and_write(StoredFile::Unreadable("bad".to_string()), &user("Bo"), &skill("x"));
    assert_eq!(r.unwrap_err(), StoreError::LoadFailed("bad".to_string()));
}

#[test]
fn duplicate_names_in_file_change_the_first() {
    let mut second = user("Bo");
    second.photo = "second.png".to_string();
    let list = UserList { users: vec![user("Al"), user("Bo"), second] };
    let list = saved(user_add_skill_and_write(StoredFile::Parsed(list), &user("Bo"), &skill("Rust")));
    assert!(list.users[0].skills.is_empty());
    assert_eq!(names(&list.users[1].skills), vec!["Rust"]);
    assert!(list.users[2].skills.is_empty());
}

#[test]
fn concurrent_appends_lose_one_update() {
    let bo = user("Bo");
    let base = saved(user_add_to_store(StoredFile::Absent, &bo));
    let copy = UserList { users: base.users.iter().map(|u| u.clone()).collect() };
    let from_first = saved(user_add_skill_and_write(StoredFile::Parsed(base), &bo, &skill("Rust")));
    let from_second = saved(user_add_skill_and_write(StoredFile::Parsed(copy), &bo, &skill("Go")));
    assert_eq!(names(&from_first.users[0].skills), vec!["Rust"]);
    // The second writer saves last: the file ends with its append only.
    assert_eq!(names(&from_second.users[0].skills), vec!["Go"]);
}

#[test]
fn store_holds_copies_of_the_given_values() {
    let mut bo = user("Bo");
    let list = saved(user_add_to_store(StoredFile::Absent, &bo));
    user_info_add_skill(&mut bo, &skill("Rust"));
    assert!(list.users[0].skills.is_empty());
    assert_eq!(names(&bo.skills), vec!["Rust"]);
}

#[test]
fn status_codes_are_distinct() {
    assert_eq!(status_of(Ok(())), 0);
    assert_eq!(StoreError::NullArgument.code(), 1);
    assert_eq!(StoreError::WriteFailed("disk full".to_string()).code(), 2);
    assert_eq!(status_of(Err(StoreError::WriteFailed(String::new()))), 2);
    assert_eq!(StoreError::LoadFailed(String::new()).code(), 3);
    assert_eq!(StoreError::NotFound.code(), 4);
}

#[test]
fn location_is_stored_as_given() {
    let u = user_info_new_basic(Some(b"N"), Some(b""), f32::NAN.to_bits(), f32::INFINITY.to_bits(), Some(b""))
        .unwrap();
    assert!(f32::from_bits(u.location.lat_bits).is_nan());
    assert_eq!(u.location, Location { lat_bits: f32::NAN.to_bits(), long_bits: f32::INFINITY.to_bits() });
    let mut u = u;
    user_info_add_interest(&mut u, &skill("a"));
    user_info_add_interest(&mut u, &skill("b"));
    assert_eq!(names(&u.interests), vec!["a", "b"]);
}
