use sms_db::error::Error;
use sms_db::helpers::create_update_dtos::CreateSchoolDto;
use sms_db::models::SubscriptionPlan;
use sms_db::models::SubscriptionStatus;
use sms_db::models::User;
use sms_db::models::UserStatus;
use sms_db::models::UserType;
use sms_db::queries::auth::AuthQ;
use sms_db::queries::SchoolQ;
use sms_db::queries::UserQ;
use sms_db::values::RecordId;
use sms_db::values::Table;

fn user(school: &str, role: UserType, email: Option<&str>) -> User {
    User {
        id: None,
        school_id: RecordId { table: Table::Schools, key: school.to_string() },
        user_type: role,
        first_name: "Ada".to_string(),
        last_name: "Obi".to_string(),
        email: email.map(|e| e.to_string()),
        phone_number: Some("0803".to_string()),
        password_hash: "hash".to_string(),
        status: UserStatus::Active,
        last_login: None,
        email_verified: false,
        phone_verified: false,
        created_at: 10,
        updated_at: 10,
    }
}

fn school(name: &str) -> CreateSchoolDto {
    CreateSchoolDto {
        school_name: name.to_string(),
        school_address: None,
        school_phone: None,
        school_email: None,
        subscription_plan: SubscriptionPlan::Basic,
    }
}

#[test]
fn users_are_listed_by_school_and_type() {
    let mut users = Vec::new();
    UserQ.create(&mut users, user("s1", UserType::Teacher, Some("a@x")), "u1".to_string()).unwrap();
    UserQ.create(&mut users, user("s2", UserType::Teacher, Some("b@x")), "u2".to_string()).unwrap();
    UserQ.create(&mut users, user("s1", UserType::Admin, Some("c@x")), "u3".to_string()).unwrap();
    let found = UserQ.get_by_type(&users, "s1".to_string(), UserType::Teacher);
    assert_eq!(found.len(), 1);
    assert_eq!(found[0].id.as_ref().unwrap().key, "u1");
    assert!(found.iter().all(|u| u.school_id.key == "s1"));
}

#[test]
fn a_listing_of_one_school_holds_no_user_of_another() {
    let mut users = Vec::new();
    for (i, s) in ["s1", "s2", "s1", "s3", "s2"].iter().enumerate() {
        let email = format!("u{}@x", i);
        UserQ.create(&mut users, user(s, UserType::Teacher, Some(&email)), format!("u{}", i)).unwrap();
    }
    let first = UserQ.get_teachers(&users, "s1".to_string());
    assert_eq!(first.len(), 2);
    assert!(first.iter().all(|u| u.school_id.key == "s1"));
    let second = UserQ.get_by_type(&users, "s2".to_string(), UserType::Teacher);
    assert_eq!(second.len(), 2);
    assert!(second.iter().all(|u| u.school_id.key != "s1" && u.school_id.key != "s3"));
    assert!(UserQ.get_teachers(&users, "s4".to_string()).is_empty());
}

#[test]
fn a_school_then_its_user_then_the_listing() {
    let mut schools = Vec::new();
    let mut users = Vec::new();
    let other = SchoolQ.create(&mut schools, school("Other"), "s0".to_string(), 5).unwrap().unwrap();
    UserQ.create(&mut users, user("s0", UserType::Teacher, Some("o@x")), "u0".to_string()).unwrap();
    let made = SchoolQ.create(&mut schools, school("Unity"), "s1".to_string(), 7).unwrap().unwrap();
    assert_eq!(made.school_name, "Unity");
    assert_eq!(made.subscription_status, SubscriptionStatus::Trial);
    assert_eq!(made.total_students, 0);
    assert_eq!(made.created_at, 7);
    let key = made.id.unwrap().key;
    let filed = UserQ.create(&mut users, user(&key, UserType::Teacher, Some("t@x")), "u1".to_string())
        .unwrap()
        .unwrap();
    let found = UserQ.get_by_type(&users, key.clone(), UserType::Teacher);
    assert_eq!(found.len(), 1);
    assert_eq!(found[0].id.as_ref().unwrap().key, filed.id.as_ref().unwrap().key);
    assert_eq!(found[0].email, Some("t@x".to_string()));
    assert!(found.iter().all(|u| u.school_id.key != other.id.as_ref().unwrap().key));
}

#[test]
fn a_taken_key_or_email_files_nothing() {
    let mut users = Vec::new();
    UserQ.create(&mut users, user("s1", UserType::Admin, Some("a@x")), "u1".to_string()).unwrap();
    let same_key = UserQ.create(&mut users, user("s1", UserType::Admin, Some("b@x")), "u1".to_string());
    assert!(matches!(same_key, Err(Error::Duplicate(ref k)) if k == "u1"));
    let same_email = UserQ.create(&mut users, user("s2", UserType::Admin, Some("a@x")), "u2".to_string());
    assert!(matches!(same_email, Err(Error::Duplicate(ref e)) if e == "a@x"));
    assert_eq!(users.len(), 1);
    UserQ.create(&mut users, user("s1", UserType::Admin, None), "u3".to_string()).unwrap();
    UserQ.create(&mut users, user("s1", UserType::Admin, None), "u4".to_string()).unwrap();
    assert_eq!(users.len(), 3);
}

#[test]
fn users_are_found_by_email_and_phone() {
    let mut users = Vec::new();
    UserQ.create(&mut users, user("s1", UserType::Admin, Some("a@x")), "u1".to_string()).unwrap();
    UserQ.create(&mut users, user("s1", UserType::Parent, Some("b@x")), "u2".to_string()).unwrap();
    assert_eq!(UserQ.find_by_email(&users, "b@x".to_string()).unwrap().id.unwrap().key, "u2");
    assert!(UserQ.find_by_email(&users, "c@x".to_string()).is_none());
    assert_eq!(UserQ.find_by_phone(&users, "0803".to_string()).unwrap().id.unwrap().key, "u1");
    assert!(UserQ.find_by_phone(&users, "0000".to_string()).is_none());
}

#[test]
fn only_active_teachers_teach() {
    let mut users = Vec::new();
    UserQ.create(&mut users, user("s1", UserType::Teacher, Some("a@x")), "u1".to_string()).unwrap();
    UserQ.create(&mut users, user("s1", UserType::Teacher, Some("b@x")), "u2".to_string()).unwrap();
    let changed = UserQ.update_status(&mut users, "u2".to_string(), UserStatus::Suspended, 99).unwrap();
    assert_eq!(changed.status, UserStatus::Suspended);
    assert_eq!(changed.updated_at, 99);
    assert_eq!(users[1].status, UserStatus::Suspended);
    assert_eq!(users[0].status, UserStatus::Active);
    let teachers = UserQ.get_teachers(&users, "s1".to_string());
    assert_eq!(teachers.len(), 1);
    assert_eq!(teachers[0].id.as_ref().unwrap().key, "u1");
    assert!(UserQ.update_status(&mut users, "nobody".to_string(), UserStatus::Inactive, 1).is_none());
}

#[test]
fn signing_in_is_recorded() {
    let mut users = Vec::new();
    UserQ.create(&mut users, user("s1", UserType::Teacher, Some("a@x")), "u1".to_string()).unwrap();
    let u = UserQ.update_last_login(&mut users, "u1".to_string(), 500).unwrap();
    assert_eq!(u.last_login, Some(500));
    assert_eq!(users[0].last_login, Some(500));
    assert_eq!(users[0].updated_at, 500);
    assert_eq!(users[0].created_at, 10);
}

#[test]
fn a_user_comes_with_the_school() {
    let mut schools = Vec::new();
    let mut users = Vec::new();
    SchoolQ.create(&mut schools, school("Unity"), "s1".to_string(), 7).unwrap();
    UserQ.create(&mut users, user("s1", UserType::Teacher, Some("a@x")), "u1".to_string()).unwrap();
    UserQ.create(&mut users, user("gone", UserType::Teacher, Some("b@x")), "u2".to_string()).unwrap();
    let (u, s) = UserQ.get_with_school(&users, &schools, "u1".to_string()).unwrap();
    assert_eq!(u.email, Some("a@x".to_string()));
    assert_eq!(s.unwrap().school_name, "Unity");
    let (_, none) = UserQ.get_with_school(&users, &schools, "u2".to_string()).unwrap();
    assert!(none.is_none());
    assert!(UserQ.get_with_school(&users, &schools, "u9".to_string()).is_none());
}

#[test]
fn schools_are_updated_and_listed() {
    let mut schools = Vec::new();
    SchoolQ.create(&mut schools, school("A"), "s1".to_string(), 0).unwrap();
    SchoolQ.create(&mut schools, school("B"), "s2".to_string(), 0).unwrap();
    SchoolQ.create(&mut schools, school("C"), "s3".to_string(), 0).unwrap();
    assert!(matches!(
        SchoolQ.create(&mut schools, school("D"), "s3".to_string(), 0),
        Err(Error::Duplicate(ref k)) if k == "s3"
    ));
    assert!(SchoolQ.get_active(&schools).is_empty());
    SchoolQ.update_subscription_status(&mut schools, "s2".to_string(), SubscriptionStatus::Active, 3);
    let active = SchoolQ.get_active(&schools);
    assert_eq!(active.len(), 1);
    assert_eq!(active[0].school_name, "B");
    let renamed = SchoolQ
        .update(&mut schools, "s1".to_string(), "Alpha".to_string(), Some("1 Road".to_string()), 4)
        .unwrap();
    assert_eq!(renamed.school_name, "Alpha");
    assert_eq!(SchoolQ.get_by_id(&schools, "s1".to_string()).unwrap().school_address, Some("1 Road".to_string()));
    assert!(SchoolQ.get_by_id(&schools, "s9".to_string()).is_none());
}

#[test]
fn schools_that_expire_soon_come_soonest_first() {
    let mut schools = Vec::new();
    for (k, at) in [("s1", Some(86_400 * 9)), ("s2", Some(86_400 * 3)), ("s3", None), ("s4", Some(86_400 * 11)), ("s5", Some(99)), ("s6", Some(86_400 * 10 + 100))] {
        SchoolQ.create(&mut schools, school(k), k.to_string(), 0).unwrap();
        let n = schools.len();
        schools[n - 1].subscription_expiry_date = at;
    }
    let soon = SchoolQ.get_expiring_soon(&schools, 10, 100);
    let keys: Vec<String> = soon.iter().map(|s| s.id.as_ref().unwrap().key.clone()).collect();
    assert_eq!(keys, vec!["s2", "s1", "s6"]);
    assert!(SchoolQ.get_expiring_soon(&schools, 0, 100).is_empty());
    assert_eq!(SchoolQ.get_expiring_soon(&schools, u32::MAX, i64::MAX - 5).len(), 0);
}

#[test]
fn credentials_are_checked_within_a_school() {
    let mut users = Vec::new();
    UserQ.create(&mut users, user("s1", UserType::Teacher, Some("a@x")), "u1".to_string()).unwrap();
    assert!(AuthQ::email_exists(&users, "s1".to_string(), "a@x".to_string()));
    assert!(!AuthQ::email_exists(&users, "s2".to_string(), "a@x".to_string()));
    assert!(AuthQ::phone_exists(&users, "s1".to_string(), "0803".to_string()));
    assert!(!AuthQ::phone_exists(&users, "s1".to_string(), "0804".to_string()));
    assert_eq!(AuthQ::get_password_hash(&users, "u1".to_string()), Some("hash".to_string()));
    assert_eq!(AuthQ::get_password_hash(&users, "u2".to_string()), None);
    AuthQ::update_password(&mut users, "u1".to_string(), "new".to_string(), 8).unwrap();
    assert_eq!(users[0].password_hash, "new");
    assert!(matches!(
        AuthQ::update_password(&mut users, "u2".to_string(), "new".to_string(), 8),
        Err(Error::NotFound(ref k)) if k == "u2"
    ));
    AuthQ::verify_email(&mut users, "u1".to_string(), 9).unwrap();
    AuthQ::verify_phone(&mut users, "u1".to_string(), 9).unwrap();
    assert!(users[0].email_verified && users[0].phone_verified);
    assert!(matches!(AuthQ::verify_email(&mut users, "zz".to_string(), 9), Err(Error::NotFound(_))));
    assert!(matches!(AuthQ::verify_phone(&mut users, "zz".to_string(), 9), Err(Error::NotFound(_))));
}
