use face_recognition::users::{Status, User, UserError, UserRegistry};

fn s(text: &str) -> String {
    text.to_string()
}

fn with_two() -> UserRegistry {
    let mut r = UserRegistry::new();
    r.create_user(s("1"), s("Ann"), s("ann@x.org"), s("111"), s("1 Road")).unwrap();
    r.create_user(s("2"), s("Ben"), s("ben@x.org"), s("222"), s("2 Road")).unwrap();
    r
}

#[test]
fn created_user_is_unverified_and_found() {
    let r = with_two();
    assert_eq!(r.len(), 2);
    assert_eq!(
        r.get_user(&s("2")),
        Some(User {
            id: s("2"),
            name: s("Ben"),
            email: s("ben@x.org"),
            phone: s("222"),
            address: s("2 Road"),
            status: Status::Unverify,
        })
    );
    assert_eq!(r.get_user(&s("3")), None);
}

#[test]
fn a_taken_id_is_refused() {
    let mut r = with_two();
    assert_eq!(
        r.create_user(s("1"), s("Other"), s("o@x.org"), s("0"), s("-")),
        Err(UserError::AlreadyExists)
    );
    assert_eq!(r.len(), 2);
    assert_eq!(r.get_user(&s("1")).unwrap().name, "Ann");
}

#[test]
fn update_renames_one_user() {
    let mut r = with_two();
    assert_eq!(r.update_user(&s("1"), s("Anna")), Ok(()));
    let u = r.get_user(&s("1")).unwrap();
    assert_eq!(u.name, "Anna");
    assert_eq!(u.email, "ann@x.org");
    assert_eq!(u.status, Status::Unverify);
    assert_eq!(r.get_user(&s("2")).unwrap().name, "Ben");
    assert_eq!(r.update_user(&s("9"), s("Nobody")), Err(UserError::NotFound));
    assert_eq!(r.len(), 2);
}

#[test]
fn delete_removes_one_user() {
    let mut r = with_two();
    assert_eq!(r.delete_user(&s("1")), Ok(()));
    assert_eq!(r.len(), 1);
    assert_eq!(r.get_user(&s("1")), None);
    assert_eq!(r.get_user(&s("2")).unwrap().name, "Ben");
    assert_eq!(r.delete_user(&s("1")), Err(UserError::NotFound));
    assert_eq!(r.len(), 1);
}

#[test]
fn a_deleted_id_is_free_again() {
    let mut r = with_two();
    r.delete_user(&s("2")).unwrap();
    assert_eq!(r.create_user(s("2"), s("Bea"), s("bea@x.org"), s("3"), s("3 Road")), Ok(()));
    assert_eq!(r.get_user(&s("2")).unwrap().name, "Bea");
    assert_eq!(r.len(), 2);
}

#[test]
fn empty_registry_finds_nobody() {
    let mut r = UserRegistry::new();
    assert_eq!(r.len(), 0);
    assert_eq!(r.get_user(&s("")), None);
    assert_eq!(r.update_user(&s(""), s("x")), Err(UserError::NotFound));
    assert_eq!(r.delete_user(&s("")), Err(UserError::NotFound));
    assert_eq!(r.create_user(s(""), s(""), s(""), s(""), s("")), Ok(()));
    assert_eq!(r.get_user(&s("")).unwrap().status, Status::Unverify);
}
