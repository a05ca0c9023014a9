use identitysel::{Config, Error, Event, Pallet, Referral};

fn config() -> Config {
    Config {
        max_emailsize: 100,
        max_tokenid: 32,
        max_access_token_metadata: 32,
        max_additional_fields: 100,
    }
}

fn b(s: &str) -> Vec<u8> {
    s.as_bytes().to_vec()
}

/// A registry where account 10 registered "a@b.com" and linked it to itself.
fn linked_registry() -> Pallet {
    let mut p = Pallet::new(config());
    assert!(p.request_registration_sel11(10, b("a@b.com"), b("hello123")).is_ok());
    assert!(p.set_referal_sel12(10, &b("a@b.com"), &b("referABCD")).is_ok());
    assert!(p.create_web3link_sel15(10, b("a@b.com"), 10, &b("referABCD")).is_ok());
    p
}

#[test]
fn userregistration_should_work_sela() {
    let mut p = Pallet::new(config());
    assert!(p.request_registration_sel11(10, b("a@b.com"), b("hello123")).is_ok());
    assert_eq!(p.login_access_sel12(&b("a@b.com"), &b("hello123")), Ok(()));
    assert_eq!(p.login_access_sel12(&b("a@b.com"), &b("xxhello123")), Err(Error::LoginFailed));
    assert_eq!(p.login_access_sel12(&b("a@wrong.com"), &b("hello123")), Err(Error::NoIdentity));
}

#[test]
fn changepassword_should_work_sela() {
    let mut p = Pallet::new(config());
    assert!(p.request_registration_sel11(10, b("a@b.com"), b("hello123")).is_ok());
    assert_eq!(
        p.change_password_sel13(10, &b("a@b.com"), &b("welcome123")),
        Ok(Event::IdentitySet { who: 10 })
    );
    assert_eq!(p.login_access_sel12(&b("a@b.com"), &b("welcome123")), Ok(()));
    assert_eq!(p.login_access_sel12(&b("a@b.com"), &b("hello123")), Err(Error::LoginFailed));
    assert_eq!(p.login_access_sel12(&b("a@b.com"), &b("xxhello123")), Err(Error::LoginFailed));
    assert_eq!(p.login_access_sel12(&b("a@wrong.com"), &b("welcome123")), Err(Error::NoIdentity));
}

#[test]
fn referal_setup_andusing_sela() {
    let mut p = Pallet::new(config());
    assert!(p.request_registration_sel11(10, b("a@b.com"), b("hello123")).is_ok());
    assert!(p.set_referal_sel12(10, &b("a@b.com"), &b("referABCD")).is_ok());
    assert_eq!(
        p.create_web3link_sel15(10, b("a@b.com"), 10, &b("wrongreferABCD")),
        Err(Error::ReferalFailed)
    );
    assert_eq!(
        p.create_web3link_sel15(10, b("a@b.com"), 10, &b("referABCD")),
        Ok(Event::UserWeb3registered { who: b("a@b.com") })
    );
    assert_eq!(p.studentidof(&b("a@b.com")).unwrap().owner, 10);
    assert_eq!(p.emailid(10), Some(&b("a@b.com")));
    assert_eq!(
        p.create_web3link_sel15(10, b("a@b.com"), 10, &b("referABCD")),
        Err(Error::ReferalFailed)
    );
}

#[test]
fn login_web3_method_sela() {
    let mut p = linked_registry();
    assert_eq!(
        p.login_web3_sel16(10, b("random27363")),
        Ok(Event::UserWeb3loginsuccess { who: b("a@b.com"), blocksession: b("random27363") })
    );
    assert_eq!(p.studentidof(&b("a@b.com")).unwrap().access_token, b("random27363"));
    let token = p.tokens(&b("random27363")).unwrap();
    assert_eq!(token.owner, 10);
    assert_eq!(token.metadata, b("wordpress"));
    assert_eq!(p.check_session(&b("random27363")), Ok(10));
    assert_eq!(p.login_web3_sel16(11, b("random27363")), Err(Error::NoIdentity));
    assert_eq!(p.tokens(&b("random27363")).unwrap().owner, 10);
}

#[test]
fn access_web3_method_sela() {
    let mut p = linked_registry();
    assert!(p.login_web3_sel16(10, b("random27363")).is_ok());
    assert_eq!(p.login_web3_sel16(11, b("random75553")), Err(Error::NoIdentity));
    assert_eq!(
        p.set_accessservice_sel17(10, 10, b("docsystem")),
        Ok(Event::IdentitySet { who: 10 })
    );
    assert_eq!(p.check_web3access_sel18(10, &b("docsystem")), Ok(()));
    assert_eq!(p.check_web3access_sel18(10, &b("othersystem")), Err(Error::ServiceAccessFailed));
    assert_eq!(p.check_web3access_sel18(11, &b("docsystem")), Err(Error::NoIdentity));
    assert_eq!(p.tokens(&b("random27363")).unwrap().data, b("allowed"));
    assert!(p.tokens(&b("random75553")).is_none());
}

#[test]
fn logout_web3_method_sela() {
    let mut p = linked_registry();
    assert!(p.login_web3_sel16(10, b("random27363")).is_ok());
    assert!(p.set_accessservice_sel17(10, 10, b("docsystem")).is_ok());
    assert_eq!(p.tokens(&b("random27363")).unwrap().data, b("allowed"));
    assert_eq!(p.logout_web3_sel19(11), Err(Error::NoIdentity));
    assert_eq!(p.logout_web3_sel19(10), Ok(Event::UserWeb3logout { who: 10 }));
    assert!(p.tokens(&b("random27363")).is_none());
    assert_eq!(p.check_session(&b("random27363")), Err(Error::LoginFailed));
    assert!(p.studentidof(&b("a@b.com")).unwrap().access_token.is_empty());
    assert_eq!(p.login_web3_sel16(11, b("random75553")), Err(Error::NoIdentity));
}

#[test]
fn register_then_register_again_is_refused() {
    let mut p = Pallet::new(config());
    assert!(p.request_registration_sel11(10, b("a@b.com"), b("hello123")).is_ok());
    assert_eq!(
        p.request_registration_sel11(11, b("a@b.com"), b("other")),
        Err(Error::IdentityAlreadyClaimed)
    );
    assert_eq!(p.studentidof(&b("a@b.com")).unwrap().owner, 10);
    assert_eq!(p.login_access_sel12(&b("a@b.com"), &b("hello123")), Ok(()));
}

#[test]
fn scenario_register_and_authenticate() {
    let mut p = Pallet::new(config());
    assert_eq!(
        p.request_registration_sel11(10, b("a@b.com"), b("hello123")),
        Ok(Event::UserRegistered { who: b("a@b.com") })
    );
    assert_eq!(p.login_access_sel12(&b("a@b.com"), &b("hello123")), Ok(()));
    assert_eq!(p.login_access_sel12(&b("a@b.com"), &b("wrong")), Err(Error::LoginFailed));
    assert_eq!(p.login_access_sel12(&b("x@y.com"), &b("anything")), Err(Error::NoIdentity));
}

#[test]
fn scenario_referral_link() {
    let mut p = Pallet::new(config());
    assert!(p.request_registration_sel11(7, b("a@b.com"), b("hello123")).is_ok());
    assert!(p.set_referal_sel12(7, &b("a@b.com"), &b("referABCD")).is_ok());
    assert_eq!(p.create_web3link_sel15(7, b("a@b.com"), 10, &b("wrongref")), Err(Error::ReferalFailed));
    assert!(p.create_web3link_sel15(7, b("a@b.com"), 10, &b("referABCD")).is_ok());
    let rec = p.studentidof(&b("a@b.com")).unwrap();
    assert_eq!(rec.owner, 10);
    assert_eq!(rec.referral, Referral::Consumed);
}

#[test]
fn scenario_access_service() {
    let mut p = linked_registry();
    assert!(p.login_web3_sel16(10, b("random27363")).is_ok());
    assert!(p.set_accessservice_sel17(10, 10, b("docsystem")).is_ok());
    assert_eq!(p.check_web3access_sel18(10, &b("docsystem")), Ok(()));
    assert_eq!(p.check_web3access_sel18(10, &b("othersystem")), Err(Error::ServiceAccessFailed));
}

#[test]
fn token_is_unusable_after_logout() {
    let mut p = linked_registry();
    assert!(p.login_web3_sel16(10, b("random27363")).is_ok());
    assert!(p.logout_web3_sel19(10).is_ok());
    assert_eq!(p.check_session(&b("random27363")), Err(Error::LoginFailed));
    assert!(p.tokens(&b("random27363")).is_none());
    // A second logout still succeeds; there is no token left to remove.
    assert!(p.logout_web3_sel19(10).is_ok());
    assert_eq!(p.check_session(&b("random27363")), Err(Error::LoginFailed));
}

#[test]
fn rotation_keeps_only_new_credential() {
    let mut p = Pallet::new(config());
    assert!(p.request_registration_sel11(10, b("a@b.com"), b("c1")).is_ok());
    assert!(p.change_password_sel13(10, &b("a@b.com"), &b("c2")).is_ok());
    assert_eq!(p.login_access_sel12(&b("a@b.com"), &b("c2")), Ok(()));
    assert_eq!(p.login_access_sel12(&b("a@b.com"), &b("c1")), Err(Error::LoginFailed));
}

#[test]
fn rotation_clears_linked_service() {
    let mut p = linked_registry();
    assert!(p.set_accessservice_sel17(10, 10, b("docsystem")).is_ok());
    assert!(p.change_password_sel13(10, &b("a@b.com"), &b("new")).is_ok());
    assert!(p.studentidof(&b("a@b.com")).unwrap().linked_service.is_empty());
    assert_eq!(p.check_web3access_sel18(10, &b("docsystem")), Err(Error::ServiceAccessFailed));
}

#[test]
fn rotation_by_other_account_is_refused() {
    let mut p = Pallet::new(config());
    assert!(p.request_registration_sel11(10, b("a@b.com"), b("c1")).is_ok());
    assert_eq!(p.change_password_sel13(11, &b("a@b.com"), &b("c2")), Err(Error::LoginFailed));
    assert_eq!(p.change_password_sel13(11, &b("x@y.com"), &b("c2")), Err(Error::NoIdentity));
    assert_eq!(p.login_access_sel12(&b("a@b.com"), &b("c1")), Ok(()));
}

#[test]
fn referral_can_be_reset_and_reused_once() {
    let mut p = linked_registry();
    assert!(p.set_referal_sel12(10, &b("a@b.com"), &b("second")).is_ok());
    assert!(p.set_referal_sel12(10, &b("a@b.com"), &b("third")).is_ok());
    assert_eq!(p.create_web3link_sel(10, b("a@b.com"), 11, &b("second")), Err(Error::ReferalFailed));
    assert!(p.create_weblink_sel(10, b("a@b.com"), 11, &b("third")).is_ok());
    assert_eq!(p.studentidof(&b("a@b.com")).unwrap().owner, 11);
    assert_eq!(p.emailid(11), Some(&b("a@b.com")));
    assert_eq!(p.set_referal_sel12(10, &b("x@y.com"), &b("s")), Err(Error::NoIdentity));
    assert_eq!(p.create_web3link_sel(10, b("x@y.com"), 11, &b("s")), Err(Error::NoIdentity));
}

#[test]
fn link_without_referral_is_refused() {
    let mut p = Pallet::new(config());
    assert!(p.request_registration_sel11(10, b("a@b.com"), b("hello123")).is_ok());
    assert_eq!(p.create_web3link_sel15(10, b("a@b.com"), 10, &b("")), Err(Error::ReferalFailed));
}

#[test]
fn logout_by_previous_owner_is_refused() {
    let mut p = linked_registry();
    assert!(p.set_referal_sel12(10, &b("a@b.com"), &b("handover")).is_ok());
    assert!(p.create_web3link_sel15(10, b("a@b.com"), 11, &b("handover")).is_ok());
    assert_eq!(p.logout_web3_sel19(10), Err(Error::LoginFailed));
    assert_eq!(p.set_accessservice_sel17(10, 10, b("docsystem")), Err(Error::LoginFailed));
    assert!(p.logout_web3_sel19(11).is_ok());
}

#[test]
fn access_service_set_by_other_account_is_refused() {
    let mut p = linked_registry();
    assert_eq!(p.set_accessservice_sel17(11, 10, b("docsystem")), Err(Error::LoginFailed));
    assert_eq!(p.set_accessservice_sel17(10, 12, b("docsystem")), Err(Error::NoIdentity));
    assert_eq!(p.check_web3access_sel18(10, &b("docsystem")), Err(Error::ServiceAccessFailed));
}

#[test]
fn reused_token_id_goes_to_last_login() {
    let mut p = linked_registry();
    assert!(p.request_registration_sel11(20, b("c@d.com"), b("pw")).is_ok());
    assert!(p.set_referal_sel12(20, &b("c@d.com"), &b("r2")).is_ok());
    assert!(p.create_web3link_sel15(20, b("c@d.com"), 20, &b("r2")).is_ok());
    assert!(p.login_web3_sel16(10, b("shared")).is_ok());
    assert_eq!(p.check_session(&b("shared")), Ok(10));
    assert!(p.login_web3_sel16(20, b("shared")).is_ok());
    assert_eq!(p.check_session(&b("shared")), Ok(20));
}

#[test]
fn new_record_has_default_fields() {
    let mut p = Pallet::new(config());
    assert!(p.request_registration_sel11(10, b("a@b.com"), b("abc")).is_ok());
    let rec = p.studentidof(&b("a@b.com")).unwrap();
    assert_eq!(rec.owner, 10);
    assert_eq!(rec.referral, Referral::Unset);
    assert_eq!(rec.display, b("ten"));
    assert!(rec.legal.is_empty());
    assert!(rec.access_token.is_empty());
    assert!(rec.linked_service.is_empty());
    assert_eq!(
        rec.additional,
        vec![(b("number"), vec![10u8, 0, 0, 0]), (b("text"), b("10"))]
    );
    let abc_digest: Vec<u8> = vec![
        186, 120, 22, 191, 143, 1, 207, 234, 65, 65, 64, 222, 93, 174, 34, 35, 176, 3, 97, 163,
        150, 23, 122, 156, 180, 16, 255, 97, 242, 0, 21, 173,
    ];
    assert_eq!(rec.credential_hash, abc_digest);
}

#[test]
fn oversized_email_is_refused() {
    let mut p = Pallet::new(Config { max_emailsize: 5, ..config() });
    assert_eq!(
        p.request_registration_sel11(10, b("a@b.com"), b("pw")),
        Err(Error::FieldTooLarge)
    );
    assert!(p.request_registration_sel11(10, b("a@b.c"), b("pw")).is_ok());
    assert_eq!(p.config().max_emailsize, 5);
}

#[test]
fn too_few_additional_fields_allowed_is_refused() {
    let mut p = Pallet::new(Config { max_additional_fields: 1, ..config() });
    assert_eq!(
        p.request_registration_sel11(10, b("a@b.com"), b("pw")),
        Err(Error::TooManyFields)
    );
    assert!(p.studentidof(&b("a@b.com")).is_none());
}

#[test]
fn oversized_token_id_is_refused() {
    let mut p = linked_registry();
    let long = vec![b'x'; 33];
    assert_eq!(p.login_web3_sel16(10, long.clone()), Err(Error::FieldTooLarge));
    assert!(p.tokens(&long).is_none());
    let mut q = Pallet::new(Config { max_tokenid: 4, ..config() });
    assert!(q.request_registration_sel11(10, b("a@b.com"), b("pw")).is_ok());
    assert!(q.set_referal_sel12(10, &b("a@b.com"), &b("r")).is_ok());
    assert!(q.create_web3link_sel15(10, b("a@b.com"), 10, &b("r")).is_ok());
    assert_eq!(q.login_web3_sel16(10, b("abcde")), Err(Error::FieldTooLarge));
    assert!(q.login_web3_sel16(10, b("abcd")).is_ok());
}

#[test]
fn small_metadata_limit_is_refused() {
    let mut p = Pallet::new(Config { max_access_token_metadata: 8, ..config() });
    assert!(p.request_registration_sel11(10, b("a@b.com"), b("pw")).is_ok());
    assert!(p.set_referal_sel12(10, &b("a@b.com"), &b("r")).is_ok());
    assert!(p.create_web3link_sel15(10, b("a@b.com"), 10, &b("r")).is_ok());
    assert_eq!(p.login_web3_sel16(10, b("tok")), Err(Error::MaxMetadataExceeded));
}

#[test]
fn oversized_service_is_refused() {
    let mut p = linked_registry();
    assert_eq!(p.set_accessservice_sel17(10, 10, vec![b's'; 33]), Err(Error::FieldTooLarge));
    assert!(p.set_accessservice_sel17(10, 10, vec![b's'; 32]).is_ok());
}

#[test]
fn check_access_without_service_only_matches_empty() {
    let p = linked_registry();
    assert_eq!(p.check_web3access_sel18(10, &b("docsystem")), Err(Error::ServiceAccessFailed));
    assert_eq!(p.check_web3access_sel18(10, &b("")), Ok(()));
}

/// Registers `email` for `who` and links it to `who`.
fn add_linked(p: &mut Pallet, who: u64, email: &str) {
    assert!(p.request_registration_sel11(who, b(email), b("pw")).is_ok());
    assert!(p.set_referal_sel12(who, &b(email), &b("ref")).is_ok());
    assert!(p.create_web3link_sel15(who, b(email), who, &b("ref")).is_ok());
}

#[test]
fn empty_token_id_is_refused() {
    let mut p = linked_registry();
    assert_eq!(p.login_web3_sel16(10, b("")), Err(Error::InvalidTokenid));
    assert!(p.tokens(&b("")).is_none());
    assert!(p.studentidof(&b("a@b.com")).unwrap().access_token.is_empty());
}

#[test]
fn second_logout_changes_nothing() {
    let mut p = linked_registry();
    add_linked(&mut p, 20, "c@d.com");
    assert!(p.login_web3_sel16(20, b("other-session")).is_ok());
    assert!(p.login_web3_sel16(10, b("random27363")).is_ok());
    assert_eq!(p.logout_web3_sel19(10), Ok(Event::UserWeb3logout { who: 10 }));
    assert_eq!(p.logout_web3_sel19(10), Ok(Event::UserWeb3logout { who: 10 }));
    assert_eq!(p.check_session(&b("other-session")), Ok(20));
    assert_eq!(p.studentidof(&b("c@d.com")).unwrap().access_token, b("other-session"));
}

#[test]
fn logout_without_session_leaves_other_sessions() {
    let mut p = linked_registry();
    add_linked(&mut p, 20, "c@d.com");
    assert!(p.login_web3_sel16(20, b("s20")).is_ok());
    assert!(p.logout_web3_sel19(10).is_ok());
    assert_eq!(p.check_session(&b("s20")), Ok(20));
}

#[test]
fn logout_keeps_token_taken_over_by_other_account() {
    let mut p = linked_registry();
    add_linked(&mut p, 20, "c@d.com");
    assert!(p.login_web3_sel16(10, b("shared")).is_ok());
    assert!(p.login_web3_sel16(20, b("shared")).is_ok());
    assert!(p.logout_web3_sel19(10).is_ok());
    assert_eq!(p.check_session(&b("shared")), Ok(20));
    assert!(p.studentidof(&b("a@b.com")).unwrap().access_token.is_empty());
    assert!(p.logout_web3_sel19(20).is_ok());
    assert_eq!(p.check_session(&b("shared")), Err(Error::LoginFailed));
}
