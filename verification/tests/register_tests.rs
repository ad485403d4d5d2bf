use wallet_services::business_info::register_b::{
    register_step, reply_body, PersonInfo, RegisterAction, RegisterEvent, RegisterReply, Stage,
};

fn person(identity: &str, agent_complete: bool) -> PersonInfo {
    let s = |x: &str| Some(x.to_string());
    PersonInfo {
        identity: identity.to_string(),
        legal_name: "Zhang San".to_string(),
        legal_voucher_type: "id".to_string(),
        legal_voucher_num: "110101".to_string(),
        legal_photo_p: "p".to_string(),
        legal_photo_r: None,
        legal_validity_begin: None,
        legal_validity_end: 0,
        legal_phone: "13800000000".to_string(),
        control_preson: "legal".to_string(),
        agency_name: s("Li Si"),
        agency_voucher_type: if agent_complete { s("id") } else { None },
        agency_voucher_num: s("220202"),
        agency_photo_p: s("q"),
        agency_photo_r: None,
        agency_validity_begin: None,
        agency_validity_end: Some(0),
        agency_phone: s("13900000000"),
        authorization: s("auth"),
    }
}

fn run(p: &PersonInfo, verify: bool, events: Vec<RegisterEvent>) -> (Stage, Vec<RegisterAction>) {
    let code = "91110000".to_string();
    let mut stage = Stage::Start;
    let mut actions = Vec::new();
    for e in events {
        let (s, a) = register_step(p, &code, verify, stage, e);
        stage = s;
        actions.push(a);
    }
    (stage, actions)
}

fn is_reply(a: &RegisterAction, want: fn(&RegisterReply) -> bool) -> bool {
    match a {
        RegisterAction::Reply(r) => want(r),
        _ => false,
    }
}

#[test]
fn registered_credit_code_is_refused() {
    let p = person("legal", true);
    let (stage, actions) = run(&p, true, vec![RegisterEvent::Begin, RegisterEvent::ExistingChecked { found: true }]);
    assert!(stage == Stage::Finished);
    match &actions[0] {
        RegisterAction::QueryCreditCode { credit_code } => assert_eq!(credit_code, "91110000"),
        _ => panic!("expected the lookup"),
    }
    assert!(is_reply(&actions[1], |r| matches!(r, RegisterReply::Registered)));
}

#[test]
fn without_verification_the_legal_registration_is_stored() {
    let p = person("legal", true);
    let (stage, actions) = run(
        &p,
        false,
        vec![
            RegisterEvent::Begin,
            RegisterEvent::ExistingChecked { found: false },
            RegisterEvent::Stored { error: None },
        ],
    );
    assert!(stage == Stage::Finished);
    assert!(matches!(actions[1], RegisterAction::NotifyAndStore));
    assert!(is_reply(&actions[2], |r| matches!(r, RegisterReply::Success)));
}

#[test]
fn full_verification_by_agent() {
    let p = person("agency", true);
    let (stage, actions) = run(
        &p,
        true,
        vec![
            RegisterEvent::Begin,
            RegisterEvent::ExistingChecked { found: false },
            RegisterEvent::EnterpriseChecked { status: 0 },
            RegisterEvent::PersonChecked { status: 1 },
            RegisterEvent::PersonChecked { status: 1 },
            RegisterEvent::Stored { error: Some("duplicate".to_string()) },
        ],
    );
    assert!(stage == Stage::Finished);
    match &actions[1] {
        RegisterAction::VerifyEnterprise { corporate, code } => {
            assert_eq!(corporate, "Zhang San");
            assert_eq!(code, "91110000");
        }
        _ => panic!("expected the enterprise check"),
    }
    match &actions[2] {
        RegisterAction::VerifyPerson { name, phone, idcard } => {
            assert_eq!((name.as_str(), phone.as_str(), idcard.as_str()), ("Zhang San", "13800000000", "110101"));
        }
        _ => panic!("expected the legal check"),
    }
    match &actions[3] {
        RegisterAction::VerifyPerson { name, phone, idcard } => {
            assert_eq!((name.as_str(), phone.as_str(), idcard.as_str()), ("Li Si", "13900000000", "220202"));
        }
        _ => panic!("expected the agent check"),
    }
    assert!(matches!(actions[4], RegisterAction::NotifyAndStore));
    assert!(is_reply(&actions[5], |r| matches!(r, RegisterReply::StoreFailed(_))));
}

#[test]
fn failed_store_is_answered_with_the_error() {
    let p = person("legal", true);
    let (_, actions) = run(
        &p,
        false,
        vec![
            RegisterEvent::Begin,
            RegisterEvent::ExistingChecked { found: false },
            RegisterEvent::Stored { error: Some("duplicate".to_string()) },
        ],
    );
    match &actions[2] {
        RegisterAction::Reply(RegisterReply::StoreFailed(e)) => assert_eq!(e, "duplicate"),
        _ => panic!("expected a failed store"),
    }
}

#[test]
fn failed_checks_end_the_flow() {
    let p = person("agency", true);
    let (_, a) = run(&p, true, vec![RegisterEvent::Begin, RegisterEvent::ExistingChecked { found: false }, RegisterEvent::EnterpriseChecked { status: 3 }]);
    assert!(is_reply(&a[2], |r| matches!(r, RegisterReply::EnterpriseInfoError)));
    let (_, a) = run(&p, true, vec![RegisterEvent::Begin, RegisterEvent::ExistingChecked { found: false }, RegisterEvent::EnterpriseChecked { status: 0 }, RegisterEvent::PersonChecked { status: 2 }]);
    assert!(is_reply(&a[3], |r| matches!(r, RegisterReply::PersonalInfoError)));
    let (_, a) = run(&p, true, vec![RegisterEvent::Begin, RegisterEvent::ExistingChecked { found: false }, RegisterEvent::EnterpriseChecked { status: 0 }, RegisterEvent::PersonChecked { status: 1 }, RegisterEvent::PersonChecked { status: 0 }]);
    assert!(is_reply(&a[4], |r| matches!(r, RegisterReply::AgencyInfoError)));
}

#[test]
fn incomplete_agent_data_is_refused_after_checks() {
    let p = person("agency", false);
    let (stage, a) = run(&p, false, vec![RegisterEvent::Begin, RegisterEvent::ExistingChecked { found: false }]);
    assert!(stage == Stage::Finished);
    assert!(is_reply(&a[1], |r| matches!(r, RegisterReply::AgencyInfoMiss)));
}

#[test]
fn agent_without_name_fails_certification() {
    let mut p = person("agency", true);
    p.agency_phone = None;
    let (_, a) = run(&p, true, vec![RegisterEvent::Begin, RegisterEvent::ExistingChecked { found: false }, RegisterEvent::EnterpriseChecked { status: 0 }, RegisterEvent::PersonChecked { status: 1 }]);
    assert!(is_reply(&a[3], |r| matches!(r, RegisterReply::AgencyInfoError)));
}

#[test]
fn unexpected_events_wait() {
    let p = person("legal", true);
    let (stage, a) = run(&p, true, vec![RegisterEvent::ExistingChecked { found: false }]);
    assert!(stage == Stage::Start);
    assert!(matches!(a[0], RegisterAction::Wait));
}

#[test]
fn replies_map_to_answers() {
    let answers = [
        (RegisterReply::Registered, 90001, "企业信息已经注册过"),
        (RegisterReply::EnterpriseInfoError, 90002, "企业信息认证失败"),
        (RegisterReply::PersonalInfoError, 90003, "法人信息认证失败"),
        (RegisterReply::AgencyInfoError, 90004, "代理人信息认证失败"),
        (RegisterReply::AgencyInfoMiss, 90006, "代理人身份信息不完整"),
    ];
    for (reply, code, message) in answers {
        let r = reply_body::<()>(reply, None);
        assert_eq!((r.code, r.message.as_str()), (code, message));
        assert!(r.data.is_none());
    }
    let r = reply_body::<()>(RegisterReply::StoreFailed("e".to_string()), None);
    assert_eq!((r.code, r.message.as_str()), (90000, "数据库操作失败or请求unwrap:e"));
    let r = reply_body(RegisterReply::Success, Some(5));
    assert_eq!((r.code, r.message.as_str(), r.data), (0, "success", Some(5)));
}
