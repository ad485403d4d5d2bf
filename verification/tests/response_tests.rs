use wallet_services::business_info::response::ResponseBody as BusinessBody;
use wallet_services::test_web::response::ResponseBody as TestBody;
use wallet_services::url_notify::response::ResponseBody as NotifyBody;
use wallet_services::user_info::response::ResponseBody as UserBody;

#[test]
fn business_success_carries_data() {
    let r = BusinessBody::new_success(Some(7u32));
    assert_eq!(r.code, 0);
    assert_eq!(r.message, "success");
    assert_eq!(r.data, Some(7));
}

#[test]
fn business_unwrap_error_appends_error() {
    let r = BusinessBody::<()>::return_unwrap_error(String::from("timeout"));
    assert_eq!(r.code, 90000);
    assert_eq!(r.message, "数据库操作失败or请求unwrap:timeout");
    assert!(r.data.is_none());
}

#[test]
fn business_error_codes() {
    let cases: Vec<(BusinessBody<()>, i32, &str)> = vec![
        (BusinessBody::enterprise_registed(), 90001, "企业信息已经注册过"),
        (BusinessBody::enterprise_info_error(), 90002, "企业信息认证失败"),
        (BusinessBody::personal_info_error(), 90003, "法人信息认证失败"),
        (BusinessBody::agency_info_error(), 90004, "代理人信息认证失败"),
        (BusinessBody::user_data_error(), 90005, "邮箱服务处理用户数据失败"),
        (BusinessBody::agency_info_miss(), 90006, "代理人身份信息不完整"),
    ];
    for (body, code, message) in cases {
        assert_eq!(body.code, code);
        assert_eq!(body.message, message);
        assert!(body.data.is_none());
    }
}

#[test]
fn test_web_success_without_data() {
    let r = TestBody::<()>::new_success(None);
    assert_eq!(r.code, 0);
    assert_eq!(r.message, "success");
    assert!(r.data.is_none());
}

#[test]
fn notify_error_codes() {
    let r = NotifyBody::<()>::return_unwrap_error(String::from("e"));
    assert_eq!((r.code, r.message.as_str()), (90000, "数据信息错误:e"));
    let r = NotifyBody::<()>::url_is_none();
    assert_eq!((r.code, r.message.as_str()), (90001, "url is none,please input url"));
    let r = NotifyBody::<()>::reseaon_is_none();
    assert_eq!((r.code, r.message.as_str()), (90002, "failed reseaon is none,please input reseaon"));
    let r = NotifyBody::<()>::status_type_error();
    assert_eq!(
        (r.code, r.message.as_str()),
        (90003, "Validation status error,input \"success\" or \"failed\"")
    );
    let r = NotifyBody::<()>::return_none_error();
    assert_eq!((r.code, r.message.as_str()), (90004, "获取请求头为空"));
    let r = NotifyBody::<()>::object_not_exit();
    assert_eq!((r.code, r.message.as_str()), (90005, "查询对象不存在"));
    let r = NotifyBody::new_success(Some(1));
    assert_eq!((r.code, r.message.as_str(), r.data), (0, "success", Some(1)));
}

#[test]
fn user_info_error_codes() {
    let r = UserBody::<()>::return_unwrap_error(String::from("x"));
    assert_eq!((r.code, r.message.as_str()), (60000, "数据信息错误:x"));
    let r = UserBody::<()>::object_status_error(String::from("closed"));
    assert_eq!((r.code, r.message.as_str()), (60001, "交易对象状态错误：closed"));
    let r = UserBody::<()>::object_not_exit();
    assert_eq!((r.code, r.message.as_str()), (60002, "交易对象不存在"));
    let r = UserBody::<()>::return_none_error();
    assert_eq!((r.code, r.message.as_str()), (60003, "获取请求头为空"));
    let r = UserBody::new_success(Some("a"));
    assert_eq!((r.code, r.message.as_str(), r.data), (0, "success", Some("a")));
}
