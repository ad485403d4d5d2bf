use vstd::prelude::*;

verus! {

/// The JSON envelope of the business registration service: `code` zero for
/// success, a code of the 9000x range for each failure.
pub struct ResponseBody<T> {
    pub code: i32,
    pub message: String,
    pub data: Option<T>,
}

impl<T> ResponseBody<T> {
    /// A successful answer carrying `data`.
    pub fn new_success(data: Option<T>) -> (r: Self)
        ensures
            r.code == 0,
            r.message@ == "success"@,
            r.data == data,
    {
        ResponseBody { code: 0, message: String::from_str("success"), data }
    }

    /// A database operation or a request failed with `error`.
    pub fn return_unwrap_error(error: String) -> (r: Self)
        ensures
            r.code == 90000,
            r.message@ == "数据库操作失败or请求unwrap:"@ + error@,
            r.data is None,
    {
        let message = String::from_str("数据库操作失败or请求unwrap:").concat(error.as_str());
        ResponseBody { code: 90000, message, data: None }
    }

    /// The enterprise is already registered.
    pub fn enterprise_registed() -> (r: Self)
        ensures
            r.code == 90001,
            r.message@ == "企业信息已经注册过"@,
            r.data is None,
    {
        ResponseBody { code: 90001, message: String::from_str("企业信息已经注册过"), data: None }
    }

    /// The enterprise could not be certified.
    pub fn enterprise_info_error() -> (r: Self)
        ensures
            r.code == 90002,
            r.message@ == "企业信息认证失败"@,
            r.data is None,
    {
        ResponseBody { code: 90002, message: String::from_str("企业信息认证失败"), data: None }
    }

    /// The legal representative could not be certified.
    pub fn personal_info_error() -> (r: Self)
        ensures
            r.code == 90003,
            r.message@ == "法人信息认证失败"@,
            r.data is None,
    {
        ResponseBody { code: 90003, message: String::from_str("法人信息认证失败"), data: None }
    }

    /// The agent could not be certified.
    pub fn agency_info_error() -> (r: Self)
        ensures
            r.code == 90004,
            r.message@ == "代理人信息认证失败"@,
            r.data is None,
    {
        ResponseBody { code: 90004, message: String::from_str("代理人信息认证失败"), data: None }
    }

    /// The mail service could not process the user's data.
    pub fn user_data_error() -> (r: Self)
        ensures
            r.code == 90005,
            r.message@ == "邮箱服务处理用户数据失败"@,
            r.data is None,
    {
        ResponseBody {
            code: 90005,
            message: String::from_str("邮箱服务处理用户数据失败"),
            data: None,
        }
    }

    /// The agent's identity information is incomplete.
    pub fn agency_info_miss() -> (r: Self)
        ensures
            r.code == 90006,
            r.message@ == "代理人身份信息不完整"@,
            r.data is None,
    {
        ResponseBody { code: 90006, message: String::from_str("代理人身份信息不完整"), data: None }
    }
}

} // verus!
