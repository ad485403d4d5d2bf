use vstd::prelude::*;

verus! {

/// The JSON envelope of the user information service: `code` zero for
/// success, a code of the 6000x range for each failure.
pub struct ResponseBody<T> {
    pub code: i32,
    pub message: String,
    pub data: Option<T>,
}

impl<T> ResponseBody<T> {
    /// A successful answer carrying `data`.
    pub fn new_success(data: Option<T>) -> (r: Self)
        ensures
            r.code == 0,
            r.message@ == "success"@,
            r.data == data,
    {
        ResponseBody { code: 0, message: String::from_str("success"), data }
    }

    /// A database operation failed with `error`.
    pub fn return_unwrap_error(error: String) -> (r: Self)
        ensures
            r.code == 60000,
            r.message@ == "数据信息错误:"@ + error@,
            r.data is None,
    {
        let message = String::from_str("数据信息错误:").concat(error.as_str());
        ResponseBody { code: 60000, message, data: None }
    }

    /// The object is in a state that does not allow the operation.
    pub fn object_status_error(error: String) -> (r: Self)
        ensures
            r.code == 60001,
            r.message@ == "交易对象状态错误："@ + error@,
            r.data is None,
    {
        let message = String::from_str("交易对象状态错误：").concat(error.as_str());
        ResponseBody { code: 60001, message, data: None }
    }

    /// The object asked for does not exist.
    pub fn object_not_exit() -> (r: Self)
        ensures
            r.code == 60002,
            r.message@ == "交易对象不存在"@,
            r.data is None,
    {
        ResponseBody { code: 60002, message: String::from_str("交易对象不存在"), data: None }
    }

    /// A path parameter of the request is missing.
    pub fn return_none_error() -> (r: Self)
        ensures
            r.code == 60003,
            r.message@ == "获取请求头为空"@,
            r.data is None,
    {
        ResponseBody { code: 60003, message: String::from_str("获取请求头为空"), data: None }
    }
}

} // verus!
