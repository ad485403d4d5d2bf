use vstd::prelude::*;

verus! {

/// The JSON envelope of the URL notification service: `code` zero for
/// success, a code of the 9000x range for each failure.
pub struct ResponseBody<T> {
    pub code: i32,
    pub message: String,
    pub data: Option<T>,
}

impl<T> ResponseBody<T> {
    /// A successful answer carrying `data`.
    pub fn new_success(data: Option<T>) -> (r: Self)
        ensures
            r.code == 0,
            r.message@ == "success"@,
            r.data == data,
    {
        ResponseBody { code: 0, message: String::from_str("success"), data }
    }

    /// A database operation failed with `error`.
    pub fn return_unwrap_error(error: String) -> (r: Self)
        ensures
            r.code == 90000,
            r.message@ == "数据信息错误:"@ + error@,
            r.data is None,
    {
        let message = String::from_str("数据信息错误:").concat(error.as_str());
        ResponseBody { code: 90000, message, data: None }
    }

    /// A successful verification came without its URL.
    pub fn url_is_none() -> (r: Self)
        ensures
            r.code == 90001,
            r.message@ == "url is none,please input url"@,
            r.data is None,
    {
        ResponseBody { code: 90001, message: String::from_str("url is none,please input url"), data: None }
    }

    /// A failed verification came without its reason.
    pub fn reseaon_is_none() -> (r: Self)
        ensures
            r.code == 90002,
            r.message@ == "failed reseaon is none,please input reseaon"@,
            r.data is None,
    {
        ResponseBody {
            code: 90002,
            message: String::from_str("failed reseaon is none,please input reseaon"),
            data: None,
        }
    }

    /// The verification status is neither `success` nor `failed`.
    pub fn status_type_error() -> (r: Self)
        ensures
            r.code == 90003,
            r.message@ == "Validation status error,input \"success\" or \"failed\""@,
            r.data is None,
    {
        ResponseBody {
            code: 90003,
            message: String::from_str("Validation status error,input \"success\" or \"failed\""),
            data: None,
        }
    }

    /// A path parameter of the request is missing.
    pub fn return_none_error() -> (r: Self)
        ensures
            r.code == 90004,
            r.message@ == "获取请求头为空"@,
            r.data is None,
    {
        ResponseBody { code: 90004, message: String::from_str("获取请求头为空"), data: None }
    }

    /// The object asked for does not exist.
    pub fn object_not_exit() -> (r: Self)
        ensures
            r.code == 90005,
            r.message@ == "查询对象不存在"@,
            r.data is None,
    {
        ResponseBody { code: 90005, message: String::from_str("查询对象不存在"), data: None }
    }
}

} // verus!
