use vstd::prelude::*;
use crate::user_info::response::ResponseBody;

verus! {

/// The webhook address that an application registers.
pub struct UserInfoRequest {
    pub appid: String,
    pub web_url: String,
}

/// The stored registration, as the service answers it.
pub struct UserInfoResponse {
    pub appid: String,
    pub web_url: String,
}

/// The answer to a registration: when storing it failed with `store_error`,
/// the error answer with that text; else the request's own data.
pub fn user_info_saved(req: &UserInfoRequest, store_error: Option<String>) -> (r: ResponseBody<
    UserInfoResponse,
>)
    ensures
        match store_error {
            Some(e) => r.code == 60000 && r.message@ == "数据信息错误:"@ + e@ && r.data is None,
            None => r.code == 0 && r.message@ == "success"@ && (r.data matches Some(d) && d.appid
                == req.appid && d.web_url == req.web_url),
        },
{
    match store_error {
        Some(e) => ResponseBody::return_unwrap_error(e),
        None => ResponseBody::new_success(
            Some(UserInfoResponse { appid: req.appid.clone(), web_url: req.web_url.clone() }),
        ),
    }
}

} // verus!
