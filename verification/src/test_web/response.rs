use vstd::prelude::*;

verus! {

/// The JSON envelope that the webhook test endpoint answers with.
pub struct ResponseBody<T> {
    pub code: i32,
    pub message: String,
    pub data: Option<T>,
}

impl<T> ResponseBody<T> {
    /// A successful answer carrying `data`.
    pub fn new_success(data: Option<T>) -> (r: Self)
        ensures
            r.code == 0,
            r.message@ == "success"@,
            r.data == data,
    {
        ResponseBody { code: 0, message: String::from_str("success"), data }
    }
}

} // verus!
