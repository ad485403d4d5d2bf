use vstd::prelude::*;

verus! {

/// A person to certify: name, phone number and identity card number.
pub struct PersonalInfo {
    pub name: String,
    pub phone: String,
    pub idcard: String,
}

/// The query of the personal three-element check.
pub struct JuheRequest {
    pub key: String,
    pub realname: String,
    pub idcard: String,
    pub mobile: String,
}

/// The `result` field of the answer of the personal check.
pub struct ResultValue {
    pub realname: String,
    pub mobile: String,
    pub idcard: String,
    pub res: i32,
    pub resmsg: String,
}

/// The query of the enterprise check.
pub struct EnterpriseRequest {
    pub key: String,
    pub keyword: String,
}

/// The answer of the personal check, as far as it could be read.
pub enum PersonalReply {
    /// The body of the answer is not the expected JSON.
    Unreadable,
    /// The answer's error code, and its `result` where that reads as a [`ResultValue`].
    Answer { error_code: i32, result: Option<ResultValue> },
}

/// The answer of the enterprise check, as far as it could be read.
pub enum EnterpriseReply {
    /// The body of the answer is not the expected JSON.
    Unreadable,
    /// The answer's error code and the JSON text of the registered legal
    /// representative (`oper_name` of the result's data).
    Answer { error_code: i32, oper_name_json: String },
}

/// The error code by which the personal check says that the identity data are not valid.
pub const INVALID_IDENTITY: i32 = 220807;

/// The query that certifies `name`, `phone` and `idcard` with the service key `key`.
pub fn personal_query(key: &str, name: &String, phone: &String, idcard: &String) -> (r: JuheRequest)
    ensures
        r.key@ == key@,
        r.realname@ == name@,
        r.idcard@ == idcard@,
        r.mobile@ == phone@,
{
    JuheRequest {
        key: key.to_owned(),
        realname: name.clone(),
        idcard: idcard.clone(),
        mobile: phone.clone(),
    }
}

/// The query that looks the enterprise with registration code `code` up.
pub fn enterprise_query(key: &str, code: &String) -> (r: EnterpriseRequest)
    ensures
        r.key@ == key@,
        r.keyword@ == code@,
{
    EnterpriseRequest { key: key.to_owned(), keyword: code.clone() }
}

/// The outcome of the personal check: 1 when the three elements match, 2
/// when they do not, 0 when the check itself failed.
pub open spec fn personal_outcome_spec(reply: PersonalReply) -> int {
    match reply {
        PersonalReply::Unreadable => 0,
        PersonalReply::Answer { error_code, result } => if error_code == INVALID_IDENTITY {
            0
        } else {
            match result {
                None => 0,
                Some(v) => v.res as int,
            }
        },
    }
}

pub fn personal_outcome(reply: &PersonalReply) -> (r: i32)
    ensures
        r == personal_outcome_spec(*reply),
{
    match reply {
        PersonalReply::Unreadable => 0,
        PersonalReply::Answer { error_code, result } => {
            if *error_code == INVALID_IDENTITY {
                return 0;
            }
            match result {
                None => 0,
                Some(v) => v.res,
            }
        },
    }
}

/// The outcome of the enterprise check: the service's error code when it is
/// not zero; else 0 when the registered legal representative is
/// `corporate`, 1 when it is someone else or the answer is unreadable.
pub open spec fn enterprise_outcome_spec(reply: EnterpriseReply, corporate: Seq<char>) -> int {
    match reply {
        EnterpriseReply::Unreadable => 1,
        EnterpriseReply::Answer { error_code, oper_name_json } => if error_code != 0 {
            error_code as int
        } else if oper_name_json@ == "\""@ + corporate + "\""@ {
            0
        } else {
            1
        },
    }
}

pub fn enterprise_outcome(reply: &EnterpriseReply, corporate: &String) -> (r: i32)
    ensures
        r == enterprise_outcome_spec(*reply, corporate@),
{
    match reply {
        EnterpriseReply::Unreadable => 1,
        EnterpriseReply::Answer { error_code, oper_name_json } => {
            if *error_code != 0 {
                return *error_code;
            }
            let quoted = String::from_str("\"").concat(corporate.as_str()).concat("\"");
            if quoted == *oper_name_json {
                0
            } else {
                1
            }
        },
    }
}

} // verus!
