use vstd::prelude::*;
use crate::ids::{object_id, uuid_v1_text, ID_SEQUENCE};
use crate::business_info::response::ResponseBody;
use crate::text::same_text;

verus! {

/// The person who fills in a business registration: the legal
/// representative, or an agent acting for the enterprise.
pub struct PersonInfo {
    pub identity: String,
    pub legal_name: String,
    pub legal_voucher_type: String,
    pub legal_voucher_num: String,
    pub legal_photo_p: String,
    pub legal_photo_r: Option<String>,
    pub legal_validity_begin: Option<i64>,
    pub legal_validity_end: i64,
    pub legal_phone: String,
    pub control_preson: String,
    pub agency_name: Option<String>,
    pub agency_voucher_type: Option<String>,
    pub agency_voucher_num: Option<String>,
    pub agency_photo_p: Option<String>,
    pub agency_photo_r: Option<String>,
    pub agency_validity_begin: Option<i64>,
    pub agency_validity_end: Option<i64>,
    pub agency_phone: Option<String>,
    pub authorization: Option<String>,
}

/// The form was filled in by an agent.
pub open spec fn is_agency(p: PersonInfo) -> bool {
    p.identity@ == "agency"@
}

/// The agent's name, phone and identity number are given: enough to certify the agent.
pub open spec fn agency_certifiable(p: PersonInfo) -> bool {
    p.agency_name is Some && p.agency_phone is Some && p.agency_voucher_num is Some
}

/// Everything that a registration by an agent needs about the agent is given.
pub open spec fn agency_complete(p: PersonInfo) -> bool {
    &&& agency_certifiable(p)
    &&& p.agency_voucher_type is Some
    &&& p.agency_photo_p is Some
    &&& p.agency_validity_end is Some
    &&& p.authorization is Some
}

/// Where a registration stands.
#[derive(PartialEq, Eq, Structural, Clone, Copy)]
pub enum Stage {
    Start,
    AwaitExisting,
    AwaitEnterprise,
    AwaitLegal,
    AwaitAgency,
    AwaitStore,
    Finished,
}

/// What the outside world reports back.
pub enum RegisterEvent {
    /// The request arrived.
    Begin,
    /// Whether an enterprise with the request's credit code is registered.
    ExistingChecked { found: bool },
    /// The outcome of the enterprise check (0 when certified).
    EnterpriseChecked { status: i32 },
    /// The outcome of a personal check (1 when certified).
    PersonChecked { status: i32 },
    /// The registration was stored, or storing it failed with `error`.
    Stored { error: Option<String> },
}

/// How a registration ends.
pub enum RegisterReply {
    Registered,
    EnterpriseInfoError,
    PersonalInfoError,
    AgencyInfoError,
    AgencyInfoMiss,
    StoreFailed(String),
    Success,
}

/// What to do next.
pub enum RegisterAction {
    /// Look the enterprise up by its credit code.
    QueryCreditCode { credit_code: String },
    /// Certify the enterprise and its legal representative.
    VerifyEnterprise { corporate: String, code: String },
    /// Certify a person by name, phone and identity number.
    VerifyPerson { name: String, phone: String, idcard: String },
    /// Hand the data to the mail service and store the registration.
    NotifyAndStore,
    /// Answer the request.
    Reply(RegisterReply),
    /// The event does not belong to this stage: nothing to do.
    Wait,
}

/// Once the checks passed: a registration by an agent whose data are
/// incomplete is refused, any other is stored.
pub open spec fn after_checks(p: PersonInfo) -> (Stage, RegisterAction) {
    if is_agency(p) && !agency_complete(p) {
        (Stage::Finished, RegisterAction::Reply(RegisterReply::AgencyInfoMiss))
    } else {
        (Stage::AwaitStore, RegisterAction::NotifyAndStore)
    }
}

/// The registration flow: an enterprise already registered is refused; when
/// `verify` is on, the enterprise, its legal representative and, for a
/// registration by an agent, the agent are certified in turn, and the first
/// failed check ends the flow; then the registration is stored.
pub open spec fn register_next(
    p: PersonInfo,
    credit_code: String,
    verify: bool,
    stage: Stage,
    event: RegisterEvent,
) -> (Stage, RegisterAction) {
    match (stage, event) {
        (Stage::Start, RegisterEvent::Begin) => (
            Stage::AwaitExisting,
            RegisterAction::QueryCreditCode { credit_code },
        ),
        (Stage::AwaitExisting, RegisterEvent::ExistingChecked { found }) => if found {
            (Stage::Finished, RegisterAction::Reply(RegisterReply::Registered))
        } else if verify {
            (
                Stage::AwaitEnterprise,
                RegisterAction::VerifyEnterprise { corporate: p.legal_name, code: credit_code },
            )
        } else {
            after_checks(p)
        },
        (Stage::AwaitEnterprise, RegisterEvent::EnterpriseChecked { status }) => if status != 0 {
            (Stage::Finished, RegisterAction::Reply(RegisterReply::EnterpriseInfoError))
        } else {
            (
                Stage::AwaitLegal,
                RegisterAction::VerifyPerson {
                    name: p.legal_name,
                    phone: p.legal_phone,
                    idcard: p.legal_voucher_num,
                },
            )
        },
        (Stage::AwaitLegal, RegisterEvent::PersonChecked { status }) => if status != 1 {
            (Stage::Finished, RegisterAction::Reply(RegisterReply::PersonalInfoError))
        } else if is_agency(p) {
            if agency_certifiable(p) {
                (
                    Stage::AwaitAgency,
                    RegisterAction::VerifyPerson {
                        name: p.agency_name->0,
                        phone: p.agency_phone->0,
                        idcard: p.agency_voucher_num->0,
                    },
                )
            } else {
                (Stage::Finished, RegisterAction::Reply(RegisterReply::AgencyInfoError))
            }
        } else {
            after_checks(p)
        },
        (Stage::AwaitAgency, RegisterEvent::PersonChecked { status }) => if status != 1 {
            (Stage::Finished, RegisterAction::Reply(RegisterReply::AgencyInfoError))
        } else {
            after_checks(p)
        },
        (Stage::AwaitStore, RegisterEvent::Stored { error }) => match error {
            Some(e) => (Stage::Finished, RegisterAction::Reply(RegisterReply::StoreFailed(e))),
            None => (Stage::Finished, RegisterAction::Reply(RegisterReply::Success)),
        },
        _ => (stage, RegisterAction::Wait),
    }
}

fn clone_text(s: &Option<String>) -> (r: String)
    requires
        s is Some,
    ensures
        r == s->0,
{
    match s {
        Some(v) => v.clone(),
        None => String::new(),
    }
}

fn agency_filled_in(p: &PersonInfo) -> (r: bool)
    ensures
        r == is_agency(*p),
{
    same_text(p.identity.as_str(), "agency")
}

fn finish_checks(p: &PersonInfo) -> (r: (Stage, RegisterAction))
    ensures
        r == after_checks(*p),
{
    if agency_filled_in(p) && !(p.agency_name.is_some() && p.agency_phone.is_some()
        && p.agency_voucher_num.is_some() && p.agency_voucher_type.is_some()
        && p.agency_photo_p.is_some() && p.agency_validity_end.is_some()
        && p.authorization.is_some()) {
        (Stage::Finished, RegisterAction::Reply(RegisterReply::AgencyInfoMiss))
    } else {
        (Stage::AwaitStore, RegisterAction::NotifyAndStore)
    }
}

/// One step of the registration flow of `p` with credit code `credit_code`.
pub fn register_step(
    p: &PersonInfo,
    credit_code: &String,
    verify: bool,
    stage: Stage,
    event: RegisterEvent,
) -> (r: (Stage, RegisterAction))
    ensures
        r == register_next(*p, *credit_code, verify, stage, event),
{
    match (stage, event) {
        (Stage::Start, RegisterEvent::Begin) => (
            Stage::AwaitExisting,
            RegisterAction::QueryCreditCode { credit_code: credit_code.clone() },
        ),
        (Stage::AwaitExisting, RegisterEvent::ExistingChecked { found }) => {
            if found {
                (Stage::Finished, RegisterAction::Reply(RegisterReply::Registered))
            } else if verify {
                (
                    Stage::AwaitEnterprise,
                    RegisterAction::VerifyEnterprise {
                        corporate: p.legal_name.clone(),
                        code: credit_code.clone(),
                    },
                )
            } else {
                finish_checks(p)
            }
        },
        (Stage::AwaitEnterprise, RegisterEvent::EnterpriseChecked { status }) => {
            if status != 0 {
                (Stage::Finished, RegisterAction::Reply(RegisterReply::EnterpriseInfoError))
            } else {
                (
                    Stage::AwaitLegal,
                    RegisterAction::VerifyPerson {
                        name: p.legal_name.clone(),
                        phone: p.legal_phone.clone(),
                        idcard: p.legal_voucher_num.clone(),
                    },
                )
            }
        },
        (Stage::AwaitLegal, RegisterEvent::PersonChecked { status }) => {
            if status != 1 {
                (Stage::Finished, RegisterAction::Reply(RegisterReply::PersonalInfoError))
            } else if agency_filled_in(p) {
                if p.agency_name.is_some() && p.agency_phone.is_some()
                    && p.agency_voucher_num.is_some() {
                    (
                        Stage::AwaitAgency,
                        RegisterAction::VerifyPerson {
                            name: clone_text(&p.agency_name),
                            phone: clone_text(&p.agency_phone),
                            idcard: clone_text(&p.agency_voucher_num),
                        },
                    )
                } else {
                    (Stage::Finished, RegisterAction::Reply(RegisterReply::AgencyInfoError))
                }
            } else {
                finish_checks(p)
            }
        },
        (Stage::AwaitAgency, RegisterEvent::PersonChecked { status }) => {
            if status != 1 {
                (Stage::Finished, RegisterAction::Reply(RegisterReply::AgencyInfoError))
            } else {
                finish_checks(p)
            }
        },
        (Stage::AwaitStore, RegisterEvent::Stored { error }) => match error {
            Some(e) => (Stage::Finished, RegisterAction::Reply(RegisterReply::StoreFailed(e))),
            None => (Stage::Finished, RegisterAction::Reply(RegisterReply::Success)),
        },
        (s, _) => (s, RegisterAction::Wait),
    }
}

/// The answer that ends a registration; `data` goes with a success only.
pub fn reply_body<T>(reply: RegisterReply, data: Option<T>) -> (r: ResponseBody<T>)
    ensures
        match reply {
            RegisterReply::Registered => r.code == 90001 && r.message@ == "企业信息已经注册过"@,
            RegisterReply::EnterpriseInfoError => r.code == 90002 && r.message@
                == "企业信息认证失败"@,
            RegisterReply::PersonalInfoError => r.code == 90003 && r.message@
                == "法人信息认证失败"@,
            RegisterReply::AgencyInfoError => r.code == 90004 && r.message@
                == "代理人信息认证失败"@,
            RegisterReply::AgencyInfoMiss => r.code == 90006 && r.message@
                == "代理人身份信息不完整"@,
            RegisterReply::StoreFailed(e) => r.code == 90000 && r.message@
                == "数据库操作失败or请求unwrap:"@ + e@,
            RegisterReply::Success => r.code == 0 && r.message@ == "success"@ && r.data == data,
        },
        !(reply is Success) ==> r.data is None,
{
    match reply {
        RegisterReply::Registered => ResponseBody::enterprise_registed(),
        RegisterReply::EnterpriseInfoError => ResponseBody::enterprise_info_error(),
        RegisterReply::PersonalInfoError => ResponseBody::personal_info_error(),
        RegisterReply::AgencyInfoError => ResponseBody::agency_info_error(),
        RegisterReply::AgencyInfoMiss => ResponseBody::agency_info_miss(),
        RegisterReply::StoreFailed(e) => ResponseBody::return_unwrap_error(e),
        RegisterReply::Success => ResponseBody::new_success(data),
    }
}

/// The stage that the events lead a registration to, from `stage`.
pub open spec fn run_flow(
    p: PersonInfo,
    credit_code: String,
    verify: bool,
    stage: Stage,
    events: Seq<RegisterEvent>,
) -> Stage
    decreases events.len(),
{
    if events.len() == 0 {
        stage
    } else {
        register_next(
            p,
            credit_code,
            verify,
            run_flow(p, credit_code, verify, stage, events.drop_last()),
            events.last(),
        ).0
    }
}

/// What each stage reached from the start implies of the events so far.
pub open spec fn stage_history(
    p: PersonInfo,
    verify: bool,
    stage: Stage,
    events: Seq<RegisterEvent>,
) -> bool {
    let cleared = events.contains(RegisterEvent::ExistingChecked { found: false });
    let enterprise_ok = events.contains(RegisterEvent::EnterpriseChecked { status: 0 });
    let person_ok = events.contains(RegisterEvent::PersonChecked { status: 1 });
    &&& stage == Stage::AwaitEnterprise ==> cleared && verify
    &&& stage == Stage::AwaitLegal ==> cleared && verify && enterprise_ok
    &&& stage == Stage::AwaitAgency ==> cleared && verify && enterprise_ok && person_ok
        && is_agency(p) && agency_certifiable(p)
    &&& stage == Stage::AwaitStore ==> {
        &&& cleared
        &&& verify ==> enterprise_ok && person_ok
        &&& is_agency(p) ==> agency_complete(p)
    }
}

proof fn lemma_history(p: PersonInfo, credit_code: String, verify: bool, events: Seq<RegisterEvent>)
    ensures
        stage_history(p, verify, run_flow(p, credit_code, verify, Stage::Start, events), events),
    decreases events.len(),
{
    if events.len() > 0 {
        let pre = events.drop_last();
        let e = events.last();
        lemma_history(p, credit_code, verify, pre);
        assert forall|x: RegisterEvent| pre.contains(x) implies events.contains(x) by {
            let i = choose|i: int| 0 <= i < pre.len() && pre[i] == x;
            assert(events[i] == pre[i]);
        }
        assert(events.contains(e)) by {
            assert(events[events.len() - 1] == e);
        }
    }
}

/// A registration is only ever stored after its credit code was found
/// unregistered, after the enterprise and a person were certified when
/// certification is on, and with complete agent data when an agent filled
/// it in.
pub proof fn law_store_only_after_checks(
    p: PersonInfo,
    credit_code: String,
    verify: bool,
    events: Seq<RegisterEvent>,
)
    requires
        run_flow(p, credit_code, verify, Stage::Start, events) == Stage::AwaitStore,
    ensures
        events.contains(RegisterEvent::ExistingChecked { found: false }),
        verify ==> events.contains(RegisterEvent::EnterpriseChecked { status: 0 })
            && events.contains(RegisterEvent::PersonChecked { status: 1 }),
        is_agency(p) ==> agency_complete(p),
{
    lemma_history(p, credit_code, verify, events);
}

/// Credit codes stay unique: when the lookups of the credit code reported
/// what the table of registered codes `codes` holds, a registration that
/// reaches storing adds a code that the table does not hold yet.
pub proof fn law_credit_codes_stay_unique(
    p: PersonInfo,
    credit_code: String,
    verify: bool,
    events: Seq<RegisterEvent>,
    codes: Seq<Seq<char>>,
)
    requires
        codes.no_duplicates(),
        forall|f: bool|
            #[trigger] events.contains(RegisterEvent::ExistingChecked { found: f }) ==> f
                == codes.contains(credit_code@),
        run_flow(p, credit_code, verify, Stage::Start, events) == Stage::AwaitStore,
    ensures
        !codes.contains(credit_code@),
        codes.push(credit_code@).no_duplicates(),
{
    law_store_only_after_checks(p, credit_code, verify, events);
    let after = codes.push(credit_code@);
    assert forall|i: int, j: int| 0 <= i < after.len() && 0 <= j < after.len() && i != j implies after[i]
        != after[j] by {
        if j == codes.len() as int {
            assert(after[i] == codes[i]);
        } else if i == codes.len() as int {
            assert(after[j] == codes[j]);
        } else {
            assert(after[i] == codes[i] && after[j] == codes[j]);
        }
    }
}

/// A registration by the legal representative goes through: with
/// certification on, once its credit code is found unregistered, the
/// enterprise is certified and the legal representative too, it is stored,
/// and a stored registration is answered with success.
pub proof fn law_legal_registration_is_stored(p: PersonInfo, credit_code: String)
    requires
        !is_agency(p),
    ensures
        register_next(p, credit_code, true, Stage::AwaitLegal, RegisterEvent::PersonChecked { status: 1 })
            == (Stage::AwaitStore, RegisterAction::NotifyAndStore),
        run_flow(
            p,
            credit_code,
            true,
            Stage::Start,
            seq![
                RegisterEvent::Begin,
                RegisterEvent::ExistingChecked { found: false },
                RegisterEvent::EnterpriseChecked { status: 0 },
                RegisterEvent::PersonChecked { status: 1 },
            ],
        ) == Stage::AwaitStore,
        run_flow(p, credit_code, false, Stage::Start, seq![RegisterEvent::Begin, RegisterEvent::ExistingChecked { found: false }])
            == Stage::AwaitStore,
        register_next(p, credit_code, true, Stage::AwaitStore, RegisterEvent::Stored { error: None })
            == (Stage::Finished, RegisterAction::Reply(RegisterReply::Success)),
{
    let evs = seq![
        RegisterEvent::Begin,
        RegisterEvent::ExistingChecked { found: false },
        RegisterEvent::EnterpriseChecked { status: 0 },
        RegisterEvent::PersonChecked { status: 1 },
    ];
    assert(evs.drop_last() =~= seq![
        RegisterEvent::Begin,
        RegisterEvent::ExistingChecked { found: false },
        RegisterEvent::EnterpriseChecked { status: 0 },
    ]);
    assert(evs.drop_last().drop_last() =~= seq![
        RegisterEvent::Begin,
        RegisterEvent::ExistingChecked { found: false },
    ]);
    assert(evs.drop_last().drop_last().drop_last() =~= seq![RegisterEvent::Begin]);
    assert(seq![RegisterEvent::Begin].drop_last() =~= Seq::<RegisterEvent>::empty());
    reveal_with_fuel(run_flow, 5);
}

/// A registration by an agent whose data are complete goes through once the
/// enterprise, the legal representative and the agent are certified.
pub proof fn law_complete_agent_registration_is_stored(p: PersonInfo, credit_code: String)
    requires
        is_agency(p),
        agency_complete(p),
    ensures
        run_flow(
            p,
            credit_code,
            true,
            Stage::Start,
            seq![
                RegisterEvent::Begin,
                RegisterEvent::ExistingChecked { found: false },
                RegisterEvent::EnterpriseChecked { status: 0 },
                RegisterEvent::PersonChecked { status: 1 },
                RegisterEvent::PersonChecked { status: 1 },
            ],
        ) == Stage::AwaitStore,
{
    let evs = seq![
        RegisterEvent::Begin,
        RegisterEvent::ExistingChecked { found: false },
        RegisterEvent::EnterpriseChecked { status: 0 },
        RegisterEvent::PersonChecked { status: 1 },
        RegisterEvent::PersonChecked { status: 1 },
    ];
    assert(evs.drop_last() =~= seq![
        RegisterEvent::Begin,
        RegisterEvent::ExistingChecked { found: false },
        RegisterEvent::EnterpriseChecked { status: 0 },
        RegisterEvent::PersonChecked { status: 1 },
    ]);
    assert(evs.drop_last().drop_last() =~= seq![
        RegisterEvent::Begin,
        RegisterEvent::ExistingChecked { found: false },
        RegisterEvent::EnterpriseChecked { status: 0 },
    ]);
    assert(evs.drop_last().drop_last().drop_last() =~= seq![
        RegisterEvent::Begin,
        RegisterEvent::ExistingChecked { found: false },
    ]);
    assert(evs.drop_last().drop_last().drop_last().drop_last() =~= seq![RegisterEvent::Begin]);
    assert(seq![RegisterEvent::Begin].drop_last() =~= Seq::<RegisterEvent>::empty());
    reveal_with_fuel(run_flow, 6);
}

/// Only a registration by an agent is ever refused for the agent: from the
/// start, whatever the events, the answer `AgencyInfoError` or
/// `AgencyInfoMiss` comes only when an agent filled the form in.
pub proof fn law_agent_refusals_only_for_agents(
    p: PersonInfo,
    credit_code: String,
    verify: bool,
    events: Seq<RegisterEvent>,
    event: RegisterEvent,
)
    requires
        !is_agency(p),
    ensures
        register_next(p, credit_code, verify, run_flow(p, credit_code, verify, Stage::Start, events), event).1
            != RegisterAction::Reply(RegisterReply::AgencyInfoError),
        register_next(p, credit_code, verify, run_flow(p, credit_code, verify, Stage::Start, events), event).1
            != RegisterAction::Reply(RegisterReply::AgencyInfoMiss),
{
    lemma_history(p, credit_code, verify, events);
}

/// A finished registration stays finished and asks for nothing more.
pub proof fn law_finished_is_final(
    p: PersonInfo,
    credit_code: String,
    verify: bool,
    event: RegisterEvent,
)
    ensures
        register_next(p, credit_code, verify, Stage::Finished, event) == (
            Stage::Finished,
            RegisterAction::Wait,
        ),
{
}

/// Storing is asked for exactly when the flow enters the stage that awaits it.
pub proof fn law_store_requested_on_entry(
    p: PersonInfo,
    credit_code: String,
    verify: bool,
    stage: Stage,
    event: RegisterEvent,
)
    ensures
        register_next(p, credit_code, verify, stage, event).1 is NotifyAndStore <==> (stage
            != Stage::AwaitStore && register_next(p, credit_code, verify, stage, event).0
            == Stage::AwaitStore),
{
}

/// The node id of business registrations: the bytes of `regist`.
pub open spec fn register_node() -> Seq<u8> {
    seq![114u8, 101u8, 103u8, 105u8, 115u8, 116u8]
}

/// The id of a new business registration created at second `second` of the minute and
/// nanosecond `nanos` of the local clock.
pub fn registration_id(second: u32, nanos: u32) -> (r: String)
    ensures
        r@ == uuid_v1_text(second as u64, nanos, ID_SEQUENCE, register_node()),
        r@.len() == 36,
{
    let node: Vec<u8> = vec![114u8, 101u8, 103u8, 105u8, 115u8, 116u8];
    assert(node@ =~= register_node());
    object_id(second, nanos, node.as_slice())
}

} // verus!
