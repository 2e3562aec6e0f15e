//! The event handler: a state machine over one sensor event.
//!
//! Each inbound event is processed as a strict sequence of store calls.  The
//! machine here decides every call and every reaction to a response; the
//! surrounding process only performs the calls and feeds the outcomes back.
//! Every transition is pinned to the model functions below; the timestamp a
//! transition stamps into a body is the one nondeterministic input, bound
//! existentially in the contracts.

use vstd::prelude::*;
use vstd::string::*;
use crate::config::Config;
use crate::clock::{rfc3339_of, now_unix, format_unix_rfc3339, now_rfc3339};
use crate::json::{JsonValue, JVal, jv_get, json_of, parse_json, obj_get, as_bool, as_i64, is_null};
use crate::recount::recount_model;
use crate::textfmt::str_eq;
use crate::wire::{
    lot_create_body, lot_create_body_model, space_create_body, space_create_body_model,
    lot_spec_patch_body, lot_spec_patch_body_model, lot_status_body, lot_status_body_model,
    space_status_body, space_status_body_model, lots_path, lots_path_model, spaces_path,
    spaces_path_model, lot_path, lot_path_model, lot_status_path, lot_status_path_model,
    space_status_path, space_status_path_model, url_of, url_model,
};

verus! {

/// First index at or after `from` holding a slash, or the length.
pub open spec fn slash_to(s: Seq<char>, from: int) -> int
    decreases s.len() - from when 0 <= from <= s.len()
{
    if from >= s.len() {
        s.len() as int
    } else if s[from] == '/' {
        from
    } else {
        slash_to(s, from + 1)
    }
}

/// The first three slash positions and the end of the fourth segment.
pub open spec fn slash1(t: Seq<char>) -> int {
    slash_to(t, 0)
}

pub open spec fn slash2(t: Seq<char>) -> int {
    if slash1(t) < t.len() {
        slash_to(t, slash1(t) + 1)
    } else {
        t.len() as int
    }
}

pub open spec fn slash3(t: Seq<char>) -> int {
    if slash2(t) < t.len() {
        slash_to(t, slash2(t) + 1)
    } else {
        t.len() as int
    }
}

pub open spec fn slash4(t: Seq<char>) -> int {
    if slash3(t) < t.len() {
        slash_to(t, slash3(t) + 1)
    } else {
        t.len() as int
    }
}

/// Whether a topic has the handled shape: exactly four slash-separated
/// segments, the first `parking`, the fourth and last `status`.
pub open spec fn topic_match(t: Seq<char>) -> bool {
    &&& slash1(t) < t.len()
    &&& slash2(t) < t.len()
    &&& slash3(t) < t.len()
    &&& slash4(t) == t.len()
    &&& t.subrange(0, slash1(t)) == "parking"@
    &&& t.subrange(slash3(t) + 1, slash4(t)) == "status"@
}

/// The lot identifier carried by a matching topic: its second segment.
pub open spec fn topic_lot(t: Seq<char>) -> Seq<char> {
    t.subrange(slash1(t) + 1, slash2(t))
}

/// The space identifier carried by a matching topic: its third segment.
pub open spec fn topic_space(t: Seq<char>) -> Seq<char> {
    t.subrange(slash2(t) + 1, slash3(t))
}

/// Finds the first slash at or after `from`.
fn find_slash(s: &str, from: usize) -> (r: usize)
    requires
        from <= s@.len(),
    ensures
        r as int == slash_to(s@, from as int),
        from <= r <= s@.len(),
{
    let len = s.unicode_len();
    let mut i: usize = from;
    while i < len && s.get_char(i) != '/'
        invariant
            from <= i <= len,
            len == s@.len(),
            slash_to(s@, from as int) == slash_to(s@, i as int),
        decreases len - i,
    {
        i = i + 1;
    }
    i
}

/// Parses a topic of the shape `parking/{lot}/{space}/status`, yielding the
/// original-case lot and space identifiers; anything else is rejected.
pub fn parse_topic(topic: &str) -> (r: Option<(String, String)>)
    ensures
        match r {
            Some(ids) => topic_match(topic@) && ids.0@ == topic_lot(topic@) && ids.1@
                == topic_space(topic@),
            None => !topic_match(topic@),
        },
{
    let len = topic.unicode_len();
    let i1 = find_slash(topic, 0);
    if i1 >= len {
        return None;
    }
    let i2 = find_slash(topic, i1 + 1);
    if i2 >= len {
        return None;
    }
    let i3 = find_slash(topic, i2 + 1);
    if i3 >= len {
        return None;
    }
    let i4 = find_slash(topic, i3 + 1);
    if i4 < len {
        return None;
    }
    let head = topic.substring_char(0, i1);
    if !str_eq(head, "parking") {
        return None;
    }
    let fourth = topic.substring_char(i3 + 1, i4);
    if !str_eq(fourth, "status") {
        return None;
    }
    let lot = topic.substring_char(i1 + 1, i2).to_owned();
    let space = topic.substring_char(i2 + 1, i3).to_owned();
    Some((lot, space))
}

/// A decoded event payload: the optional occupancy, the sensor liveness with
/// its default, and the optional unix timestamp.
pub struct EventMsg {
    pub occupied: Option<bool>,
    pub sensor_online: bool,
    pub ts: Option<i64>,
}

/// What an optional boolean field decodes to: absent or null is accepted as
/// absent, a boolean as itself, anything else is malformed.
pub open spec fn field_opt_bool(v: JVal, key: Seq<char>) -> Option<Option<bool>> {
    match jv_get(v, key) {
        None => Some(None),
        Some(JVal::Null) => Some(None),
        Some(JVal::Bool(b)) => Some(Some(b)),
        Some(_) => None,
    }
}

/// What the sensor-liveness field decodes to: absent means online, a boolean
/// means itself, anything else — null included — is malformed.
pub open spec fn field_bool_default_true(v: JVal, key: Seq<char>) -> Option<bool> {
    match jv_get(v, key) {
        None => Some(true),
        Some(JVal::Bool(b)) => Some(b),
        Some(_) => None,
    }
}

/// What an optional integer field decodes to: absent or null is accepted as
/// absent, an integer as itself, anything else — a fractional or oversized
/// number included — is malformed.
pub open spec fn field_opt_i64(v: JVal, key: Seq<char>) -> Option<Option<i64>> {
    match jv_get(v, key) {
        None => Some(None),
        Some(JVal::Null) => Some(None),
        Some(JVal::Int(i)) => Some(Some(i)),
        Some(_) => None,
    }
}

/// What a payload decodes to: it must be a JSON object whose three known
/// fields decode; unknown fields are ignored.
pub open spec fn decode_event_model(v: JVal) -> Option<(Option<bool>, bool, Option<i64>)> {
    if !(v is Obj) {
        None
    } else {
        match (field_opt_bool(v, "occupied"@), field_bool_default_true(v, "sensorOnline"@),
        field_opt_i64(v, "ts"@)) {
            (Some(occ), Some(so), Some(ts)) => Some((occ, so, ts)),
            _ => None,
        }
    }
}

/// Decodes an event payload document.
pub fn decode_event(v: &JsonValue) -> (r: Option<EventMsg>)
    ensures
        match r {
            Some(m) => decode_event_model(v@) == Some((m.occupied, m.sensor_online, m.ts)),
            None => decode_event_model(v@) is None,
        },
{
    match v {
        JsonValue::Obj(_) => {},
        _ => {
            return None;
        },
    }
    let occupied: Option<bool> = match obj_get(v, "occupied") {
        None => None,
        Some(x) => match as_bool(x) {
            Some(b) => Some(b),
            None => {
                if is_null(x) {
                    None
                } else {
                    return None;
                }
            },
        },
    };
    let sensor_online: bool = match obj_get(v, "sensorOnline") {
        None => crate::default_true(),
        Some(x) => match as_bool(x) {
            Some(b) => b,
            None => {
                return None;
            },
        },
    };
    let ts: Option<i64> = match obj_get(v, "ts") {
        None => None,
        Some(x) => match as_i64(x) {
            Some(i) => Some(i),
            None => {
                if is_null(x) {
                    None
                } else {
                    return None;
                }
            },
        },
    };
    Some(EventMsg { occupied, sensor_online, ts })
}

/// The verb of a store call.
#[derive(Clone, Copy)]
pub enum Method {
    Get,
    Post,
    Patch,
}

/// One store call the machine asks the surrounding process to perform.
pub struct HttpRequest {
    pub method: Method,
    pub url: String,
    pub body: Option<String>,
    pub content_type: Option<String>,
}

/// The model of a store call.
pub struct ReqModel {
    pub method: Method,
    pub url: Seq<char>,
    pub body: Option<Seq<char>>,
    pub content_type: Option<Seq<char>>,
}

impl View for HttpRequest {
    type V = ReqModel;

    open spec fn view(&self) -> ReqModel {
        ReqModel {
            method: self.method,
            url: self.url@,
            body: match self.body {
                Some(b) => Some(b@),
                None => None,
            },
            content_type: match self.content_type {
                Some(c) => Some(c@),
                None => None,
            },
        }
    }
}

/// The view of an optional request.
pub open spec fn req_view_opt(r: Option<HttpRequest>) -> Option<ReqModel> {
    match r {
        Some(q) => Some(q@),
        None => None,
    }
}

/// What came back from one store call: a status with its body, or a failure
/// before any response — a transport fault or an unavailable credential.
pub enum HttpOutcome {
    Response { status: u16, body: Vec<u8> },
    Failed,
}

/// The model of an outcome.
pub enum OutcomeModel {
    Response { status: int, body: Seq<u8> },
    Failed,
}

impl View for HttpOutcome {
    type V = OutcomeModel;

    open spec fn view(&self) -> OutcomeModel {
        match self {
            HttpOutcome::Response { status, body } => OutcomeModel::Response {
                status: *status as int,
                body: body@,
            },
            HttpOutcome::Failed => OutcomeModel::Failed,
        }
    }
}

/// Where the machine stands: which call it has just asked for.
#[derive(Clone, Copy)]
pub enum Phase {
    LotCreate,
    SpaceCreate,
    SpaceStatus,
    SpaceRecreate,
    SpaceStatusRetry,
    ListSpaces,
    LotCreateWithTotal,
    LotSpecPatch,
    LotStatus,
    LotRecreate,
    LotRecreateSpec,
    LotStatusRetry,
    Done,
}

/// The machine's state for one event.
pub struct EventState {
    pub phase: Phase,
    pub lot_id: String,
    pub space_id: String,
    pub occupied: bool,
    pub sensor_online: bool,
    pub last_seen: String,
    pub occ: i32,
    pub free: i32,
    pub lot_status_body: Option<String>,
}

/// The model of the machine's state.
pub struct StateModel {
    pub phase: Phase,
    pub lot_id: Seq<char>,
    pub space_id: Seq<char>,
    pub occupied: bool,
    pub sensor_online: bool,
    pub last_seen: Seq<char>,
    pub occ: int,
    pub free: int,
    pub lot_status_body: Option<Seq<char>>,
}

impl View for EventState {
    type V = StateModel;

    open spec fn view(&self) -> StateModel {
        StateModel {
            phase: self.phase,
            lot_id: self.lot_id@,
            space_id: self.space_id@,
            occupied: self.occupied,
            sensor_online: self.sensor_online,
            last_seen: self.last_seen@,
            occ: self.occ as int,
            free: self.free as int,
            lot_status_body: match self.lot_status_body {
                Some(b) => Some(b@),
                None => None,
            },
        }
    }
}

/// The terminal state: the event is handled, nothing more is asked.
pub open spec fn done_model() -> StateModel {
    StateModel {
        phase: Phase::Done,
        lot_id: Seq::empty(),
        space_id: Seq::empty(),
        occupied: false,
        sensor_online: true,
        last_seen: Seq::empty(),
        occ: 0,
        free: 0,
        lot_status_body: None,
    }
}

fn done_state() -> (r: EventState)
    ensures
        r@ == done_model(),
{
    EventState {
        phase: Phase::Done,
        lot_id: String::new(),
        space_id: String::new(),
        occupied: false,
        sensor_online: true,
        last_seen: String::new(),
        occ: 0,
        free: 0,
        lot_status_body: None,
    }
}

/// The create call for a lot record.
pub open spec fn lot_create_req(cfg: Config, lot: Seq<char>, total: Option<i32>) -> ReqModel {
    ReqModel {
        method: Method::Post,
        url: url_model(cfg, lots_path_model(cfg)),
        body: Some(lot_create_body_model(cfg, lot, total)),
        content_type: Some("application/json"@),
    }
}

fn build_lot_create(cfg: &Config, lot_id: &str, total: Option<i32>) -> (r: HttpRequest)
    ensures
        r@ == lot_create_req(*cfg, lot_id@, total),
{
    HttpRequest {
        method: Method::Post,
        url: url_of(cfg, lots_path(cfg).as_str()),
        body: Some(lot_create_body(cfg, lot_id, total)),
        content_type: Some("application/json".to_owned()),
    }
}

/// The create call for a space record.
pub open spec fn space_create_req(cfg: Config, lot: Seq<char>, space: Seq<char>) -> ReqModel {
    ReqModel {
        method: Method::Post,
        url: url_model(cfg, spaces_path_model(cfg)),
        body: Some(space_create_body_model(cfg, lot, space)),
        content_type: Some("application/json"@),
    }
}

fn build_space_create(cfg: &Config, lot_id: &str, space_id: &str) -> (r: HttpRequest)
    ensures
        r@ == space_create_req(*cfg, lot_id@, space_id@),
{
    HttpRequest {
        method: Method::Post,
        url: url_of(cfg, spaces_path(cfg).as_str()),
        body: Some(space_create_body(cfg, lot_id, space_id)),
        content_type: Some("application/json".to_owned()),
    }
}

/// The status merge-patch for a space record.
pub open spec fn space_status_req(
    cfg: Config,
    lot: Seq<char>,
    space: Seq<char>,
    occupied: bool,
    sensor_online: bool,
    last_seen: Seq<char>,
) -> ReqModel {
    ReqModel {
        method: Method::Patch,
        url: url_model(
            cfg,
            space_status_path_model(cfg, crate::wire::space_name_model(lot, space)),
        ),
        body: Some(space_status_body_model(occupied, sensor_online, last_seen)),
        content_type: Some("application/merge-patch+json"@),
    }
}

fn build_space_status(cfg: &Config, state: &EventState) -> (r: HttpRequest)
    ensures
        r@ == space_status_req(
            *cfg,
            state.lot_id@,
            state.space_id@,
            state.occupied,
            state.sensor_online,
            state.last_seen@,
        ),
{
    let name = crate::wire::space_name(state.lot_id.as_str(), state.space_id.as_str());
    HttpRequest {
        method: Method::Patch,
        url: url_of(cfg, space_status_path(cfg, name.as_str()).as_str()),
        body: Some(
            space_status_body(state.occupied, state.sensor_online, state.last_seen.as_str()),
        ),
        content_type: Some("application/merge-patch+json".to_owned()),
    }
}

/// The list call over all space records.
pub open spec fn list_spaces_req(cfg: Config) -> ReqModel {
    ReqModel {
        method: Method::Get,
        url: url_model(cfg, spaces_path_model(cfg)),
        body: None,
        content_type: None,
    }
}

fn build_list_spaces(cfg: &Config) -> (r: HttpRequest)
    ensures
        r@ == list_spaces_req(*cfg),
{
    HttpRequest {
        method: Method::Get,
        url: url_of(cfg, spaces_path(cfg).as_str()),
        body: None,
        content_type: None,
    }
}

/// The merge-patch correcting a lot's total spaces.
pub open spec fn lot_spec_patch_req(cfg: Config, lot: Seq<char>, total: int) -> ReqModel {
    ReqModel {
        method: Method::Patch,
        url: url_model(cfg, lot_path_model(cfg, crate::wire::lot_name_model(lot))),
        body: Some(lot_spec_patch_body_model(total)),
        content_type: Some("application/merge-patch+json"@),
    }
}

fn build_lot_spec_patch(cfg: &Config, lot_id: &str, total: i32) -> (r: HttpRequest)
    ensures
        r@ == lot_spec_patch_req(*cfg, lot_id@, total as int),
{
    let name = crate::wire::lot_name(lot_id);
    HttpRequest {
        method: Method::Patch,
        url: url_of(cfg, lot_path(cfg, name.as_str()).as_str()),
        body: Some(lot_spec_patch_body(total)),
        content_type: Some("application/merge-patch+json".to_owned()),
    }
}

/// The status merge-patch for a lot record, with a prebuilt body.
pub open spec fn lot_status_req(cfg: Config, lot: Seq<char>, body: Seq<char>) -> ReqModel {
    ReqModel {
        method: Method::Patch,
        url: url_model(cfg, lot_status_path_model(cfg, crate::wire::lot_name_model(lot))),
        body: Some(body),
        content_type: Some("application/merge-patch+json"@),
    }
}

fn build_lot_status(cfg: &Config, lot_id: &str, body: String) -> (r: HttpRequest)
    ensures
        r@ == lot_status_req(*cfg, lot_id@, body@),
{
    let name = crate::wire::lot_name(lot_id);
    HttpRequest {
        method: Method::Patch,
        url: url_of(cfg, lot_status_path(cfg, name.as_str()).as_str()),
        body: Some(body),
        content_type: Some("application/merge-patch+json".to_owned()),
    }
}

/// An `i32` sum saturated at the type's bounds; in every reachable state the
/// operands are counts whose exact sum fits.
pub open spec fn sum_i32(a: int, b: int) -> int {
    if a + b > 0x7fffffff {
        0x7fffffff
    } else if a + b < -0x80000000 {
        -0x80000000
    } else {
        a + b
    }
}

fn add_i32_saturating(a: i32, b: i32) -> (r: i32)
    ensures
        r as int == sum_i32(a as int, b as int),
{
    let t: i64 = a as i64 + b as i64;
    if t > 0x7fffffff {
        i32::MAX
    } else if t < -0x80000000 {
        i32::MIN
    } else {
        t as i32
    }
}

/// The timestamp written into a space's status: the event's own timestamp
/// where it has one and the calendar can render it, else the current instant
/// handed in as `now_str`.
pub open spec fn last_seen_model(ts: Option<i64>, now_ts: int, now_str: Seq<char>) -> Seq<char> {
    let chosen = match ts {
        Some(t) => t as int,
        None => now_ts,
    };
    if crate::clock::rfc3339_in_range(chosen) {
        rfc3339_of(chosen)
    } else {
        now_str
    }
}

/// What handling an inbound event begins with, given the instant `now_ts` /
/// `now_str` at which it is processed: a malformed topic or payload ends the
/// machine at once with no call; otherwise the machine asks for the lot
/// create and remembers the normalized event fields.
pub open spec fn start_model(
    cfg: Config,
    topic: Seq<char>,
    payload: Seq<u8>,
    now_ts: int,
    now_str: Seq<char>,
) -> (StateModel, Option<ReqModel>) {
    if !topic_match(topic) {
        (done_model(), None::<ReqModel>)
    } else {
        match json_of(payload) {
            None => (done_model(), None::<ReqModel>),
            Some(doc) => match decode_event_model(doc) {
                None => (done_model(), None::<ReqModel>),
                Some((occ, so, ts)) => {
                    let st = StateModel {
                        phase: Phase::LotCreate,
                        lot_id: topic_lot(topic),
                        space_id: topic_space(topic),
                        occupied: match occ {
                            Some(b) => b,
                            None => false,
                        },
                        sensor_online: so,
                        last_seen: last_seen_model(ts, now_ts, now_str),
                        occ: 0,
                        free: 0,
                        lot_status_body: None,
                    };
                    (st, Some(lot_create_req(cfg, topic_lot(topic), None::<i32>)))
                },
            },
        }
    }
}

/// A topic without the handled shape triggers no outbound call: the machine
/// is immediately done, whatever the payload and the instant.
pub proof fn lemma_malformed_topic_no_calls(
    cfg: Config,
    topic: Seq<char>,
    payload: Seq<u8>,
    now_ts: int,
    now_str: Seq<char>,
)
    requires
        !topic_match(topic),
    ensures
        start_model(cfg, topic, payload, now_ts, now_str) == (done_model(), None::<ReqModel>),
{
}

/// Begins handling one inbound event: parses and normalizes it, and asks for
/// the first store call.  Whatever happens, the machine reaches `Done`
/// without a panic: failure to understand the event drops it.
pub fn start_event(cfg: &Config, topic: &str, payload: &[u8]) -> (r: (
    EventState,
    Option<HttpRequest>,
))
    ensures
        exists|now_ts: int, now_str: Seq<char>|
            (r.0@, req_view_opt(r.1)) == start_model(*cfg, topic@, payload@, now_ts, now_str),
{
    let parsed = parse_topic(topic);
    let (lot_id, space_id) = match parsed {
        Some(p) => p,
        None => {
            let r: (EventState, Option<HttpRequest>) = (done_state(), None);
            proof {
                assert((r.0@, req_view_opt(r.1)) == start_model(
                    *cfg,
                    topic@,
                    payload@,
                    0,
                    Seq::empty(),
                ));
            }
            return r;
        },
    };
    let doc = match parse_json(payload) {
        Some(d) => d,
        None => {
            let r: (EventState, Option<HttpRequest>) = (done_state(), None);
            proof {
                assert((r.0@, req_view_opt(r.1)) == start_model(
                    *cfg,
                    topic@,
                    payload@,
                    0,
                    Seq::empty(),
                ));
            }
            return r;
        },
    };
    let msg = match decode_event(&doc) {
        Some(m) => m,
        None => {
            let r: (EventState, Option<HttpRequest>) = (done_state(), None);
            proof {
                assert((r.0@, req_view_opt(r.1)) == start_model(
                    *cfg,
                    topic@,
                    payload@,
                    0,
                    Seq::empty(),
                ));
            }
            return r;
        },
    };
    let occupied = match msg.occupied {
        Some(b) => b,
        None => false,
    };
    let chosen: i64 = match msg.ts {
        Some(t) => t,
        None => now_unix(),
    };
    let last_seen: String = match format_unix_rfc3339(chosen) {
        Some(s) => s,
        None => match now_rfc3339() {
            Some(s) => s,
            None => String::new(),
        },
    };
    let req = build_lot_create(cfg, lot_id.as_str(), None);
    let st = EventState {
        phase: Phase::LotCreate,
        lot_id,
        space_id,
        occupied,
        sensor_online: msg.sensor_online,
        last_seen,
        occ: 0,
        free: 0,
        lot_status_body: None,
    };
    let r = (st, Some(req));
    proof {
        assert((r.0@, req_view_opt(r.1)) == start_model(
            *cfg,
            topic@,
            payload@,
            chosen as int,
            r.0.last_seen@,
        ));
    }
    r
}

/// Entry into the lot-status patch: the body is built once, with the instant
/// `now_str`, and remembered for a possible retry.
pub open spec fn to_lot_status(cfg: Config, s: StateModel, now_str: Seq<char>) -> (
    StateModel,
    Option<ReqModel>,
) {
    let body = lot_status_body_model(s.occ, s.free, now_str);
    (
        StateModel { phase: Phase::LotStatus, lot_status_body: Some(body), ..s },
        Some(lot_status_req(cfg, s.lot_id, body)),
    )
}

/// The body a lot-status retry sends: the remembered one; where none is
/// remembered the machine rebuilds it at the instant `now_str`.
pub open spec fn retry_body(s: StateModel, now_str: Seq<char>) -> Seq<char> {
    match s.lot_status_body {
        Some(b) => b,
        None => lot_status_body_model(s.occ, s.free, now_str),
    }
}

/// One transition of the machine: from the state and the outcome of the call
/// it was waiting for, to the next state and the next call, if any.  This is
/// the whole protocol: create results are absorbed (a conflict on the lot
/// create with a hint turns into the spec patch), a 404 on a status patch
/// triggers one create-and-retry, a failed or failed-to-parse list yields
/// the fail-safe zero counts, and every other outcome moves on.
pub open spec fn step_model(cfg: Config, s: StateModel, o: OutcomeModel, now_str: Seq<char>) -> (
    StateModel,
    Option<ReqModel>,
) {
    match s.phase {
        Phase::LotCreate => (
            StateModel { phase: Phase::SpaceCreate, ..s },
            Some(space_create_req(cfg, s.lot_id, s.space_id)),
        ),
        Phase::SpaceCreate => (
            StateModel { phase: Phase::SpaceStatus, ..s },
            Some(
                space_status_req(cfg, s.lot_id, s.space_id, s.occupied, s.sensor_online, s.last_seen),
            ),
        ),
        Phase::SpaceStatus => match o {
            OutcomeModel::Response { status, .. } => if status == 404 {
                (
                    StateModel { phase: Phase::SpaceRecreate, ..s },
                    Some(space_create_req(cfg, s.lot_id, s.space_id)),
                )
            } else {
                (StateModel { phase: Phase::ListSpaces, ..s }, Some(list_spaces_req(cfg)))
            },
            OutcomeModel::Failed => (
                StateModel { phase: Phase::ListSpaces, ..s },
                Some(list_spaces_req(cfg)),
            ),
        },
        Phase::SpaceRecreate => (
            StateModel { phase: Phase::SpaceStatusRetry, ..s },
            Some(
                space_status_req(cfg, s.lot_id, s.space_id, s.occupied, s.sensor_online, s.last_seen),
            ),
        ),
        Phase::SpaceStatusRetry => (
            StateModel { phase: Phase::ListSpaces, ..s },
            Some(list_spaces_req(cfg)),
        ),
        Phase::ListSpaces => {
            let counts = match o {
                OutcomeModel::Response { status, body } => recount_model(status, body, s.lot_id),
                OutcomeModel::Failed => (0int, 0int),
            };
            let s2 = StateModel {
                phase: Phase::LotCreateWithTotal,
                occ: counts.0,
                free: counts.1,
                ..s
            };
            (
                s2,
                Some(
                    lot_create_req(cfg, s.lot_id, Some(sum_i32(counts.0, counts.1) as i32)),
                ),
            )
        },
        Phase::LotCreateWithTotal => match o {
            OutcomeModel::Response { status, .. } => if status == 409 {
                (
                    StateModel { phase: Phase::LotSpecPatch, ..s },
                    Some(lot_spec_patch_req(cfg, s.lot_id, sum_i32(s.occ, s.free))),
                )
            } else {
                to_lot_status(cfg, s, now_str)
            },
            OutcomeModel::Failed => to_lot_status(cfg, s, now_str),
        },
        Phase::LotSpecPatch => to_lot_status(cfg, s, now_str),
        Phase::LotStatus => match o {
            OutcomeModel::Response { status, .. } => if status == 404 {
                (
                    StateModel { phase: Phase::LotRecreate, ..s },
                    Some(lot_create_req(cfg, s.lot_id, Some(sum_i32(s.occ, s.free) as i32))),
                )
            } else {
                (StateModel { phase: Phase::Done, ..s }, None::<ReqModel>)
            },
            OutcomeModel::Failed => (StateModel { phase: Phase::Done, ..s }, None::<ReqModel>),
        },
        Phase::LotRecreate => match o {
            OutcomeModel::Response { status, .. } => if status == 409 {
                (
                    StateModel { phase: Phase::LotRecreateSpec, ..s },
                    Some(lot_spec_patch_req(cfg, s.lot_id, sum_i32(s.occ, s.free))),
                )
            } else {
                (
                    StateModel { phase: Phase::LotStatusRetry, ..s },
                    Some(lot_status_req(cfg, s.lot_id, retry_body(s, now_str))),
                )
            },
            OutcomeModel::Failed => (
                StateModel { phase: Phase::LotStatusRetry, ..s },
                Some(lot_status_req(cfg, s.lot_id, retry_body(s, now_str))),
            ),
        },
        Phase::LotRecreateSpec => (
            StateModel { phase: Phase::LotStatusRetry, ..s },
            Some(lot_status_req(cfg, s.lot_id, retry_body(s, now_str))),
        ),
        Phase::LotStatusRetry => (StateModel { phase: Phase::Done, ..s }, None::<ReqModel>),
        Phase::Done => (StateModel { phase: Phase::Done, ..s }, None::<ReqModel>),
    }
}

/// The current instant as text, with an empty fallback that the calendar
/// never actually takes.
fn now_text() -> (r: String) {
    match now_rfc3339() {
        Some(s) => s,
        None => String::new(),
    }
}

/// Performs one transition of the machine.
pub fn step(cfg: &Config, state: EventState, outcome: &HttpOutcome) -> (r: (
    EventState,
    Option<HttpRequest>,
))
    ensures
        exists|now_str: Seq<char>|
            (r.0@, req_view_opt(r.1)) == step_model(*cfg, state@, outcome@, now_str),
{
    let ghost s0 = state@;
    let ghost o0 = outcome@;
    match state.phase {
        Phase::LotCreate => {
            let req = build_space_create(cfg, state.lot_id.as_str(), state.space_id.as_str());
            let r = (EventState { phase: Phase::SpaceCreate, ..state }, Some(req));
            proof {
                assert((r.0@, req_view_opt(r.1)) == step_model(*cfg, s0, o0, Seq::empty()));
            }
            r
        },
        Phase::SpaceCreate => {
            let req = build_space_status(cfg, &state);
            let r = (EventState { phase: Phase::SpaceStatus, ..state }, Some(req));
            proof {
                assert((r.0@, req_view_opt(r.1)) == step_model(*cfg, s0, o0, Seq::empty()));
            }
            r
        },
        Phase::SpaceStatus => {
            let not_found = match outcome {
                HttpOutcome::Response { status, .. } => *status == 404,
                HttpOutcome::Failed => false,
            };
            let r = if not_found {
                let req = build_space_create(cfg, state.lot_id.as_str(), state.space_id.as_str());
                (EventState { phase: Phase::SpaceRecreate, ..state }, Some(req))
            } else {
                (EventState { phase: Phase::ListSpaces, ..state }, Some(build_list_spaces(cfg)))
            };
            proof {
                assert((r.0@, req_view_opt(r.1)) == step_model(*cfg, s0, o0, Seq::empty()));
            }
            r
        },
        Phase::SpaceRecreate => {
            let req = build_space_status(cfg, &state);
            let r = (EventState { phase: Phase::SpaceStatusRetry, ..state }, Some(req));
            proof {
                assert((r.0@, req_view_opt(r.1)) == step_model(*cfg, s0, o0, Seq::empty()));
            }
            r
        },
        Phase::SpaceStatusRetry => {
            let r = (
                EventState { phase: Phase::ListSpaces, ..state },
                Some(build_list_spaces(cfg)),
            );
            proof {
                assert((r.0@, req_view_opt(r.1)) == step_model(*cfg, s0, o0, Seq::empty()));
            }
            r
        },
        Phase::ListSpaces => {
            let (occ, free) = match outcome {
                HttpOutcome::Response { status, body } => crate::recount::recount_from_list(
                    *status,
                    body.as_slice(),
                    state.lot_id.as_str(),
                ),
                HttpOutcome::Failed => (0i32, 0i32),
            };
            let total = add_i32_saturating(occ, free);
            let req = build_lot_create(cfg, state.lot_id.as_str(), Some(total));
            let r = (
                EventState { phase: Phase::LotCreateWithTotal, occ, free, ..state },
                Some(req),
            );
            proof {
                assert((r.0@, req_view_opt(r.1)) == step_model(*cfg, s0, o0, Seq::empty()));
            }
            r
        },
        Phase::LotCreateWithTotal => {
            let conflict = match outcome {
                HttpOutcome::Response { status, .. } => *status == 409,
                HttpOutcome::Failed => false,
            };
            if conflict {
                let total = add_i32_saturating(state.occ, state.free);
                let req = build_lot_spec_patch(cfg, state.lot_id.as_str(), total);
                let r = (EventState { phase: Phase::LotSpecPatch, ..state }, Some(req));
                proof {
                    assert((r.0@, req_view_opt(r.1)) == step_model(*cfg, s0, o0, Seq::empty()));
                }
                r
            } else {
                let now_s = now_text();
                let body = lot_status_body(state.occ, state.free, now_s.as_str());
                let req = build_lot_status(cfg, state.lot_id.as_str(), body.clone());
                let r = (
                    EventState {
                        phase: Phase::LotStatus,
                        lot_status_body: Some(body),
                        ..state
                    },
                    Some(req),
                );
                proof {
                    assert((r.0@, req_view_opt(r.1)) == step_model(*cfg, s0, o0, now_s@));
                }
                r
            }
        },
        Phase::LotSpecPatch => {
            let now_s = now_text();
            let body = lot_status_body(state.occ, state.free, now_s.as_str());
            let req = build_lot_status(cfg, state.lot_id.as_str(), body.clone());
            let r = (
                EventState { phase: Phase::LotStatus, lot_status_body: Some(body), ..state },
                Some(req),
            );
            proof {
                assert((r.0@, req_view_opt(r.1)) == step_model(*cfg, s0, o0, now_s@));
            }
            r
        },
        Phase::LotStatus => {
            let not_found = match outcome {
                HttpOutcome::Response { status, .. } => *status == 404,
                HttpOutcome::Failed => false,
            };
            let r = if not_found {
                let total = add_i32_saturating(state.occ, state.free);
                let req = build_lot_create(cfg, state.lot_id.as_str(), Some(total));
                (EventState { phase: Phase::LotRecreate, ..state }, Some(req))
            } else {
                (EventState { phase: Phase::Done, ..state }, None)
            };
            proof {
                assert((r.0@, req_view_opt(r.1)) == step_model(*cfg, s0, o0, Seq::empty()));
            }
            r
        },
        Phase::LotRecreate => {
            let conflict = match outcome {
                HttpOutcome::Response { status, .. } => *status == 409,
                HttpOutcome::Failed => false,
            };
            if conflict {
                let total = add_i32_saturating(state.occ, state.free);
                let req = build_lot_spec_patch(cfg, state.lot_id.as_str(), total);
                let r = (EventState { phase: Phase::LotRecreateSpec, ..state }, Some(req));
                proof {
                    assert((r.0@, req_view_opt(r.1)) == step_model(*cfg, s0, o0, Seq::empty()));
                }
                r
            } else {
                let (body, now_w): (String, Ghost<Seq<char>>) = match &state.lot_status_body {
                    Some(b) => (b.clone(), Ghost(Seq::empty())),
                    None => {
                        let now_s = now_text();
                        let b = lot_status_body(state.occ, state.free, now_s.as_str());
                        (b, Ghost(now_s@))
                    },
                };
                let req = build_lot_status(cfg, state.lot_id.as_str(), body);
                let r = (EventState { phase: Phase::LotStatusRetry, ..state }, Some(req));
                proof {
                    assert((r.0@, req_view_opt(r.1)) == step_model(*cfg, s0, o0, now_w@));
                }
                r
            }
        },
        Phase::LotRecreateSpec => {
            let (body, now_w): (String, Ghost<Seq<char>>) = match &state.lot_status_body {
                Some(b) => (b.clone(), Ghost(Seq::empty())),
                None => {
                    let now_s = now_text();
                    let b = lot_status_body(state.occ, state.free, now_s.as_str());
                    (b, Ghost(now_s@))
                },
            };
            let req = build_lot_status(cfg, state.lot_id.as_str(), body);
            let r = (EventState { phase: Phase::LotStatusRetry, ..state }, Some(req));
            proof {
                assert((r.0@, req_view_opt(r.1)) == step_model(*cfg, s0, o0, now_w@));
            }
            r
        },
        Phase::LotStatusRetry => {
            let r = (EventState { phase: Phase::Done, ..state }, None);
            proof {
                assert((r.0@, req_view_opt(r.1)) == step_model(*cfg, s0, o0, Seq::empty()));
            }
            r
        },
        Phase::Done => {
            let r = (EventState { phase: Phase::Done, ..state }, None);
            proof {
                assert((r.0@, req_view_opt(r.1)) == step_model(*cfg, s0, o0, Seq::empty()));
            }
            r
        },
    }
}

} // verus!
