use parking_reconciler::config::{Config, ConfigSources, VarSource, env_cfg};
use parking_reconciler::reconcile::{
    EventState, HttpOutcome, HttpRequest, Method, Phase, start_event, step, decode_event,
};
use parking_reconciler::json::JsonValue;

fn cfg() -> Config {
    env_cfg(
        &ConfigSources {
            scheme: VarSource { var: None, env: None },
            host: VarSource { var: None, env: None },
            port: VarSource { var: None, env: None },
            group: VarSource { var: None, env: None },
            version: VarSource { var: None, env: None },
        },
        None,
    )
}

fn resp(status: u16) -> HttpOutcome {
    HttpOutcome::Response { status, body: Vec::new() }
}

fn resp_body(status: u16, body: &[u8]) -> HttpOutcome {
    HttpOutcome::Response { status, body: body.to_vec() }
}

const BASE: &str = "http://kubeapi-proxy.smart-parking.svc.cluster.local:8000";

#[test]
fn end_to_end_event() {
    let c = cfg();
    let payload = br#"{"occupied":true,"ts":1700000000}"#;
    let (st, req) = start_event(&c, "parking/LotA/S1/status", payload);

    // 1. Create the lot, without forcing a total yet.
    let req = req.expect("lot create expected");
    assert!(matches!(req.method, Method::Post));
    assert_eq!(
        req.url,
        format!("{BASE}/apis/parking.smart/v1alpha1/namespaces/smart-parking/parkinglots")
    );
    assert_eq!(
        req.body.as_deref().unwrap(),
        r#"{"apiVersion":"parking.smart/v1alpha1","kind":"ParkingLot","metadata":{"name":"lota"},"spec":{"lotId":"LotA","totalSpaces":0}}"#
    );
    assert_eq!(req.content_type.as_deref().unwrap(), "application/json");

    // 2. Create the space.
    let (st, req) = step(&c, st, &resp(201));
    let req = req.expect("space create expected");
    assert!(matches!(req.method, Method::Post));
    assert_eq!(
        req.url,
        format!("{BASE}/apis/parking.smart/v1alpha1/namespaces/smart-parking/parkingspaces")
    );
    assert_eq!(
        req.body.as_deref().unwrap(),
        r#"{"apiVersion":"parking.smart/v1alpha1","kind":"ParkingSpace","metadata":{"name":"lota-s1"},"spec":{"lotId":"LotA","spaceId":"S1"}}"#
    );

    // 3. Patch the space status with the event-derived timestamp.
    let (st, req) = step(&c, st, &resp(201));
    let req = req.expect("space status patch expected");
    assert!(matches!(req.method, Method::Patch));
    assert_eq!(
        req.url,
        format!(
            "{BASE}/apis/parking.smart/v1alpha1/namespaces/smart-parking/parkingspaces/lota-s1/status"
        )
    );
    assert_eq!(
        req.body.as_deref().unwrap(),
        r#"{"status":{"occupied":true,"sensorOnline":true,"lastSeen":"2023-11-14T22:13:20Z"}}"#
    );
    assert_eq!(req.content_type.as_deref().unwrap(), "application/merge-patch+json");

    // 4. List all spaces for the recount.
    let (st, req) = step(&c, st, &resp(200));
    let req = req.expect("list expected");
    assert!(matches!(req.method, Method::Get));
    assert_eq!(
        req.url,
        format!("{BASE}/apis/parking.smart/v1alpha1/namespaces/smart-parking/parkingspaces")
    );
    assert!(req.body.is_none());

    // The store holds the just-written S1 and a pre-existing free S2.
    let listing = br#"{"items":[
        {"spec":{"lotId":"LotA","spaceId":"S1"},"status":{"occupied":true}},
        {"spec":{"lotId":"LotA","spaceId":"S2"},"status":{"occupied":false}}
    ]}"#;

    // 5. Correct the lot's total to the freshly observed 2.
    let (st, req) = step(&c, st, &resp_body(200, listing));
    let req = req.expect("lot create with total expected");
    assert!(matches!(req.method, Method::Post));
    assert_eq!(
        req.body.as_deref().unwrap(),
        r#"{"apiVersion":"parking.smart/v1alpha1","kind":"ParkingLot","metadata":{"name":"lota"},"spec":{"lotId":"LotA","totalSpaces":2}}"#
    );
    assert_eq!(st.occ, 1);
    assert_eq!(st.free, 1);

    // 6. The lot exists: the conflict turns into the spec merge-patch.
    let (st, req) = step(&c, st, &resp(409));
    let req = req.expect("lot spec patch expected");
    assert!(matches!(req.method, Method::Patch));
    assert_eq!(
        req.url,
        format!("{BASE}/apis/parking.smart/v1alpha1/namespaces/smart-parking/parkinglots/lota")
    );
    assert_eq!(req.body.as_deref().unwrap(), r#"{"spec":{"totalSpaces":2}}"#);

    // 7. Patch the lot status with the recounted pair.
    let (st, req) = step(&c, st, &resp(200));
    let req = req.expect("lot status patch expected");
    assert!(matches!(req.method, Method::Patch));
    assert_eq!(
        req.url,
        format!(
            "{BASE}/apis/parking.smart/v1alpha1/namespaces/smart-parking/parkinglots/lota/status"
        )
    );
    let body = req.body.as_deref().unwrap().to_string();
    assert!(body.starts_with(r#"{"status":{"occupied":1,"free":1,"lastUpdate":""#));
    assert!(body.ends_with(r#""}}"#));

    // 8. Done: nothing more is asked.
    let (st, req) = step(&c, st, &resp(200));
    assert!(req.is_none());
    assert!(matches!(st.phase, Phase::Done));
}

#[test]
fn malformed_topic_is_dropped() {
    let c = cfg();
    let (st, req) = start_event(&c, "foo/bar", br#"{"occupied":true}"#);
    assert!(req.is_none());
    assert!(matches!(st.phase, Phase::Done));
}

#[test]
fn malformed_payload_is_dropped() {
    let c = cfg();
    let (st, req) = start_event(&c, "parking/LotA/S1/status", b"{broken");
    assert!(req.is_none());
    assert!(matches!(st.phase, Phase::Done));
    // A wrongly typed known field drops the event too.
    let (st2, req2) = start_event(&c, "parking/LotA/S1/status", br#"{"occupied":"yes"}"#);
    assert!(req2.is_none());
    assert!(matches!(st2.phase, Phase::Done));
    // So does a fractional timestamp.
    let (st3, req3) = start_event(&c, "parking/LotA/S1/status", br#"{"ts":1.5}"#);
    assert!(req3.is_none());
    assert!(matches!(st3.phase, Phase::Done));
}

#[test]
fn epoch_timestamp_renders() {
    let c = cfg();
    let (st, _) = start_event(&c, "parking/LotA/S1/status", br#"{"ts":0}"#);
    let (st, _) = step(&c, st, &resp(201));
    let (_, req) = step(&c, st, &resp(201));
    assert_eq!(
        req.unwrap().body.as_deref().unwrap(),
        r#"{"status":{"occupied":false,"sensorOnline":true,"lastSeen":"1970-01-01T00:00:00Z"}}"#
    );
}

#[test]
fn payload_defaults() {
    let doc = JsonValue::Obj(vec![]);
    let m = decode_event(&doc).unwrap();
    assert_eq!(m.occupied, None);
    assert!(m.sensor_online);
    assert_eq!(m.ts, None);

    let doc = JsonValue::Obj(vec![
        ("occupied".to_string(), JsonValue::Null),
        ("sensorOnline".to_string(), JsonValue::Bool(false)),
        ("ts".to_string(), JsonValue::Null),
        ("other".to_string(), JsonValue::Arr(vec![JsonValue::Int(1)])),
    ]);
    let m = decode_event(&doc).unwrap();
    assert_eq!(m.occupied, None);
    assert!(!m.sensor_online);
    assert_eq!(m.ts, None);

    // A non-integer timestamp is malformed, as are a null sensor flag and a
    // payload that is no object at all.
    let doc = JsonValue::Obj(vec![("ts".to_string(), JsonValue::OtherNum)]);
    assert!(decode_event(&doc).is_none());
    let doc = JsonValue::Obj(vec![("sensorOnline".to_string(), JsonValue::Null)]);
    assert!(decode_event(&doc).is_none());
    assert!(decode_event(&JsonValue::Int(7)).is_none());
}

fn drive_to_space_status(c: &Config) -> (EventState, HttpRequest) {
    let (st, _) = start_event(c, "parking/LotA/S1/status", br#"{"occupied":true,"ts":1700000000}"#);
    let (st, _) = step(c, st, &resp(201));
    let (st, req) = step(c, st, &resp(201));
    (st, req.unwrap())
}

#[test]
fn create_conflict_is_absorbed() {
    // Whether the first create answers 201 or 409, the machine proceeds
    // identically: the conflict is an expected, absorbed outcome.
    let c = cfg();
    let payload = br#"{"occupied":true,"ts":1700000000}"#;
    let (s1, _) = start_event(&c, "parking/LotA/S1/status", payload);
    let (s2, _) = start_event(&c, "parking/LotA/S1/status", payload);
    let (s1, r1) = step(&c, s1, &resp(201));
    let (s2, r2) = step(&c, s2, &resp(409));
    assert_eq!(r1.unwrap().url, r2.unwrap().url);
    assert!(matches!(s1.phase, Phase::SpaceCreate));
    assert!(matches!(s2.phase, Phase::SpaceCreate));
}

#[test]
fn space_status_recovery_retries_same_patch() {
    let c = cfg();
    let (st, patch1) = drive_to_space_status(&c);
    let original_body = patch1.body.clone().unwrap();
    let original_url = patch1.url.clone();

    // The record is missing: the machine creates it, then retries the very
    // same patch.
    let (st, req) = step(&c, st, &resp(404));
    let create = req.unwrap();
    assert!(matches!(create.method, Method::Post));
    assert!(create.url.ends_with("/parkingspaces"));

    let (st, req) = step(&c, st, &resp(201));
    let retry = req.unwrap();
    assert!(matches!(retry.method, Method::Patch));
    assert_eq!(retry.url, original_url);
    assert_eq!(retry.body.unwrap(), original_body);
    assert!(matches!(st.phase, Phase::SpaceStatusRetry));
}

#[test]
fn lot_status_recovery_retries_stored_body() {
    let c = cfg();
    let (st, _) = drive_to_space_status(&c);
    let (st, _) = step(&c, st, &resp(200));
    let listing = br#"{"items":[{"spec":{"lotId":"LotA"},"status":{"occupied":true}}]}"#;
    let (st, _) = step(&c, st, &resp_body(200, listing));
    let (st, req) = step(&c, st, &resp(201));
    let patch1 = req.unwrap();
    let original_body = patch1.body.clone().unwrap();

    // 404 on the status patch: recreate the lot with the observed total,
    // absorb its conflict via the spec patch, then retry the stored body —
    // timestamp included — unchanged.
    let (st, req) = step(&c, st, &resp(404));
    let recreate = req.unwrap();
    assert!(matches!(recreate.method, Method::Post));
    assert!(recreate.body.unwrap().contains(r#""totalSpaces":1"#));

    let (st, req) = step(&c, st, &resp(409));
    let spec_patch = req.unwrap();
    assert_eq!(spec_patch.body.as_deref().unwrap(), r#"{"spec":{"totalSpaces":1}}"#);

    let (st, req) = step(&c, st, &resp(200));
    let retry = req.unwrap();
    assert_eq!(retry.body.unwrap(), original_body);

    let (st, req) = step(&c, st, &resp(200));
    assert!(req.is_none());
    assert!(matches!(st.phase, Phase::Done));
}

#[test]
fn listing_failure_zeroes_the_counts() {
    let c = cfg();
    let (st, _) = drive_to_space_status(&c);
    let (st, _) = step(&c, st, &resp(200));
    // The list call fails outright: the fail-safe writes (0, 0).
    let (st, req) = step(&c, st, &HttpOutcome::Failed);
    assert_eq!(st.occ, 0);
    assert_eq!(st.free, 0);
    assert!(req.unwrap().body.unwrap().contains(r#""totalSpaces":0"#));
}

#[test]
fn transport_failure_skips_forward() {
    let c = cfg();
    let payload = br#"{"occupied":false}"#;
    let (st, _) = start_event(&c, "parking/LotA/S1/status", payload);
    // Every call fails; the machine still walks the whole sequence and ends.
    let mut st = st;
    let mut hops = 0;
    loop {
        let (next, req) = step(&c, st, &HttpOutcome::Failed);
        st = next;
        hops += 1;
        assert!(hops < 20, "the machine must terminate");
        if req.is_none() {
            break;
        }
    }
    assert!(matches!(st.phase, Phase::Done));
}
