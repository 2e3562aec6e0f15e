//! Request text: resource names, API paths, and JSON bodies.
//!
//! The store addresses records by lowercased names; the bodies are the exact
//! JSON documents the reconciler sends.  Each builder's contract gives the
//! full character sequence it produces.

use vstd::prelude::*;
use vstd::string::*;
use crate::config::{Config, base_url};
use crate::textfmt::{json_escape, json_escaped, format_i32, int_str, bool_str, bool_str_model};

verus! {

/// What `str::to_lowercase` returns for the given characters: it depends on
/// them alone.
pub uninterp spec fn lower_of(s: Seq<char>) -> Seq<char>;

/// Relies on `str::to_lowercase`: the result is a function of the input
/// characters alone.
#[verifier::external_body]
fn to_lower(s: &str) -> (r: String)
    ensures
        r@ == lower_of(s@),
{
    s.to_lowercase()
}

/// The identity of a lot record: its lowercased lot identifier.
pub open spec fn lot_name_model(lot_id: Seq<char>) -> Seq<char> {
    lower_of(lot_id)
}

/// The identity of a space record: `{lotId}-{spaceId}`, lowercased.
pub open spec fn space_name_model(lot_id: Seq<char>, space_id: Seq<char>) -> Seq<char> {
    lower_of(lot_id + "-"@ + space_id)
}

/// Derives the name of a lot record.
pub fn lot_name(lot_id: &str) -> (r: String)
    ensures
        r@ == lot_name_model(lot_id@),
{
    to_lower(lot_id)
}

/// Derives the name of a space record.
pub fn space_name(lot_id: &str, space_id: &str) -> (r: String)
    ensures
        r@ == space_name_model(lot_id@, space_id@),
{
    let mut s = lot_id.to_owned();
    s.append("-");
    s.append(space_id);
    to_lower(s.as_str())
}

/// The collection path for one resource plural.
pub open spec fn collection_path_model(cfg: Config, plural: Seq<char>) -> Seq<char> {
    "/apis/"@ + cfg.group@ + "/"@ + cfg.version@ + "/namespaces/"@ + cfg.namespace@ + "/"@ + plural
}

fn collection_path(cfg: &Config, plural: &str) -> (r: String)
    ensures
        r@ == collection_path_model(*cfg, plural@),
{
    let mut s = "/apis/".to_owned();
    s.append(cfg.group.as_str());
    s.append("/");
    s.append(cfg.version.as_str());
    s.append("/namespaces/");
    s.append(cfg.namespace.as_str());
    s.append("/");
    s.append(plural);
    s
}

/// The collection path of the lot records.
pub open spec fn lots_path_model(cfg: Config) -> Seq<char> {
    collection_path_model(cfg, "parkinglots"@)
}

/// The collection path of the space records.
pub open spec fn spaces_path_model(cfg: Config) -> Seq<char> {
    collection_path_model(cfg, "parkingspaces"@)
}

/// Builds the lot collection path.
pub fn lots_path(cfg: &Config) -> (r: String)
    ensures
        r@ == lots_path_model(*cfg),
{
    collection_path(cfg, "parkinglots")
}

/// Builds the space collection path.
pub fn spaces_path(cfg: &Config) -> (r: String)
    ensures
        r@ == spaces_path_model(*cfg),
{
    collection_path(cfg, "parkingspaces")
}

/// The path of one named lot record.
pub open spec fn lot_path_model(cfg: Config, name: Seq<char>) -> Seq<char> {
    lots_path_model(cfg) + "/"@ + name
}

/// Builds the path of one named lot record.
pub fn lot_path(cfg: &Config, name: &str) -> (r: String)
    ensures
        r@ == lot_path_model(*cfg, name@),
{
    let mut s = lots_path(cfg);
    s.append("/");
    s.append(name);
    s
}

/// The status sub-path of one named lot record.
pub open spec fn lot_status_path_model(cfg: Config, name: Seq<char>) -> Seq<char> {
    lot_path_model(cfg, name) + "/status"@
}

/// Builds the status sub-path of one named lot record.
pub fn lot_status_path(cfg: &Config, name: &str) -> (r: String)
    ensures
        r@ == lot_status_path_model(*cfg, name@),
{
    let mut s = lot_path(cfg, name);
    s.append("/status");
    s
}

/// The status sub-path of one named space record.
pub open spec fn space_status_path_model(cfg: Config, name: Seq<char>) -> Seq<char> {
    spaces_path_model(cfg) + "/"@ + name + "/status"@
}

/// Builds the status sub-path of one named space record.
pub fn space_status_path(cfg: &Config, name: &str) -> (r: String)
    ensures
        r@ == space_status_path_model(*cfg, name@),
{
    let mut s = spaces_path(cfg);
    s.append("/");
    s.append(name);
    s.append("/status");
    s
}

/// A full URL: the base URL followed by a path.
pub open spec fn url_model(cfg: Config, path: Seq<char>) -> Seq<char> {
    base_url(cfg) + path
}

/// Joins the base URL and a path.
pub fn url_of(cfg: &Config, path: &str) -> (r: String)
    ensures
        r@ == url_model(*cfg, path@),
{
    let mut s = crate::config::k8s_base(cfg);
    s.append(path);
    s
}

/// The create body for a lot record.  An absent hint writes zero total
/// spaces; spec fields keep the original-case lot identifier.
pub open spec fn lot_create_body_model(cfg: Config, lot_id: Seq<char>, total: Option<i32>) -> Seq<
    char,
> {
    "{\"apiVersion\":\""@ + cfg.group@ + "/"@ + cfg.version@
        + "\",\"kind\":\"ParkingLot\",\"metadata\":{\"name\":\""@ + json_escaped(lower_of(lot_id))
        + "\"},\"spec\":{\"lotId\":\""@ + json_escaped(lot_id) + "\",\"totalSpaces\":"@ + int_str(
        match total {
            Some(t) => t as int,
            None => 0,
        },
    ) + "}}"@
}

/// Builds the create body for a lot record.
pub fn lot_create_body(cfg: &Config, lot_id: &str, total_spaces: Option<i32>) -> (r: String)
    ensures
        r@ == lot_create_body_model(*cfg, lot_id@, total_spaces),
{
    let t: i32 = match total_spaces {
        Some(t) => t,
        None => 0,
    };
    let mut s = "{\"apiVersion\":\"".to_owned();
    s.append(cfg.group.as_str());
    s.append("/");
    s.append(cfg.version.as_str());
    s.append("\",\"kind\":\"ParkingLot\",\"metadata\":{\"name\":\"");
    s.append(json_escape(lot_name(lot_id).as_str()).as_str());
    s.append("\"},\"spec\":{\"lotId\":\"");
    s.append(json_escape(lot_id).as_str());
    s.append("\",\"totalSpaces\":");
    s.append(format_i32(t).as_str());
    s.append("}}");
    s
}

/// The create body for a space record; spec fields keep both original-case
/// identifiers and are immutable after creation.
pub open spec fn space_create_body_model(cfg: Config, lot_id: Seq<char>, space_id: Seq<char>) -> Seq<
    char,
> {
    "{\"apiVersion\":\""@ + cfg.group@ + "/"@ + cfg.version@
        + "\",\"kind\":\"ParkingSpace\",\"metadata\":{\"name\":\""@ + json_escaped(
        lower_of(lot_id + "-"@ + space_id),
    ) + "\"},\"spec\":{\"lotId\":\""@ + json_escaped(lot_id) + "\",\"spaceId\":\""@ + json_escaped(
        space_id,
    ) + "\"}}"@
}

/// Builds the create body for a space record.
pub fn space_create_body(cfg: &Config, lot_id: &str, space_id: &str) -> (r: String)
    ensures
        r@ == space_create_body_model(*cfg, lot_id@, space_id@),
{
    let mut s = "{\"apiVersion\":\"".to_owned();
    s.append(cfg.group.as_str());
    s.append("/");
    s.append(cfg.version.as_str());
    s.append("\",\"kind\":\"ParkingSpace\",\"metadata\":{\"name\":\"");
    s.append(json_escape(space_name(lot_id, space_id).as_str()).as_str());
    s.append("\"},\"spec\":{\"lotId\":\"");
    s.append(json_escape(lot_id).as_str());
    s.append("\",\"spaceId\":\"");
    s.append(json_escape(space_id).as_str());
    s.append("\"}}");
    s
}

/// The merge-patch body correcting a lot's total spaces.
pub open spec fn lot_spec_patch_body_model(total: int) -> Seq<char> {
    "{\"spec\":{\"totalSpaces\":"@ + int_str(total) + "}}"@
}

/// Builds the merge-patch body correcting a lot's total spaces.
pub fn lot_spec_patch_body(total: i32) -> (r: String)
    ensures
        r@ == lot_spec_patch_body_model(total as int),
{
    let mut s = "{\"spec\":{\"totalSpaces\":".to_owned();
    s.append(format_i32(total).as_str());
    s.append("}}");
    s
}

/// The merge-patch body for a lot's status: the counts and the update
/// timestamp.
pub open spec fn lot_status_body_model(occupied: int, free: int, last_update: Seq<char>) -> Seq<
    char,
> {
    "{\"status\":{\"occupied\":"@ + int_str(occupied) + ",\"free\":"@ + int_str(free)
        + ",\"lastUpdate\":\""@ + json_escaped(last_update) + "\"}}"@
}

/// Builds the merge-patch body for a lot's status.
pub fn lot_status_body(occupied: i32, free: i32, last_update: &str) -> (r: String)
    ensures
        r@ == lot_status_body_model(occupied as int, free as int, last_update@),
{
    let mut s = "{\"status\":{\"occupied\":".to_owned();
    s.append(format_i32(occupied).as_str());
    s.append(",\"free\":");
    s.append(format_i32(free).as_str());
    s.append(",\"lastUpdate\":\"");
    s.append(json_escape(last_update).as_str());
    s.append("\"}}");
    s
}

/// The merge-patch body for a space's status: occupancy, sensor liveness,
/// and the event-derived timestamp.
pub open spec fn space_status_body_model(
    occupied: bool,
    sensor_online: bool,
    last_seen: Seq<char>,
) -> Seq<char> {
    "{\"status\":{\"occupied\":"@ + bool_str_model(occupied) + ",\"sensorOnline\":"@
        + bool_str_model(sensor_online) + ",\"lastSeen\":\""@ + json_escaped(last_seen) + "\"}}"@
}

/// Builds the merge-patch body for a space's status.
pub fn space_status_body(occupied: bool, sensor_online: bool, last_seen: &str) -> (r: String)
    ensures
        r@ == space_status_body_model(occupied, sensor_online, last_seen@),
{
    let mut s = "{\"status\":{\"occupied\":".to_owned();
    s.append(bool_str(occupied));
    s.append(",\"sensorOnline\":");
    s.append(bool_str(sensor_online));
    s.append(",\"lastSeen\":\"");
    s.append(json_escape(last_seen).as_str());
    s.append("\"}}");
    s
}

} // verus!
