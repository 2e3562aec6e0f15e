//! The aggregator: recomputes a lot's occupied and free counts from the full
//! list of space records, trusting no incremental counter.
//!
//! The list response is parsed into the library's JSON tree; matching is a
//! case-insensitive comparison on the record's `spec.lotId`, and a record
//! counts as occupied exactly when `status.occupied` is the boolean `true`.
//! Any failure to fetch or parse the list yields the deliberate fail-safe
//! `(0, 0)`.

use vstd::prelude::*;
use crate::json::{JsonValue, JVal, jv_get, arr_model, json_of, parse_json, obj_get, as_bool, as_str, as_array};
use crate::spec_is_success;

verus! {

/// The lowercased code of an ASCII character: letters fold to lower case,
/// everything else stands.
pub open spec fn lower_code(c: char) -> int {
    if 65 <= c as int && c as int <= 90 {
        c as int + 32
    } else {
        c as int
    }
}

/// Equality of two character sequences up to ASCII case.
pub open spec fn eq_ignore_case(a: Seq<char>, b: Seq<char>) -> bool {
    a.len() == b.len() && (forall|i: int| 0 <= i < a.len() ==> lower_code(a[i]) == lower_code(b[i]))
}

/// Compares two strings ignoring ASCII case.
pub fn eq_ignore_ascii_case(a: &str, b: &str) -> (r: bool)
    ensures
        r == eq_ignore_case(a@, b@),
{
    let alen = a.unicode_len();
    let blen = b.unicode_len();
    if alen != blen {
        return false;
    }
    let mut i: usize = 0;
    while i < alen
        invariant
            0 <= i <= alen,
            alen == a@.len(),
            alen == b@.len(),
            forall|j: int| 0 <= j < i ==> lower_code(a@[j]) == lower_code(b@[j]),
        decreases alen - i,
    {
        let ca = a.get_char(i) as u32;
        let cb = b.get_char(i) as u32;
        let la: u32 = if 65 <= ca && ca <= 90 { ca + 32 } else { ca };
        let lb: u32 = if 65 <= cb && cb <= 90 { cb + 32 } else { cb };
        if la != lb {
            return false;
        }
        i = i + 1;
    }
    true
}

/// The `spec.lotId` string of a listed record, where it has one.
pub open spec fn space_lot_id(item: JVal) -> Option<Seq<char>> {
    match jv_get(item, "spec"@) {
        Some(sp) => match jv_get(sp, "lotId"@) {
            Some(JVal::Str(s)) => Some(s),
            _ => None,
        },
        None => None,
    }
}

/// Whether a listed record belongs to the lot: its `spec.lotId` matches
/// case-insensitively.  A record without a string `spec.lotId` belongs to no
/// lot and is never counted.
pub open spec fn item_matches(item: JVal, lot: Seq<char>) -> bool {
    match space_lot_id(item) {
        Some(s) => eq_ignore_case(s, lot),
        None => false,
    }
}

/// Whether a listed record counts as occupied: its `status.occupied` is the
/// boolean `true`; anything else — absent status, absent field, null, a
/// non-boolean — counts as free.
pub open spec fn item_occupied(item: JVal) -> bool {
    match jv_get(item, "status"@) {
        Some(st) => jv_get(st, "occupied"@) == Some(JVal::Bool(true)),
        None => false,
    }
}

/// How many records in the list belong to the lot.
pub open spec fn count_matching(items: Seq<JVal>, lot: Seq<char>) -> int
    decreases items.len(),
{
    if items.len() == 0 {
        0
    } else {
        count_matching(items.drop_last(), lot) + if item_matches(items.last(), lot) {
            1int
        } else {
            0int
        }
    }
}

/// How many records in the list belong to the lot and are occupied.
pub open spec fn count_occupied(items: Seq<JVal>, lot: Seq<char>) -> int
    decreases items.len(),
{
    if items.len() == 0 {
        0
    } else {
        count_occupied(items.drop_last(), lot) + if item_matches(items.last(), lot)
            && item_occupied(items.last()) {
            1int
        } else {
            0int
        }
    }
}

/// The occupied count never exceeds the matched count, and neither exceeds
/// the length of the list.
pub proof fn lemma_counts_bounded(items: Seq<JVal>, lot: Seq<char>)
    ensures
        0 <= count_occupied(items, lot) <= count_matching(items, lot) <= items.len(),
    decreases items.len(),
{
    if items.len() > 0 {
        lemma_counts_bounded(items.drop_last(), lot);
    }
}

/// Reads whether one listed record belongs to the lot and whether it is
/// occupied.
fn classify_item(item: &JsonValue, lot_id: &str) -> (r: (bool, bool))
    ensures
        r.0 == item_matches(item@, lot_id@),
        r.1 == item_occupied(item@),
{
    let matched = match obj_get(item, "spec") {
        Some(sp) => match obj_get(sp, "lotId") {
            Some(l) => match as_str(l) {
                Some(s) => eq_ignore_ascii_case(s.as_str(), lot_id),
                None => false,
            },
            None => false,
        },
        None => false,
    };
    let occupied = match obj_get(item, "status") {
        Some(st) => match obj_get(st, "occupied") {
            Some(o) => match as_bool(o) {
                Some(b) => b,
                None => false,
            },
            None => false,
        },
        None => false,
    };
    (matched, occupied)
}

/// Counts the records of the lot and the occupied ones among them.
pub fn count_spaces(items: &Vec<JsonValue>, lot_id: &str) -> (r: (usize, usize))
    ensures
        r.0 == count_matching(arr_model(*items), lot_id@),
        r.1 == count_occupied(arr_model(*items), lot_id@),
        r.1 <= r.0 <= items@.len(),
{
    let ghost model = arr_model(*items);
    let mut total: usize = 0;
    let mut occupied: usize = 0;
    let mut i: usize = 0;
    while i < items.len()
        invariant
            0 <= i <= items@.len(),
            model == arr_model(*items),
            model.len() == items@.len(),
            total == count_matching(model.take(i as int), lot_id@),
            occupied == count_occupied(model.take(i as int), lot_id@),
            occupied <= total <= i,
        decreases items@.len() - i,
    {
        let (matched, occ) = classify_item(&items[i], lot_id);
        proof {
            let pre = model.take(i as int);
            let pre1 = model.take(i as int + 1);
            assert(pre1.drop_last() =~= pre);
            assert(pre1.last() == model[i as int]);
            assert(model[i as int] == items[i as int]@);
        }
        if matched {
            total = total + 1;
            if occ {
                occupied = occupied + 1;
            }
        }
        i = i + 1;
    }
    proof {
        assert(model.take(items@.len() as int) =~= model);
    }
    (total, occupied)
}

/// A count capped at the largest `i32`.
pub open spec fn clamp_model(n: int) -> int {
    if n > 0x7fffffff {
        0x7fffffff
    } else {
        n
    }
}

fn clamp_i32(n: usize) -> (r: i32)
    requires
        n >= 0,
    ensures
        r as int == clamp_model(n as int),
{
    if n > 0x7fffffff {
        0x7fffffff
    } else {
        n as i32
    }
}

/// The pair a recount yields from a list of records: the occupied count and
/// the remainder of the matched records, never negative.
pub open spec fn counts_of(items: Seq<JVal>, lot: Seq<char>) -> (int, int) {
    let occ = clamp_model(count_occupied(items, lot));
    let tot = clamp_model(count_matching(items, lot));
    (occ, if tot - occ > 0 { tot - occ } else { 0 })
}

/// What a recount yields from the raw list response.  Every failure — a
/// non-2xx status, an unparsable body, a missing or non-array `items` —
/// yields the fail-safe `(0, 0)`.
pub open spec fn recount_model(status: int, body: Seq<u8>, lot: Seq<char>) -> (int, int) {
    if !spec_is_success(status) {
        (0int, 0int)
    } else {
        match json_of(body) {
            Some(doc) => match jv_get(doc, "items"@) {
                Some(JVal::Arr(items)) => counts_of(items, lot),
                _ => (0int, 0int),
            },
            None => (0int, 0int),
        }
    }
}

/// Recount correctness: for a successful listing whose `items` hold, among
/// anything else, exactly N records matching the lot case-insensitively, M of
/// which are occupied, the recount yields exactly `(M, N - M)`.  The one
/// bound is the machine limit of the `i32` result: N at most `i32::MAX`.
pub proof fn lemma_recount_exact(status: int, body: Seq<u8>, lot: Seq<char>, items: Seq<JVal>)
    requires
        spec_is_success(status),
        json_of(body) matches Some(doc) && jv_get(doc, "items"@) == Some(JVal::Arr(items)),
        count_matching(items, lot) <= 0x7fffffff,
    ensures
        recount_model(status, body, lot) == (
            count_occupied(items, lot),
            count_matching(items, lot) - count_occupied(items, lot),
        ),
{
    lemma_counts_bounded(items, lot);
}

/// Fail-safe on listing failure: a non-2xx status, a body that is not JSON,
/// and a document without an `items` array each yield exactly `(0, 0)`.
pub proof fn lemma_recount_fail_safe(status: int, body: Seq<u8>, lot: Seq<char>)
    ensures
        !spec_is_success(status) ==> recount_model(status, body, lot) == (0int, 0int),
        json_of(body) is None ==> recount_model(status, body, lot) == (0int, 0int),
        (json_of(body) matches Some(doc) && !(jv_get(doc, "items"@) matches Some(JVal::Arr(_))))
            ==> recount_model(status, body, lot) == (0int, 0int),
{
}

/// Recomputes a lot's occupied and free counts from the status and body of
/// the list call.
pub fn recount_from_list(status: u16, body: &[u8], lot_id: &str) -> (r: (i32, i32))
    ensures
        (r.0 as int, r.1 as int) == recount_model(status as int, body@, lot_id@),
        r.0 >= 0,
        r.1 >= 0,
        r.0 as int + r.1 as int <= 0x7fffffff,
{
    if !crate::is_success(status) {
        return (0, 0);
    }
    match parse_json(body) {
        Some(doc) => match obj_get(&doc, "items") {
            Some(x) => match as_array(x) {
                Some(items) => {
                    let (total, occupied) = count_spaces(items, lot_id);
                    let occ = clamp_i32(occupied);
                    let tot = clamp_i32(total);
                    let diff = tot - occ;
                    let free: i32 = if diff > 0 {
                        diff
                    } else {
                        0
                    };
                    (occ, free)
                },
                None => (0, 0),
            },
            None => (0, 0),
        },
        None => (0, 0),
    }
}

} // verus!
