//! The SQL text the storage layer sends to SQLite, and the reading of its
//! connection settings.

use vstd::prelude::*;
use vstd::string::*;
use crate::text::{push_decimal, push_signed_decimal, signed_decimal, str_eq};

verus! {

/// SQLite's `synchronous` setting.
#[derive(Debug, Clone, Copy, PartialEq, Eq, Structural)]
pub enum SyncMode {
    Off,
    Normal,
    Full,
}

/// The `synchronous` setting a configured mode name selects: `OFF`,
/// `NORMAL` or `FULL`; any other name means `NORMAL`.
pub fn synchronous_mode(name: &str) -> (r: SyncMode)
    ensures
        r == if name@ == "OFF"@ {
            SyncMode::Off
        } else if name@ == "FULL"@ {
            SyncMode::Full
        } else {
            SyncMode::Normal
        },
{
    proof {
        reveal_strlit("NORMAL");
        reveal_strlit("FULL");
        assert("NORMAL"@.len() != "FULL"@.len());
    }
    if str_eq(name, "OFF") {
        SyncMode::Off
    } else if str_eq(name, "NORMAL") {
        SyncMode::Normal
    } else if str_eq(name, "FULL") {
        SyncMode::Full
    } else {
        SyncMode::Normal
    }
}

/// The query listing transactions, newest first, with an optional limit and
/// an offset that only applies together with a limit.
pub open spec fn spec_transactions_query(limit: Option<i64>, offset: Option<i64>) -> Seq<char> {
    "SELECT * FROM transactions ORDER BY created_at DESC"@ + match limit {
        Some(l) => " LIMIT "@ + signed_decimal(l as int) + match offset {
            Some(o) => " OFFSET "@ + signed_decimal(o as int),
            None => Seq::<char>::empty(),
        },
        None => Seq::<char>::empty(),
    }
}

/// The query listing transactions, newest first.
pub fn transactions_query(limit: Option<i64>, offset: Option<i64>) -> (r: String)
    ensures
        r@ == spec_transactions_query(limit, offset),
{
    let mut query = String::from_str("SELECT * FROM transactions ORDER BY created_at DESC");
    if let Some(limit_val) = limit {
        query.append(" LIMIT ");
        push_signed_decimal(&mut query, limit_val);
        if let Some(offset_val) = offset {
            query.append(" OFFSET ");
            push_signed_decimal(&mut query, offset_val);
        }
    }
    assert(query@ =~= spec_transactions_query(limit, offset));
    query
}

/// The texts of a list of strings.
pub open spec fn bind_texts(v: Seq<String>) -> Seq<Seq<char>> {
    v.map_values(|s: String| s@)
}

/// The query for one device's readings, newest first, within an optional
/// time window and up to an optional count, with its parameter values in
/// placeholder order.
pub open spec fn spec_device_readings_query(
    device_address: u8,
    start_time: Option<i64>,
    end_time: Option<i64>,
    limit: Option<i64>,
) -> (Seq<char>, Seq<Seq<char>>) {
    let q0 = "SELECT * FROM flowmeter_readings WHERE device_address = ?"@;
    let b0 = seq![signed_decimal(device_address as int)];
    let (q1, b1) = match start_time {
        Some(s) => (q0 + " AND unix_timestamp >= ?"@, b0.push(signed_decimal(s as int))),
        None => (q0, b0),
    };
    let (q2, b2) = match end_time {
        Some(e) => (q1 + " AND unix_timestamp <= ?"@, b1.push(signed_decimal(e as int))),
        None => (q1, b1),
    };
    let q3 = q2 + " ORDER BY unix_timestamp DESC"@;
    match limit {
        Some(l) => (q3 + " LIMIT ?"@, b2.push(signed_decimal(l as int))),
        None => (q3, b2),
    }
}

fn signed_text(i: i64) -> (r: String)
    ensures
        r@ == signed_decimal(i as int),
{
    let mut r = String::new();
    push_signed_decimal(&mut r, i);
    assert(r@ =~= signed_decimal(i as int));
    r
}

/// The query for one device's readings and its parameter values.
pub fn device_readings_query(
    device_address: u8,
    start_time: Option<i64>,
    end_time: Option<i64>,
    limit: Option<i64>,
) -> (r: (String, Vec<String>))
    ensures
        (r.0@, bind_texts(r.1@)) == spec_device_readings_query(
            device_address,
            start_time,
            end_time,
            limit,
        ),
{
    let mut query = String::from_str("SELECT * FROM flowmeter_readings WHERE device_address = ?");
    let mut bind_values: Vec<String> = Vec::new();
    bind_values.push(signed_text(device_address as i64));
    if let Some(start) = start_time {
        query.append(" AND unix_timestamp >= ?");
        bind_values.push(signed_text(start));
    }
    if let Some(end) = end_time {
        query.append(" AND unix_timestamp <= ?");
        bind_values.push(signed_text(end));
    }
    query.append(" ORDER BY unix_timestamp DESC");
    if let Some(limit_val) = limit {
        query.append(" LIMIT ?");
        bind_values.push(signed_text(limit_val));
    }
    let ghost spec = spec_device_readings_query(device_address, start_time, end_time, limit);
    assert(query@ =~= spec.0);
    assert(bind_texts(bind_values@) =~= spec.1);
    (query, bind_values)
}

} // verus!
