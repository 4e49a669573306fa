//! Records of the in-memory log store.
//!
//! The store itself is a plain append-only list owned by the surrounding
//! process; here live its record types and the conversion from a posted batch
//! of unstructured entries to stored records. Each record takes the shared
//! fields of its batch and a timestamp: the entry's own rfc3339 text when it
//! carries one, else the entry's millisecond count formatted by the calendar
//! library, else the formatted current instant.

use vstd::prelude::*;

verus! {

/// A stored log record.
#[derive(Debug)]
pub struct Log {
    pub customer_id: String,
    pub log_type: String,
    pub log_text: String,
    pub ts_rfc3339: String,
}

/// The abstract value of a stored record: its four texts.
pub ghost struct LogV {
    pub customer_id: Seq<char>,
    pub log_type: Seq<char>,
    pub log_text: Seq<char>,
    pub ts_rfc3339: Seq<char>,
}

impl View for Log {
    type V = LogV;

    open spec fn view(&self) -> LogV {
        LogV {
            customer_id: self.customer_id@,
            log_type: self.log_type@,
            log_text: self.log_text@,
            ts_rfc3339: self.ts_rfc3339@,
        }
    }
}

impl Clone for Log {
    fn clone(&self) -> (r: Self)
        ensures
            r@ == self@,
    {
        Log {
            customer_id: self.customer_id.clone(),
            log_type: self.log_type.clone(),
            log_text: self.log_text.clone(),
            ts_rfc3339: self.ts_rfc3339.clone(),
        }
    }
}

/// One entry of a posted batch.
#[derive(Debug)]
pub struct UnstructuredLog {
    pub log_text: String,
    pub ts_epoch_microseconds: Option<i64>,
    pub ts_rfc3339: Option<String>,
}

/// A posted batch of unstructured entries.
#[derive(Debug)]
pub struct UnstructuredLogs {
    pub customer_id: String,
    pub log_type: String,
    pub entries: Vec<UnstructuredLog>,
}

/// What the calendar library formats an epoch-millisecond count as.
pub uninterp spec fn rfc3339_of_millis(ms: int) -> Seq<char>;

/// The smallest epoch-millisecond count on chrono's calendar: midnight of the
/// first day of its earliest year.
pub const MIN_TIMESTAMP_MILLIS: i64 = -8334601228800000;

/// The largest epoch-millisecond count on chrono's calendar: the last
/// millisecond of the last day of its latest year.
pub const MAX_TIMESTAMP_MILLIS: i64 = 8210266876799999;

/// Relies on chrono's TimeZone::timestamp_millis_opt on Utc and
/// DateTime::to_rfc3339: a count within the representable range — and exactly
/// then — is placed on the calendar, and its text is a deterministic function
/// of the count.
#[verifier::external_body]
fn format_millis(ms: i64) -> (r: Option<String>)
    ensures
        (match r {
            Some(s) => MIN_TIMESTAMP_MILLIS <= ms <= MAX_TIMESTAMP_MILLIS && s@
                == rfc3339_of_millis(ms as int),
            None => !(MIN_TIMESTAMP_MILLIS <= ms <= MAX_TIMESTAMP_MILLIS),
        }),
{
    match chrono::TimeZone::timestamp_millis_opt(&chrono::Utc, ms) {
        chrono::LocalResult::Single(dt) => Some(dt.to_rfc3339()),
        _ => None,
    }
}

/// Relies on chrono::Utc::now and DateTime::to_rfc3339; the text depends on
/// the clock, so nothing is assumed of it.
#[verifier::external_body]
fn now_rfc3339() -> String {
    chrono::Utc::now().to_rfc3339()
}

/// Does `log` hold what entry `i` of `batch` converts to? The timestamp is
/// the entry's own rfc3339 text when it carries one, else the calendar text
/// of its millisecond count when that count is representable; an entry with
/// neither — or with a count off the calendar — takes the clock's text, which
/// no contract pins.
pub open spec fn entry_log(batch: UnstructuredLogs, i: int, log: LogV) -> bool {
    &&& log.customer_id == batch.customer_id@
    &&& log.log_type == batch.log_type@
    &&& log.log_text == batch.entries@[i].log_text@
    &&& (batch.entries@[i].ts_rfc3339 matches Some(ts) ==> log.ts_rfc3339 == ts@)
    &&& (match batch.entries@[i].ts_epoch_microseconds {
        Some(ms) => batch.entries@[i].ts_rfc3339 is None && MIN_TIMESTAMP_MILLIS <= ms
            <= MAX_TIMESTAMP_MILLIS ==> log.ts_rfc3339 == rfc3339_of_millis(ms as int),
        None => true,
    })
}

/// The records a posted batch converts to, one per entry, in order.
pub fn logs_from(batch: UnstructuredLogs) -> (r: Vec<Log>)
    ensures
        r@.len() == batch.entries@.len(),
        forall|i: int| 0 <= i < r@.len() ==> entry_log(batch, i, r@[i]@),
{
    let mut out: Vec<Log> = Vec::new();
    let mut idx: usize = 0;
    while idx < batch.entries.len()
        invariant
            0 <= idx <= batch.entries@.len(),
            out@.len() == idx,
            forall|i: int| 0 <= i < idx ==> entry_log(batch, i, out@[i]@),
        decreases batch.entries@.len() - idx,
    {
        let entry = &batch.entries[idx];
        let ts = match &entry.ts_rfc3339 {
            Some(ts) => ts.clone(),
            None => match entry.ts_epoch_microseconds {
                Some(ms) => match format_millis(ms) {
                    Some(ts) => ts,
                    None => now_rfc3339(),
                },
                None => now_rfc3339(),
            },
        };
        out.push(
            Log {
                customer_id: batch.customer_id.clone(),
                log_type: batch.log_type.clone(),
                log_text: entry.log_text.clone(),
                ts_rfc3339: ts,
            },
        );
        idx += 1;
    }
    out
}

/// Append the records a posted batch converts to onto the store, keeping what
/// was there before.
pub fn add_to_data(data: &mut Vec<Log>, batch: UnstructuredLogs)
    ensures
        final (data)@.len() == old(data)@.len() + batch.entries@.len(),
        forall|i: int| 0 <= i < old(data)@.len() ==> final (data)@[i] == old(data)@[i],
        forall|i: int|
            0 <= i < batch.entries@.len() ==> #[trigger] entry_log(
                batch,
                i,
                final (data)@[old(data)@.len() + i]@,
            ),
{
    let mut records = logs_from(batch);
    data.append(&mut records);
}

/// Is a posted batch acceptable? The emulator refuses exactly the log type
/// reserved for exercising rejected entries.
pub fn batch_is_acceptable(batch: &UnstructuredLogs) -> (r: bool)
    ensures
        r == (batch.log_type@ != "INVALID"@),
{
    let reserved: String = "INVALID".to_owned();
    !(batch.log_type == reserved)
}

/// The records among `s` whose log type is `t`, in order.
pub open spec fn matching(s: Seq<LogV>, t: Seq<char>) -> Seq<LogV>
    decreases s.len(),
{
    if s.len() == 0 {
        Seq::empty()
    } else {
        matching(s.drop_last(), t) + (if s.last().log_type == t {
            seq![s.last()]
        } else {
            Seq::<LogV>::empty()
        })
    }
}

/// The stored records a query returns: all of them, or — when a log type is
/// given — exactly those of that type, in insertion order.
pub fn query_logs(data: &Vec<Log>, log_type: Option<&str>) -> (r: Vec<Log>)
    ensures
        (match log_type {
            None => r@.len() == data@.len() && (forall|i: int|
                0 <= i < data@.len() ==> r@[i]@ == data@[i]@),
            Some(t) => r@.map_values(|l: Log| l@) == matching(
                data@.map_values(|l: Log| l@),
                t@,
            ),
        }),
{
    let mut out: Vec<Log> = Vec::new();
    let mut idx: usize = 0;
    match log_type {
        None => {
            while idx < data.len()
                invariant
                    0 <= idx <= data@.len(),
                    out@.len() == idx,
                    forall|i: int| 0 <= i < idx ==> out@[i]@ == data@[i]@,
                decreases data@.len() - idx,
            {
                out.push(data[idx].clone());
                idx += 1;
            }
            out
        },
        Some(t) => {
            let wanted: String = t.to_owned();
            while idx < data.len()
                invariant
                    0 <= idx <= data@.len(),
                    wanted@ == t@,
                    out@.map_values(|l: Log| l@) == matching(
                        data@.take(idx as int).map_values(|l: Log| l@),
                        t@,
                    ),
                decreases data@.len() - idx,
            {
                proof {
                    assert(data@.take(idx as int + 1).map_values(|l: Log| l@).drop_last()
                        =~= data@.take(idx as int).map_values(|l: Log| l@));
                    assert(data@.take(idx as int + 1).map_values(|l: Log| l@).last()
                        == data@[idx as int]@);
                }
                if data[idx].log_type == wanted {
                    out.push(data[idx].clone());
                }
                proof {
                    assert(out@.map_values(|l: Log| l@) =~= matching(
                        data@.take(idx as int + 1).map_values(|l: Log| l@),
                        t@,
                    ));
                }
                idx += 1;
            }
            proof {
                assert(data@.take(data@.len() as int) =~= data@);
            }
            out
        },
    }
}

} // verus!
