use vstd::prelude::*;
use vstd::string::{StrSliceExecFns, StringExecFns};

verus! {

// The history reporter. The node hands back the recent signatures for an
// address, newest first; the report keeps that order, takes at most the
// requested number, marks each entry's success, shortens the signature for
// display, and renders the block time. Only the fetch lives outside.

/// One signature as the node reports it.
#[derive(Debug)]
pub struct SignatureRecord {
    pub slot: u64,
    pub signature: String,
    /// Whether the node recorded an error for the transaction.
    pub failed: bool,
    /// Seconds since the epoch, when the node knows the block's time.
    pub block_time: Option<i64>,
}

/// One line of the rendered history.
#[derive(Debug)]
pub struct HistoryEntry {
    pub slot: u64,
    pub short_signature: String,
    pub succeeded: bool,
    pub block_time_text: String,
}

pub struct SignatureRecordModel {
    pub slot: u64,
    pub signature: Seq<char>,
    pub failed: bool,
    pub block_time: Option<i64>,
}

#[verifier::ext_equal]
pub struct HistoryEntryModel {
    pub slot: u64,
    pub short_signature: Seq<char>,
    pub succeeded: bool,
    pub block_time_text: Seq<char>,
}

impl View for SignatureRecord {
    type V = SignatureRecordModel;

    open spec fn view(&self) -> SignatureRecordModel {
        SignatureRecordModel {
            slot: self.slot,
            signature: self.signature@,
            failed: self.failed,
            block_time: self.block_time,
        }
    }
}

impl View for HistoryEntry {
    type V = HistoryEntryModel;

    open spec fn view(&self) -> HistoryEntryModel {
        HistoryEntryModel {
            slot: self.slot,
            short_signature: self.short_signature@,
            succeeded: self.succeeded,
            block_time_text: self.block_time_text@,
        }
    }
}

/// The text a UTC timestamp renders to, year-month-day hour:minute:second;
/// none when the timestamp lies outside the representable range. The text
/// is a function of the timestamp alone.
pub uninterp spec fn timestamp_text_of(ts: i64) -> Option<Seq<char>>;

/// Relies on chrono's `DateTime::<Utc>::from_timestamp` and fixed-format
/// UTC formatting: it returns a date-time for the timestamp alone — no
/// clock, locale or zone is consulted — and `None` exactly when the
/// timestamp is out of chrono's range.
#[verifier::external_body]
fn format_timestamp(ts: i64) -> (r: Option<String>)
    ensures
        r is Some <==> timestamp_text_of(ts) is Some,
        r matches Some(text) ==> timestamp_text_of(ts) == Some(text@),
{
    chrono::DateTime::from_timestamp(ts, 0).map(
        |dt| dt.format("%Y-%m-%d %H:%M:%S").to_string(),
    )
}

/// How a record's block time renders: the timestamp's text; a tilde when
/// the node knows no time; a fixed note when the timestamp is out of range.
pub open spec fn block_time_text_spec(bt: Option<i64>) -> Seq<char> {
    match bt {
        Option::None => "~"@,
        Option::Some(ts) => match timestamp_text_of(ts) {
            Option::Some(text) => text,
            Option::None => "Invalid time"@,
        },
    }
}

/// Renders a record's block time: exactly `block_time_text_spec`.
pub fn block_time_text(bt: &Option<i64>) -> (r: String)
    ensures
        r@ == block_time_text_spec(*bt),
{
    match bt {
        Option::None => String::from_str("~"),
        Option::Some(ts) => match format_timestamp(*ts) {
            Option::Some(text) => text,
            Option::None => String::from_str("Invalid time"),
        },
    }
}

/// How a signature shortens for display: the first eight and last eight
/// characters around an ellipsis; a signature too short to shorten stays
/// whole.
pub open spec fn short_signature_spec(s: Seq<char>) -> Seq<char> {
    if s.len() >= 16 {
        s.take(8) + "..."@ + s.skip(s.len() - 8)
    } else {
        s
    }
}

/// Shortens a signature for display: exactly `short_signature_spec`.
pub fn short_signature(s: &str) -> (r: String)
    ensures
        r@ == short_signature_spec(s@),
{
    let n = s.unicode_len();
    if n >= 16 {
        let head = s.substring_char(0, 8);
        let tail = s.substring_char(n - 8, n);
        let mut out = head.to_owned();
        out.append("...");
        out.append(tail);
        out
    } else {
        s.to_owned()
    }
}

/// The report a record row renders to.
pub open spec fn history_entry_spec(record: SignatureRecordModel) -> HistoryEntryModel {
    HistoryEntryModel {
        slot: record.slot,
        short_signature: short_signature_spec(record.signature),
        succeeded: !record.failed,
        block_time_text: block_time_text_spec(record.block_time),
    }
}

/// Renders the transaction history: the first `limit` records, newest
/// first as the node reported them, each row rendered by
/// `history_entry_spec`.
pub fn history_report(records: &Vec<SignatureRecord>, limit: usize) -> (r: Vec<HistoryEntry>)
    ensures
        r@.len() == if records@.len() < limit {
            records@.len() as int
        } else {
            limit as int
        },
        forall|i: int| 0 <= i < r@.len() ==> #[trigger] r@[i]@ == history_entry_spec(records@[i]@),
{
    let n = records.len();
    let count = if n < limit {
        n
    } else {
        limit
    };
    let mut out: Vec<HistoryEntry> = Vec::new();
    let mut i: usize = 0;
    while i < count
        invariant
            i <= count <= n == records@.len(),
            out@.len() == i,
            forall|j: int|
                0 <= j < i ==> #[trigger] out@[j]@ == history_entry_spec(records@[j]@),
        decreases count - i,
    {
        let record = &records[i];
        let entry = HistoryEntry {
            slot: record.slot,
            short_signature: short_signature(record.signature.as_str()),
            succeeded: !record.failed,
            block_time_text: block_time_text(&record.block_time),
        };
        out.push(entry);
        i += 1;
    }
    out
}

} // verus!
