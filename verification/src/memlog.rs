//! An in-memory log storage, with a fixed size for records.
//!
//! Records are kept newest-first in a bounded store measured in characters
//! of record text. Adding a record evicts the oldest records until the new
//! one fits; a record too large for the whole store is replaced by a warning
//! saying so. Printing and broadcasting new records, and the clock, belong
//! to the caller: a timestamp comes in as a plain millisecond count.

use std::collections::VecDeque;
use vstd::prelude::*;

verus! {

/// Severity of a log record.
#[derive(Clone, Copy, Debug, PartialEq, Eq, Structural)]
pub enum Level {
    /// Fine-grained tracing.
    Trace,
    /// Diagnostic details.
    Debug,
    /// Ordinary events.
    Info,
    /// Unexpected but tolerated events.
    Warn,
    /// Failures.
    Error,
}

impl Level {
    /// The four-letter tag the level is printed as.
    pub fn label(&self) -> (text: &'static str)
        ensures
            self is Trace ==> text@ == "TRCE"@,
            self is Debug ==> text@ == "DEBG"@,
            self is Info ==> text@ == "INFO"@,
            self is Warn ==> text@ == "WARN"@,
            self is Error ==> text@ == "ERRO"@,
            text@.len() == 4,
    {
        proof {
            reveal_strlit("TRCE");
            reveal_strlit("DEBG");
            reveal_strlit("INFO");
            reveal_strlit("WARN");
            reveal_strlit("ERRO");
        }
        match self {
            Level::Trace => "TRCE",
            Level::Debug => "DEBG",
            Level::Info => "INFO",
            Level::Warn => "WARN",
            Level::Error => "ERRO",
        }
    }
}

/// One log record: when it happened (milliseconds since boot), how severe it
/// is, and its text.
#[derive(Clone, Debug)]
pub struct Record {
    /// Time of the record, in milliseconds since boot.
    pub instant_ms: u64,
    /// Severity of the record.
    pub level: Level,
    /// The logged text.
    pub text: String,
}

/// Text of the warning stored in place of a record too large for the store.
pub open spec fn discard_error_text() -> Seq<char> {
    "log discarded: too large for storage"@
}

/// The warning stored in place of a record too large for the store.
fn discard_error() -> (text: &'static str)
    ensures
        text@ == discard_error_text(),
{
    "log discarded: too large for storage"
}

/// Total text length of a sequence of records, in characters.
pub open spec fn total_text_len(records: Seq<Record>) -> int
    decreases records.len(),
{
    if records.len() == 0 {
        0
    } else {
        total_text_len(records.drop_last()) + records.last().text@.len()
    }
}

/// The total text length of a sequence of records is never negative.
pub proof fn lemma_total_text_len_nonneg(records: Seq<Record>)
    ensures
        total_text_len(records) >= 0,
    decreases records.len(),
{
    if records.len() > 0 {
        lemma_total_text_len_nonneg(records.drop_last());
    }
}

/// Prepending a record adds its text length to the total.
proof fn lemma_total_text_len_push_front(record: Record, records: Seq<Record>)
    ensures
        total_text_len(seq![record] + records) == record.text@.len() + total_text_len(records),
    decreases records.len(),
{
    if records.len() == 0 {
        assert((seq![record] + records) =~= seq![record]);
        assert(seq![record].drop_last() =~= Seq::<Record>::empty());
        assert(total_text_len(Seq::<Record>::empty()) == 0);
        assert(total_text_len(seq![record]) == record.text@.len());
        assert(total_text_len(records) == 0);
    } else {
        lemma_total_text_len_push_front(record, records.drop_last());
        assert((seq![record] + records).drop_last() =~= seq![record] + records.drop_last());
        assert(total_text_len(seq![record] + records) == total_text_len(
            (seq![record] + records).drop_last(),
        ) + (seq![record] + records).last().text@.len());
    }
}

/// What remains of `records` once the oldest ones have been evicted to make
/// room for `need` more characters within `capacity`.
pub open spec fn evicted(records: Seq<Record>, capacity: int, need: int) -> Seq<Record>
    decreases records.len(),
{
    if capacity - total_text_len(records) >= need || records.len() == 0 {
        records
    } else {
        evicted(records.drop_last(), capacity, need)
    }
}

/// The bounded log store. Records are held newest-first; their total text
/// length never exceeds the capacity.
pub struct LogStorage {
    records: VecDeque<Record>,
    // In characters.
    utilization: usize,
    capacity: usize,
}

impl LogStorage {
    /// The stored records, newest first.
    pub closed spec fn spec_records(&self) -> Seq<Record> {
        self.records@
    }

    /// The store's capacity, in characters of record text.
    pub closed spec fn spec_capacity(&self) -> int {
        self.capacity as int
    }

    /// Characters of record text currently stored.
    pub closed spec fn spec_utilization(&self) -> int {
        self.utilization as int
    }

    /// Validity: the recorded utilization is the records' total text length,
    /// it fits the capacity, and the capacity can always hold the discard
    /// warning.
    pub open spec fn wf(&self) -> bool {
        &&& self.spec_utilization() == total_text_len(self.spec_records())
        &&& self.spec_utilization() <= self.spec_capacity()
        &&& discard_error_text().len() <= self.spec_capacity()
    }

    /// An empty store for up to `capacity` characters of record text. The
    /// capacity must at least hold the warning about a discarded record.
    pub fn with_capacity(capacity: usize) -> (storage: Self)
        requires
            discard_error_text().len() <= capacity,
        ensures
            storage.wf(),
            storage.spec_records() == Seq::<Record>::empty(),
            storage.spec_capacity() == capacity,
    {
        let storage = LogStorage { records: VecDeque::new(), utilization: 0, capacity };
        proof {
            assert(storage.spec_records() =~= Seq::<Record>::empty());
        }
        storage
    }

    /// The stored records, newest first.
    pub fn records(&self) -> (records: &VecDeque<Record>)
        ensures
            records@ == self.spec_records(),
    {
        &self.records
    }

    /// The store's capacity, in characters of record text.
    pub fn capacity(&self) -> (capacity: usize)
        ensures
            capacity == self.spec_capacity(),
    {
        self.capacity
    }

    /// Adds a record with the given timestamp, evicting the oldest records
    /// until it fits. A text longer than the whole capacity is not stored;
    /// the warning [`discard_error_text`] is stored in its place, under
    /// level Warn and the same timestamp.
    pub fn add_record(&mut self, instant_ms: u64, level: Level, text: String)
        requires
            old(self).wf(),
        ensures
            final(self).wf(),
            final(self).spec_capacity() == old(self).spec_capacity(),
            if text@.len() <= old(self).spec_capacity() {
                final(self).spec_records() == seq![(Record { instant_ms, level, text })] + evicted(
                    old(self).spec_records(),
                    old(self).spec_capacity(),
                    text@.len() as int,
                )
            } else {
                &&& final(self).spec_records().len() > 0
                &&& final(self).spec_records()[0].instant_ms == instant_ms
                &&& final(self).spec_records()[0].level is Warn
                &&& final(self).spec_records()[0].text@ == discard_error_text()
                &&& final(self).spec_records().skip(1) == evicted(
                    old(self).spec_records(),
                    old(self).spec_capacity(),
                    discard_error_text().len() as int,
                )
            },
    {
        let length: usize = text.as_str().unicode_len();
        if length > self.capacity {
            // Can't fit this record in storage. Log a warning instead.
            let warning: String = String::from_str(discard_error());
            let warning_length: usize = warning.as_str().unicode_len();
            self.evict_for(warning_length);
            proof {
                lemma_total_text_len_push_front(
                    (Record { instant_ms, level: Level::Warn, text: warning }),
                    self.spec_records(),
                );
            }
            self.utilization = self.utilization + warning_length;
            self.records.push_front(Record { instant_ms, level: Level::Warn, text: warning });
        } else {
            self.evict_for(length);
            proof {
                lemma_total_text_len_push_front(
                    (Record { instant_ms, level, text }),
                    self.spec_records(),
                );
            }
            self.utilization = self.utilization + length;
            self.records.push_front(Record { instant_ms, level, text });
        }
    }

    /// Pops the oldest records until `need` more characters fit.
    fn evict_for(&mut self, need: usize)
        requires
            old(self).wf(),
            need <= old(self).spec_capacity(),
        ensures
            final(self).wf(),
            final(self).spec_capacity() == old(self).spec_capacity(),
            final(self).spec_records() == evicted(
                old(self).spec_records(),
                old(self).spec_capacity(),
                need as int,
            ),
            final(self).spec_capacity() - final(self).spec_utilization() >= need,
    {
        while self.capacity - self.utilization < need
            invariant
                self.wf(),
                self.spec_capacity() == old(self).spec_capacity(),
                need <= self.spec_capacity(),
                evicted(self.spec_records(), self.spec_capacity(), need as int) == evicted(
                    old(self).spec_records(),
                    old(self).spec_capacity(),
                    need as int,
                ),
            decreases self.spec_records().len(),
        {
            proof {
                lemma_total_text_len_nonneg(self.spec_records().drop_last());
            }
            match self.records.pop_back() {
                Some(removed) => {
                    let removed_length: usize = removed.text.as_str().unicode_len();
                    self.utilization = self.utilization - removed_length;
                },
                None => {
                    // Unreachable: a non-zero utilization means records exist.
                    proof {
                        assert(total_text_len(self.spec_records()) == 0);
                    }
                },
            }
        }
    }

    /// Drops every record.
    pub fn clear(&mut self)
        requires
            old(self).wf(),
        ensures
            final(self).wf(),
            final(self).spec_capacity() == old(self).spec_capacity(),
            final(self).spec_records() == Seq::<Record>::empty(),
    {
        self.utilization = 0;
        self.records.clear();
        proof {
            assert(self.spec_records() =~= Seq::<Record>::empty());
        }
    }
}

/// Digit character for a value in `[0, 9]`.
pub open spec fn decimal_digit(d: int) -> char {
    if d == 0 {
        '0'
    } else if d == 1 {
        '1'
    } else if d == 2 {
        '2'
    } else if d == 3 {
        '3'
    } else if d == 4 {
        '4'
    } else if d == 5 {
        '5'
    } else if d == 6 {
        '6'
    } else if d == 7 {
        '7'
    } else if d == 8 {
        '8'
    } else {
        '9'
    }
}

/// Decimal digits of `v`, left-padded with zeroes to at least `width`
/// characters.
pub open spec fn padded_decimal(v: nat, width: nat) -> Seq<char>
    decreases v + width,
{
    if v < 10 && width <= 1 {
        seq![decimal_digit(v as int)]
    } else {
        padded_decimal(v / 10, if width == 0 {
            0
        } else {
            (width - 1) as nat
        }) + seq![decimal_digit((v % 10) as int)]
    }
}

/// A millisecond count rendered as "HHHHH:MM:SS.mmm": zero-padded hours,
/// minutes, seconds and milliseconds.
pub open spec fn hms_seq(total_ms: nat) -> Seq<char> {
    let millis: nat = total_ms % 1000;
    let total_seconds: nat = total_ms / 1000;
    let seconds: nat = total_seconds % 60;
    let total_minutes: nat = total_seconds / 60;
    let minutes: nat = total_minutes % 60;
    let hours: nat = total_minutes / 60;
    padded_decimal(hours, 5) + seq![':'] + padded_decimal(minutes, 2) + seq![':'] + padded_decimal(
        seconds,
        2,
    ) + seq!['.'] + padded_decimal(millis, 3)
}

/// The single-character string for a decimal digit.
fn digit_str(d: u64) -> (s: &'static str)
    requires
        d < 10,
    ensures
        s@ == seq![decimal_digit(d as int)],
{
    proof {
        reveal_strlit("0");
        reveal_strlit("1");
        reveal_strlit("2");
        reveal_strlit("3");
        reveal_strlit("4");
        reveal_strlit("5");
        reveal_strlit("6");
        reveal_strlit("7");
        reveal_strlit("8");
        reveal_strlit("9");
    }
    let s: &'static str = match d {
        0 => "0",
        1 => "1",
        2 => "2",
        3 => "3",
        4 => "4",
        5 => "5",
        6 => "6",
        7 => "7",
        8 => "8",
        _ => "9",
    };
    proof {
        assert(s@ =~= seq![decimal_digit(d as int)]);
    }
    s
}

/// Appends the decimal digits of `v`, left-padded with zeroes to at least
/// `width` characters.
fn push_padded_decimal(out: &mut String, v: u64, width: usize)
    ensures
        final(out)@ == old(out)@ + padded_decimal(v as nat, width as nat),
    decreases v + width,
{
    if v < 10 && width <= 1 {
        out.append(digit_str(v));
    } else {
        let narrower: usize = if width == 0 {
            0
        } else {
            width - 1
        };
        push_padded_decimal(out, v / 10, narrower);
        out.append(digit_str(v % 10));
    }
}

/// Formats a u64 millisecond value into an "HHHHH:MM:SS.mmm" string.
pub fn format_milliseconds_to_hms(total_ms: u64) -> (formatted: String)
    ensures
        formatted@ == hms_seq(total_ms as nat),
{
    let millis_part: u64 = total_ms % 1000;
    let total_seconds: u64 = total_ms / 1000;

    let seconds_part: u64 = total_seconds % 60;
    let total_minutes: u64 = total_seconds / 60;

    let minutes_part: u64 = total_minutes % 60;
    let hours_part: u64 = total_minutes / 60;

    let mut formatted: String = String::new();
    push_padded_decimal(&mut formatted, hours_part, 5);
    formatted.append(":");
    push_padded_decimal(&mut formatted, minutes_part, 2);
    formatted.append(":");
    push_padded_decimal(&mut formatted, seconds_part, 2);
    formatted.append(".");
    push_padded_decimal(&mut formatted, millis_part, 3);
    proof {
        reveal_strlit(":");
        reveal_strlit(".");
        assert(formatted@ =~= hms_seq(total_ms as nat));
    }
    formatted
}

/// One printed log line: the timestamp, the level tag, and the text.
pub open spec fn record_line_seq(record: Record) -> Seq<char> {
    seq!['['] + hms_seq(record.instant_ms as nat) + seq![']', ' '] + match record.level {
        Level::Trace => "TRCE"@,
        Level::Debug => "DEBG"@,
        Level::Info => "INFO"@,
        Level::Warn => "WARN"@,
        Level::Error => "ERRO"@,
    } + seq![':', ' '] + record.text@
}

impl Record {
    /// Renders the record as its log line, "[HHHHH:MM:SS.mmm] LEVL: text".
    pub fn format_line(&self) -> (line: String)
        ensures
            line@ == record_line_seq(*self),
    {
        let mut line: String = String::new();
        line.append("[");
        let timestamp: String = format_milliseconds_to_hms(self.instant_ms);
        line.append(timestamp.as_str());
        line.append("] ");
        line.append(self.level.label());
        line.append(": ");
        line.append(self.text.as_str());
        proof {
            reveal_strlit("[");
            reveal_strlit("] ");
            reveal_strlit(": ");
            assert(line@ =~= record_line_seq(*self));
        }
        line
    }
}

} // verus!
