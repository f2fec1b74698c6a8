//! The bookkeeping of a load: which records are eligible, what row each one
//! becomes, how the records are cut into batches, and what is counted.

use vstd::prelude::*;
use vstd::string::*;
use crate::calendar::{format_utc_second, utc_second_text};
use crate::models::code_of;
use crate::record::{nanos_within_second, whole_seconds, RecordModel, TwistyTimer};
use crate::text::{decimal_text, same_text, u64_text};

verus! {

/// The number of records that one batch holds at most.
pub const BATCH_SIZE: usize = 20_000;

/// The least time between two progress reports, in milliseconds.
pub const REPORT_INTERVAL_MILLIS: u64 = 2_000;

/// A row of the solve table.
#[derive(Debug, PartialEq, Eq)]
pub struct SolveRow {
    pub event_name: String,
    pub time: u32,
    pub scramble: String,
    pub date: String,
    pub session_name: String,
    pub penalty: u8,
    pub comment: String,
}

/// The mathematical value of a row of the solve table.
pub struct RowModel {
    pub event_name: Seq<char>,
    pub time: int,
    pub scramble: Seq<char>,
    pub date: Seq<char>,
    pub session_name: Seq<char>,
    pub penalty: int,
    pub comment: Seq<char>,
}

impl View for SolveRow {
    type V = RowModel;

    open spec fn view(&self) -> RowModel {
        RowModel {
            event_name: self.event_name@,
            time: self.time as int,
            scramble: self.scramble@,
            date: self.date@,
            session_name: self.session_name@,
            penalty: self.penalty as int,
            comment: self.comment@,
        }
    }
}

/// The characters of each text of a list.
pub open spec fn texts(v: Seq<String>) -> Seq<Seq<char>> {
    Seq::new(v.len(), |i: int| v[i]@)
}

/// The mathematical value of each record of a list.
pub open spec fn record_models(v: Seq<TwistyTimer>) -> Seq<RecordModel> {
    Seq::new(v.len(), |i: int| v[i]@)
}

/// The mathematical value of each row of a list.
pub open spec fn row_models(v: Seq<SolveRow>) -> Seq<RowModel> {
    Seq::new(v.len(), |i: int| v[i]@)
}

/// The number that the store keeps for a penalty: 1 for `+2`, 2 for `DNF`,
/// 0 for anything else.
pub open spec fn penalty_code_spec(token: Seq<char>) -> int {
    if token == "+2"@ {
        1
    } else if token == "DNF"@ {
        2
    } else {
        0
    }
}

/// The row that a record becomes. The date is cut to the second.
pub open spec fn row_of(m: RecordModel) -> RowModel {
    RowModel {
        event_name: code_of(m.puzzle),
        time: m.time,
        scramble: m.scramble,
        date: utc_second_text(whole_seconds(m.date), nanos_within_second(m.date)),
        session_name: m.category,
        penalty: penalty_code_spec(m.penalty),
        comment: m.comment,
    }
}

/// Whether a record may be inserted: the canonical text of its category is
/// one of the registered event names.
pub open spec fn eligible(m: RecordModel, registered: Seq<Seq<char>>) -> bool {
    registered.contains(code_of(m.puzzle))
}

/// The rows of the eligible records among `records`, in their order.
pub open spec fn eligible_rows(records: Seq<RecordModel>, registered: Seq<Seq<char>>) -> Seq<
    RowModel,
>
    decreases records.len(),
{
    if records.len() == 0 {
        Seq::empty()
    } else {
        let before = eligible_rows(records.drop_last(), registered);
        if eligible(records.last(), registered) {
            before.push(row_of(records.last()))
        } else {
            before
        }
    }
}

/// Cutting a list of records in two changes nothing of its rows: the rows of
/// the whole are those of the first part followed by those of the second.
pub proof fn eligible_rows_of_parts(
    a: Seq<RecordModel>,
    b: Seq<RecordModel>,
    registered: Seq<Seq<char>>,
)
    ensures
        eligible_rows(a + b, registered) == eligible_rows(a, registered) + eligible_rows(
            b,
            registered,
        ),
    decreases b.len(),
{
    if b.len() == 0 {
        assert(a + b =~= a);
        assert(eligible_rows(a, registered) + eligible_rows(b, registered) =~= eligible_rows(
            a,
            registered,
        ));
    } else {
        assert((a + b).drop_last() =~= a + b.drop_last());
        assert((a + b).last() == b.last());
        eligible_rows_of_parts(a, b.drop_last(), registered);
        assert(eligible_rows(a + b, registered) =~= eligible_rows(a, registered) + eligible_rows(
            b,
            registered,
        ));
    }
}

/// A record of the fewest-moves event is eligible exactly where `fmc` is
/// registered, though the export writes the event as `fc`.
pub proof fn fewest_moves_needs_fmc(m: RecordModel, registered: Seq<Seq<char>>)
    requires
        m.puzzle is EventFMC,
    ensures
        eligible(m, registered) == registered.contains("fmc"@),
{
}

/// The number that the store keeps for a penalty.
pub fn penalty_code(token: &str) -> (r: u8)
    ensures
        r == penalty_code_spec(token@),
{
    if same_text(token, "+2") {
        1
    } else if same_text(token, "DNF") {
        2
    } else {
        0
    }
}

/// Whether `name` is one of the registered event names.
pub fn is_registered(registered: &Vec<String>, name: &str) -> (r: bool)
    ensures
        r == texts(registered@).contains(name@),
{
    let mut i: usize = 0;
    while i < registered.len()
        invariant
            i <= registered.len(),
            forall|j: int| 0 <= j < i ==> texts(registered@)[j] != name@,
        decreases registered.len() - i,
    {
        if same_text(registered[i].as_str(), name) {
            assert(texts(registered@)[i as int] == name@);
            return true;
        }
        i += 1;
    }
    false
}

/// The row of the solve table that a record becomes.
pub fn storage_row(rec: &TwistyTimer) -> (r: SolveRow)
    ensures
        r@ == row_of(rec@),
{
    rec.recall_validity();
    let date: i64 = rec.date();
    let secs: i64 = date / 1000;
    let nsecs: u32 = ((date % 1000) * 1_000_000) as u32;
    SolveRow {
        event_name: rec.puzzle().to_string(),
        time: rec.time(),
        scramble: rec.scramble().clone(),
        date: format_utc_second(secs, nsecs),
        session_name: rec.category().clone(),
        penalty: penalty_code(rec.penalty().as_str()),
        comment: rec.comment().clone(),
    }
}

/// The end of the batch that starts at `start`.
pub open spec fn batch_end(start: int, batch_size: int, total: int) -> int {
    if start + batch_size < total {
        start + batch_size
    } else {
        total
    }
}

/// The rows of the eligible records among those from `start` up to `end`.
pub fn batch_rows(records: &Vec<TwistyTimer>, registered: &Vec<String>, start: usize, end: usize) -> (rows: Vec<SolveRow>)
    requires
        start <= end <= records.len(),
    ensures
        row_models(rows@) == eligible_rows(
            record_models(records@).subrange(start as int, end as int),
            texts(registered@),
        ),
        rows.len() <= end - start,
{
    let mut rows: Vec<SolveRow> = Vec::new();
    let mut i: usize = start;
    proof {
        assert(record_models(records@).subrange(start as int, start as int) =~= Seq::empty());
        assert(row_models(rows@) =~= Seq::empty());
    }
    while i < end
        invariant
            start <= i <= end <= records.len(),
            row_models(rows@) == eligible_rows(
                record_models(records@).subrange(start as int, i as int),
                texts(registered@),
            ),
            rows.len() <= i - start,
        decreases end - i,
    {
        let rec = &records[i];
        let name = rec.puzzle().to_string();
        let ghost before = row_models(rows@);
        let ghost part = record_models(records@).subrange(start as int, i as int + 1);
        proof {
            assert(part.drop_last() =~= record_models(records@).subrange(start as int, i as int));
            assert(part.last() == rec@);
        }
        if is_registered(registered, name.as_str()) {
            let row = storage_row(rec);
            rows.push(row);
            proof {
                assert(row_models(rows@) =~= before.push(row_of(rec@)));
            }
        }
        i += 1;
    }
    rows
}

/// What has been counted so far in a load.
#[derive(Debug)]
pub struct LoadState {
    /// The number of records handed to the load.
    pub total: usize,
    /// The number of records that have been looked at.
    pub next: usize,
    /// The number of records that were eligible and handed to the store.
    pub processed: usize,
    /// The number of records left out because their event is not registered.
    pub skipped_unknown: usize,
    /// The number of rows that the store ignored as duplicates.
    pub skipped_duplicate: usize,
    /// The number of rows handed to the store of which it has not yet said
    /// how many it inserted.
    pub pending: usize,
    /// Whether the store has failed.
    pub failed: bool,
}

/// What the store is to do next.
#[derive(Debug)]
pub enum LoadStep {
    /// Insert these rows, ignoring those that are already there.
    Insert(Vec<SolveRow>),
    /// The batch held no eligible record: nothing to insert, ask again.
    Skip,
    /// Every record has been looked at: make the inserts permanent.
    Commit,
    /// The store has failed: undo every insert of this load.
    Rollback,
}

/// The counts at the end of a load.
#[derive(Debug, PartialEq, Eq)]
pub struct LoadSummary {
    pub total: usize,
    pub processed: usize,
    pub new_inserts: usize,
    pub skipped_duplicate: usize,
    pub skipped_unknown: usize,
    pub total_skipped: usize,
}

impl LoadState {
    /// What holds of the counts at every moment: each record looked at was
    /// either handed on or left out, and the rows that were ignored and those
    /// still with the store are among those handed on.
    pub open spec fn wf(&self) -> bool {
        &&& self.next <= self.total
        &&& self.processed + self.skipped_unknown == self.next
        &&& self.skipped_duplicate + self.pending <= self.processed
    }

    /// The state before the first batch of a load of `total` records.
    pub fn new(total: usize) -> (r: LoadState)
        ensures
            r.wf(),
            r == (LoadState {
                total,
                next: 0,
                processed: 0,
                skipped_unknown: 0,
                skipped_duplicate: 0,
                pending: 0,
                failed: false,
            }),
    {
        LoadState {
            total,
            next: 0,
            processed: 0,
            skipped_unknown: 0,
            skipped_duplicate: 0,
            pending: 0,
            failed: false,
        }
    }

    /// Looks at the next batch and says what the store is to do. After a
    /// failure that is a rollback, whatever is left; after the last record it
    /// is the commit. Else the batch's eligible records become rows, in
    /// their order, and the others are counted as skipped. The rows of an
    /// insert are pending until the store's answer is recorded.
    pub fn next_step(
        &mut self,
        records: &Vec<TwistyTimer>,
        registered: &Vec<String>,
        batch_size: usize,
    ) -> (step: LoadStep)
        requires
            old(self).wf(),
            records.len() == old(self).total,
            batch_size > 0,
        ensures
            final(self).wf(),
            final(self).total == old(self).total,
            final(self).failed == old(self).failed,
            final(self).skipped_duplicate == old(self).skipped_duplicate,
            old(self).failed ==> step is Rollback && *final(self) == *old(self),
            !old(self).failed && old(self).next == old(self).total ==> step is Commit && *final(self) == *old(self),
            !old(self).failed && old(self).next < old(self).total ==> {
                let end = batch_end(
                    old(self).next as int,
                    batch_size as int,
                    old(self).total as int,
                );
                let rows = eligible_rows(
                    record_models(records@).subrange(old(self).next as int, end),
                    texts(registered@),
                );
                &&& final(self).next == end
                &&& final(self).pending == rows.len()
                &&& final(self).processed == old(self).processed + rows.len()
                &&& final(self).skipped_unknown == old(self).skipped_unknown + (end - old(self).next) - rows.len()
                &&& (rows.len() == 0 ==> step is Skip)
                &&& rows.len() > 0 ==> (step matches LoadStep::Insert(v) && row_models(v@) == rows)
            },
    {
        if self.failed {
            return LoadStep::Rollback;
        }
        if self.next == self.total {
            return LoadStep::Commit;
        }
        let start: usize = self.next;
        let end: usize = if batch_size < self.total - start {
            start + batch_size
        } else {
            self.total
        };
        let rows = batch_rows(records, registered, start, end);
        self.next = end;
        self.processed = self.processed + rows.len();
        self.skipped_unknown = self.skipped_unknown + (end - start - rows.len());
        self.pending = rows.len();
        if rows.len() == 0 {
            LoadStep::Skip
        } else {
            LoadStep::Insert(rows)
        }
    }

    /// Takes note of what the store says of the pending rows: those that it
    /// does not count as affected were duplicates.
    pub fn record_inserted(&mut self, affected: u64)
        requires
            old(self).wf(),
        ensures
            final(self).wf(),
            *final(self) == (LoadState {
                skipped_duplicate: (old(self).skipped_duplicate + duplicates_in(
                    old(self).pending as int,
                    affected as int,
                )) as usize,
                pending: 0,
                ..*old(self)
            }),
    {
        let attempted: usize = self.pending;
        if affected < attempted as u64 {
            let ignored: usize = (attempted as u64 - affected) as usize;
            self.skipped_duplicate = self.skipped_duplicate + ignored;
        }
        self.pending = 0;
    }

    /// Takes note that the store has failed: from now on the only step is
    /// the rollback.
    pub fn record_failure(&mut self)
        ensures
            *final(self) == (LoadState { failed: true, ..*old(self) }),
    {
        self.failed = true;
    }

    /// The counts of the load.
    pub fn summary(&self) -> (r: LoadSummary)
        requires
            self.wf(),
        ensures
            r == (LoadSummary {
                total: self.total,
                processed: self.processed,
                new_inserts: (self.processed - self.skipped_duplicate) as usize,
                skipped_duplicate: self.skipped_duplicate,
                skipped_unknown: self.skipped_unknown,
                total_skipped: (self.skipped_duplicate + self.skipped_unknown) as usize,
            }),
            r.new_inserts + r.total_skipped == self.next,
    {
        LoadSummary {
            total: self.total,
            processed: self.processed,
            new_inserts: self.processed - self.skipped_duplicate,
            skipped_duplicate: self.skipped_duplicate,
            skipped_unknown: self.skipped_unknown,
            total_skipped: self.skipped_duplicate + self.skipped_unknown,
        }
    }
}

/// The number of duplicates among `attempted` rows of which the store counts
/// `affected` as inserted.
pub open spec fn duplicates_in(attempted: int, affected: int) -> int {
    if affected < attempted {
        attempted - affected
    } else {
        0
    }
}

/// Whether a progress report is due: at least two seconds have passed since
/// the last one. Both times are in milliseconds since the load began.
pub fn report_due(now_millis: u64, last_millis: u64) -> (r: bool)
    ensures
        r == (now_millis - last_millis >= REPORT_INTERVAL_MILLIS),
{
    now_millis >= last_millis && now_millis - last_millis >= REPORT_INTERVAL_MILLIS
}

/// The text of a duration of `secs` seconds: hours, minutes and seconds,
/// without the leading parts that are zero.
pub open spec fn duration_text(secs: nat) -> Seq<char> {
    let hours = secs / 3600;
    let minutes = (secs % 3600) / 60;
    let seconds = secs % 60;
    if hours > 0 {
        decimal_text(hours) + "h "@ + decimal_text(minutes) + "m "@ + decimal_text(seconds) + "s"@
    } else if minutes > 0 {
        decimal_text(minutes) + "m "@ + decimal_text(seconds) + "s"@
    } else {
        decimal_text(seconds) + "s"@
    }
}

/// The text of a duration given in whole seconds.
pub fn format_duration(total_secs: u64) -> (r: String)
    ensures
        r@ == duration_text(total_secs as nat),
{
    let hours: u64 = total_secs / 3600;
    let minutes: u64 = (total_secs % 3600) / 60;
    let seconds: u64 = total_secs % 60;
    let mut r = String::new();
    if hours > 0 {
        r.append(u64_text(hours).as_str());
        r.append("h ");
    }
    if hours > 0 || minutes > 0 {
        r.append(u64_text(minutes).as_str());
        r.append("m ");
    }
    r.append(u64_text(seconds).as_str());
    r.append("s");
    proof {
        assert(r@ =~= duration_text(total_secs as nat));
    }
    r
}

} // verus!
