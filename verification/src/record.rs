//! One solve of an export: the raw row, the validated record, and the rules
//! that lead from the first to the second.

use vstd::prelude::*;
use vstd::string::*;
use crate::calendar::{utc_instant_defined, utc_instant_exists};
use crate::error::{ErrorModel, TwistyTimerError};
use crate::models::{resolve, PuzzleModel, TwistyTimerPuzzles};
use crate::text::{decimal_i64, decimal_u32, i64_parse_failure, parse_i64, parse_u32, same_text, trim, trimmed};

verus! {

/// The longest time that a solve may have taken: one day, in milliseconds.
pub const MAX_REASONABLE_TIME: u32 = 86_400_000;

/// The latest date that a solve may have: the largest number of milliseconds
/// that still fits in 64 bits when it is counted in nanoseconds.
pub const MAX_EPOCH_MILLIS: i64 = 9_223_372_036_854;

/// The whole seconds of a date given in milliseconds since the epoch.
pub open spec fn whole_seconds(millis: int) -> int {
    millis / 1000
}

/// What is left of such a date beyond its whole seconds, in nanoseconds.
pub open spec fn nanos_within_second(millis: int) -> int {
    (millis % 1000) * 1_000_000
}

/// The mathematical value of a record.
pub struct RecordModel {
    pub puzzle: PuzzleModel,
    pub category: Seq<char>,
    pub time: int,
    pub date: int,
    pub scramble: Seq<char>,
    pub penalty: Seq<char>,
    pub comment: Seq<char>,
}

/// What holds of every record: the time is at most a day, and the date is a
/// number of milliseconds since the epoch, not negative and not too large,
/// that is exactly one instant of the UTC calendar.
pub open spec fn record_valid(m: RecordModel) -> bool {
    &&& 0 <= m.time <= MAX_REASONABLE_TIME
    &&& 0 <= m.date <= MAX_EPOCH_MILLIS
    &&& utc_instant_defined(whole_seconds(m.date), nanos_within_second(m.date))
}

/// A single solve: its puzzle, the session it belongs to, the time in
/// milliseconds, the date in milliseconds since the epoch, and three texts.
#[derive(Debug, PartialEq, Eq, Hash)]
pub struct TwistyTimer {
    puzzle: TwistyTimerPuzzles,
    category: String,
    time: u32,
    date: i64,
    scramble: String,
    penalty: String,
    comment: String,
}

impl View for TwistyTimer {
    type V = RecordModel;

    closed spec fn view(&self) -> RecordModel {
        RecordModel {
            puzzle: self.puzzle@,
            category: self.category@,
            time: self.time as int,
            date: self.date as int,
            scramble: self.scramble@,
            penalty: self.penalty@,
            comment: self.comment@,
        }
    }
}

impl Clone for TwistyTimer {
    fn clone(&self) -> (r: TwistyTimer)
        ensures
            r@ == self@,
    {
        proof {
            use_type_invariant(self);
        }
        TwistyTimer {
            puzzle: self.puzzle.clone(),
            category: self.category.clone(),
            time: self.time,
            date: self.date,
            scramble: self.scramble.clone(),
            penalty: self.penalty.clone(),
            comment: self.comment.clone(),
        }
    }
}

impl TwistyTimer {
    #[verifier::type_invariant]
    closed spec fn valid(&self) -> bool {
        record_valid(self@)
    }

    /// A record of the given values, where they make one.
    pub fn new(
        puzzle: TwistyTimerPuzzles,
        category: String,
        time: u32,
        date: i64,
        scramble: String,
        penalty: String,
        comment: String,
    ) -> (r: Option<TwistyTimer>)
        ensures
            r is Some <==> record_valid(
                (RecordModel {
                    puzzle: puzzle@,
                    category: category@,
                    time: time as int,
                    date: date as int,
                    scramble: scramble@,
                    penalty: penalty@,
                    comment: comment@,
                }),
            ),
            r matches Some(rec) ==> rec@ == (RecordModel {
                puzzle: puzzle@,
                category: category@,
                time: time as int,
                date: date as int,
                scramble: scramble@,
                penalty: penalty@,
                comment: comment@,
            }),
    {
        if time > MAX_REASONABLE_TIME || date < 0 || date > MAX_EPOCH_MILLIS {
            return None;
        }
        let secs: i64 = date / 1000;
        let nsecs: u32 = ((date % 1000) * 1_000_000) as u32;
        if !utc_instant_exists(secs, nsecs) {
            return None;
        }
        Some(TwistyTimer { puzzle, category, time, date, scramble, penalty, comment })
    }

    /// Brings to mind what holds of every record.
    pub(crate) fn recall_validity(&self)
        ensures
            record_valid(self@),
    {
        proof {
            use_type_invariant(self);
        }
    }

    /// The puzzle or event of the solve.
    pub fn puzzle(&self) -> (r: &TwistyTimerPuzzles)
        ensures
            r@ == self@.puzzle,
    {
        &self.puzzle
    }

    /// The session of the solve.
    pub fn category(&self) -> (r: &String)
        ensures
            r@ == self@.category,
    {
        &self.category
    }

    /// The time of the solve, in milliseconds.
    pub fn time(&self) -> (r: u32)
        ensures
            r == self@.time,
            r <= MAX_REASONABLE_TIME,
    {
        proof {
            use_type_invariant(self);
        }
        self.time
    }

    /// The date of the solve, in milliseconds since the epoch.
    pub fn date(&self) -> (r: i64)
        ensures
            r == self@.date,
            0 <= r <= MAX_EPOCH_MILLIS,
    {
        proof {
            use_type_invariant(self);
        }
        self.date
    }

    /// The scramble of the solve.
    pub fn scramble(&self) -> (r: &String)
        ensures
            r@ == self@.scramble,
    {
        &self.scramble
    }

    /// The penalty of the solve.
    pub fn penalty(&self) -> (r: &String)
        ensures
            r@ == self@.penalty,
    {
        &self.penalty
    }

    /// The comment of the solve.
    pub fn comment(&self) -> (r: &String)
        ensures
            r@ == self@.comment,
    {
        &self.comment
    }
}

/// The time that a text of the time column stands for, or why it has none.
pub open spec fn parse_time_spec(s: Seq<char>) -> Result<u32, ErrorModel> {
    if trimmed(s).len() == 0 {
        Err(ErrorModel::MissingField("time"@))
    } else {
        match decimal_u32(s) {
            None => Err(ErrorModel::InvalidTimeValue(s)),
            Some(t) => if t > MAX_REASONABLE_TIME {
                Err(ErrorModel::InvalidTimeValue(s + " (unreasonably large)"@))
            } else {
                Ok(t)
            },
        }
    }
}

/// The date that a text of the date column stands for, in milliseconds since
/// the epoch, or why it has none.
pub open spec fn parse_date_spec(s: Seq<char>) -> Result<i64, ErrorModel> {
    if trimmed(s).len() == 0 {
        Err(ErrorModel::MissingField("date"@))
    } else {
        match decimal_i64(s) {
            None => Err(ErrorModel::TimestampParseError(s, i64_parse_failure(s))),
            Some(m) => if 0 <= m <= MAX_EPOCH_MILLIS && utc_instant_defined(
                whole_seconds(m as int),
                nanos_within_second(m as int),
            ) {
                Ok(m)
            } else {
                Err(ErrorModel::InvalidTimestamp(s))
            },
        }
    }
}

/// Reads the time column: a number of milliseconds of at most a day.
pub fn parse_time(s: &str) -> (r: Result<u32, TwistyTimerError>)
    ensures
        match r {
            Ok(t) => parse_time_spec(s@) == Ok::<u32, ErrorModel>(t),
            Err(e) => parse_time_spec(s@) == Err::<u32, ErrorModel>(e@),
        },
{
    if trim(s).is_empty() {
        return Err(TwistyTimerError::MissingField(String::from_str("time")));
    }
    match parse_u32(s) {
        None => Err(TwistyTimerError::InvalidTimeValue(String::from_str(s))),
        Some(t) => {
            if t > MAX_REASONABLE_TIME {
                let mut text = String::from_str(s);
                text.append(" (unreasonably large)");
                Err(TwistyTimerError::InvalidTimeValue(text))
            } else {
                Ok(t)
            }
        },
    }
}

/// Reads the date column: a number of milliseconds since the epoch that is
/// an instant of the UTC calendar.
pub fn parse_date(s: &str) -> (r: Result<i64, TwistyTimerError>)
    ensures
        match r {
            Ok(m) => parse_date_spec(s@) == Ok::<i64, ErrorModel>(m),
            Err(e) => parse_date_spec(s@) == Err::<i64, ErrorModel>(e@),
        },
{
    if trim(s).is_empty() {
        return Err(TwistyTimerError::MissingField(String::from_str("date")));
    }
    match parse_i64(s) {
        Err(reason) => Err(TwistyTimerError::TimestampParseError(String::from_str(s), reason)),
        Ok(millis) => {
            if millis < 0 || millis > MAX_EPOCH_MILLIS {
                return Err(TwistyTimerError::InvalidTimestamp(String::from_str(s)));
            }
            let secs: i64 = millis / 1000;
            let nsecs: u32 = ((millis % 1000) * 1_000_000) as u32;
            if utc_instant_exists(secs, nsecs) {
                Ok(millis)
            } else {
                Err(TwistyTimerError::InvalidTimestamp(String::from_str(s)))
            }
        },
    }
}

/// A row as the export holds it: its columns in the order of the file, each
/// with the name from the header and the text of the cell.
#[derive(Debug, Clone, PartialEq, Eq)]
pub struct RawRecord {
    pub fields: Vec<(String, String)>,
}

impl View for RawRecord {
    type V = Seq<(Seq<char>, Seq<char>)>;

    open spec fn view(&self) -> Seq<(Seq<char>, Seq<char>)> {
        Seq::new(self.fields@.len(), |i: int| (self.fields@[i].0@, self.fields@[i].1@))
    }
}

/// The characters of a text that may be absent.
pub open spec fn chars_of(o: Option<String>) -> Option<Seq<char>> {
    match o {
        Some(s) => Some(s@),
        None => None,
    }
}

/// What has been read of a row after some of its columns.
pub struct PartialModel {
    pub puzzle: Option<PuzzleModel>,
    pub category: Option<Seq<char>>,
    pub time: Option<int>,
    pub date: Option<int>,
    pub scramble: Option<Seq<char>>,
    pub penalty: Option<Seq<char>>,
    pub comment: Option<Seq<char>>,
}

/// A row of which nothing has been read yet.
pub open spec fn nothing_read() -> PartialModel {
    PartialModel {
        puzzle: None,
        category: None,
        time: None,
        date: None,
        scramble: None,
        penalty: None,
        comment: None,
    }
}

/// The error of a row that has the column `name` twice.
pub open spec fn duplicate_field(name: Seq<char>) -> ErrorModel {
    ErrorModel::CsvError("duplicate field `"@ + name + "`"@)
}

/// What one more column adds to what has been read. The white space around
/// the cell's text is left out first. A column of the record that comes a
/// second time is an error, a column of another name is passed over.
pub open spec fn absorb_spec(p: PartialModel, name: Seq<char>, cell: Seq<char>) -> Result<
    PartialModel,
    ErrorModel,
> {
    let text = trimmed(cell);
    if name == "puzzle"@ {
        if p.puzzle is Some {
            Err(duplicate_field(name))
        } else {
            match resolve(text) {
                None => Err(ErrorModel::EmptyPuzzleType),
                Some(m) => Ok(PartialModel { puzzle: Some(m), ..p }),
            }
        }
    } else if name == "category"@ {
        if p.category is Some {
            Err(duplicate_field(name))
        } else {
            Ok(PartialModel { category: Some(text), ..p })
        }
    } else if name == "time"@ {
        if p.time is Some {
            Err(duplicate_field(name))
        } else {
            match parse_time_spec(text) {
                Err(e) => Err(e),
                Ok(t) => Ok(PartialModel { time: Some(t as int), ..p }),
            }
        }
    } else if name == "date"@ {
        if p.date is Some {
            Err(duplicate_field(name))
        } else {
            match parse_date_spec(text) {
                Err(e) => Err(e),
                Ok(d) => Ok(PartialModel { date: Some(d as int), ..p }),
            }
        }
    } else if name == "scramble"@ {
        if p.scramble is Some {
            Err(duplicate_field(name))
        } else {
            Ok(PartialModel { scramble: Some(text), ..p })
        }
    } else if name == "penalty"@ {
        if p.penalty is Some {
            Err(duplicate_field(name))
        } else {
            Ok(PartialModel { penalty: Some(text), ..p })
        }
    } else if name == "comment"@ {
        if p.comment is Some {
            Err(duplicate_field(name))
        } else {
            Ok(PartialModel { comment: Some(text), ..p })
        }
    } else {
        Ok(p)
    }
}

/// What has been read after all of the given columns, taken in their order:
/// the first column that is wrong ends the reading with its error.
pub open spec fn absorb_all(fields: Seq<(Seq<char>, Seq<char>)>) -> Result<
    PartialModel,
    ErrorModel,
>
    decreases fields.len(),
{
    if fields.len() == 0 {
        Ok(nothing_read())
    } else {
        match absorb_all(fields.drop_last()) {
            Err(e) => Err(e),
            Ok(p) => absorb_spec(p, fields.last().0, fields.last().1),
        }
    }
}

/// The record that is made of what has been read of a row, or the first
/// required field that the row lacks. A row without a comment has the empty
/// comment.
pub open spec fn complete_spec(p: PartialModel) -> Result<RecordModel, ErrorModel> {
    if p.puzzle is None {
        Err(ErrorModel::MissingField("puzzle"@))
    } else if p.category is None {
        Err(ErrorModel::MissingField("category"@))
    } else if p.time is None {
        Err(ErrorModel::MissingField("time"@))
    } else if p.date is None {
        Err(ErrorModel::MissingField("date"@))
    } else if p.scramble is None {
        Err(ErrorModel::MissingField("scramble"@))
    } else if p.penalty is None {
        Err(ErrorModel::MissingField("penalty"@))
    } else {
        Ok(
            RecordModel {
                puzzle: p.puzzle->Some_0,
                category: p.category->Some_0,
                time: p.time->Some_0,
                date: p.date->Some_0,
                scramble: p.scramble->Some_0,
                penalty: p.penalty->Some_0,
                comment: match p.comment {
                    Some(c) => c,
                    None => Seq::<char>::empty(),
                },
            },
        )
    }
}

/// The record that a row stands for, or what is wrong with the row: the
/// error of the first column in file order that is wrong, else the first
/// required field that is absent.
pub open spec fn parse_record_spec(fields: Seq<(Seq<char>, Seq<char>)>) -> Result<
    RecordModel,
    ErrorModel,
> {
    match absorb_all(fields) {
        Err(e) => Err(e),
        Ok(p) => complete_spec(p),
    }
}

/// What holds of the time and the date that have been read of a row.
pub open spec fn partial_valid(p: PartialModel) -> bool {
    &&& p.time matches Some(t) ==> 0 <= t <= MAX_REASONABLE_TIME
    &&& p.date matches Some(d) ==> 0 <= d <= MAX_EPOCH_MILLIS && utc_instant_defined(
        whole_seconds(d),
        nanos_within_second(d),
    )
}

/// The mathematical value of what parsing a row gives.
pub open spec fn outcome_view(r: Result<TwistyTimer, TwistyTimerError>) -> Result<
    RecordModel,
    ErrorModel,
> {
    match r {
        Ok(rec) => Ok(rec@),
        Err(e) => Err(e@),
    }
}

/// What has been read of a row after some of its columns.
struct PartialRecord {
    puzzle: Option<TwistyTimerPuzzles>,
    category: Option<String>,
    time: Option<u32>,
    date: Option<i64>,
    scramble: Option<String>,
    penalty: Option<String>,
    comment: Option<String>,
}

impl View for PartialRecord {
    type V = PartialModel;

    closed spec fn view(&self) -> PartialModel {
        PartialModel {
            puzzle: match self.puzzle {
                Some(p) => Some(p@),
                None => None,
            },
            category: chars_of(self.category),
            time: match self.time {
                Some(t) => Some(t as int),
                None => None,
            },
            date: match self.date {
                Some(d) => Some(d as int),
                None => None,
            },
            scramble: chars_of(self.scramble),
            penalty: chars_of(self.penalty),
            comment: chars_of(self.comment),
        }
    }
}

/// An error that says which required field a row lacks.
fn missing(name: &str) -> (r: TwistyTimerError)
    ensures
        r@ == ErrorModel::MissingField(name@),
{
    TwistyTimerError::MissingField(String::from_str(name))
}

/// An error that says which column a row has twice.
fn duplicate(name: &str) -> (r: TwistyTimerError)
    ensures
        r@ == duplicate_field(name@),
{
    let mut text = String::from_str("duplicate field `");
    text.append(name);
    text.append("`");
    TwistyTimerError::CsvError(text)
}

/// Adds one column to what has been read of a row.
fn absorb(p: PartialRecord, name: &str, cell: &str) -> (r: Result<PartialRecord, TwistyTimerError>)
    requires
        partial_valid(p@),
    ensures
        match r {
            Ok(q) => absorb_spec(p@, name@, cell@) == Ok::<PartialModel, ErrorModel>(q@)
                && partial_valid(q@),
            Err(e) => absorb_spec(p@, name@, cell@) == Err::<PartialModel, ErrorModel>(e@),
        },
{
    let mut p = p;
    let text = trim(cell);
    if same_text(name, "puzzle") {
        if p.puzzle.is_some() {
            return Err(duplicate(name));
        }
        match TwistyTimerPuzzles::from_str(text) {
            Err(e) => Err(e),
            Ok(puzzle) => {
                p.puzzle = Some(puzzle);
                Ok(p)
            },
        }
    } else if same_text(name, "category") {
        if p.category.is_some() {
            return Err(duplicate(name));
        }
        p.category = Some(String::from_str(text));
        Ok(p)
    } else if same_text(name, "time") {
        if p.time.is_some() {
            return Err(duplicate(name));
        }
        match parse_time(text) {
            Err(e) => Err(e),
            Ok(time) => {
                p.time = Some(time);
                Ok(p)
            },
        }
    } else if same_text(name, "date") {
        if p.date.is_some() {
            return Err(duplicate(name));
        }
        match parse_date(text) {
            Err(e) => Err(e),
            Ok(date) => {
                p.date = Some(date);
                Ok(p)
            },
        }
    } else if same_text(name, "scramble") {
        if p.scramble.is_some() {
            return Err(duplicate(name));
        }
        p.scramble = Some(String::from_str(text));
        Ok(p)
    } else if same_text(name, "penalty") {
        if p.penalty.is_some() {
            return Err(duplicate(name));
        }
        p.penalty = Some(String::from_str(text));
        Ok(p)
    } else if same_text(name, "comment") {
        if p.comment.is_some() {
            return Err(duplicate(name));
        }
        p.comment = Some(String::from_str(text));
        Ok(p)
    } else {
        Ok(p)
    }
}

/// Makes the record of what has been read of a row.
fn complete(p: PartialRecord) -> (r: Result<TwistyTimer, TwistyTimerError>)
    requires
        partial_valid(p@),
    ensures
        outcome_view(r) == complete_spec(p@),
        r matches Ok(rec) ==> record_valid(rec@),
{
    let puzzle = match p.puzzle {
        None => { return Err(missing("puzzle")); },
        Some(puzzle) => puzzle,
    };
    let category = match p.category {
        None => { return Err(missing("category")); },
        Some(category) => category,
    };
    let time = match p.time {
        None => { return Err(missing("time")); },
        Some(time) => time,
    };
    let date = match p.date {
        None => { return Err(missing("date")); },
        Some(date) => date,
    };
    let scramble = match p.scramble {
        None => { return Err(missing("scramble")); },
        Some(scramble) => scramble,
    };
    let penalty = match p.penalty {
        None => { return Err(missing("penalty")); },
        Some(penalty) => penalty,
    };
    let comment = match p.comment {
        None => String::new(),
        Some(comment) => comment,
    };
    Ok(TwistyTimer { puzzle, category, time, date, scramble, penalty, comment })
}

/// Once a column is wrong, the columns after it change nothing: the row has
/// the error of that column.
pub proof fn first_wrong_column_decides(fields: Seq<(Seq<char>, Seq<char>)>, n: int)
    requires
        0 <= n <= fields.len(),
        absorb_all(fields.subrange(0, n)) is Err,
    ensures
        absorb_all(fields) == absorb_all(fields.subrange(0, n)),
    decreases fields.len(),
{
    if n == fields.len() {
        assert(fields.subrange(0, n) =~= fields);
    } else {
        assert(fields.drop_last().subrange(0, n) =~= fields.subrange(0, n));
        first_wrong_column_decides(fields.drop_last(), n);
    }
}

/// The time and the date that have been read of a row are always valid.
pub proof fn absorbed_is_valid(fields: Seq<(Seq<char>, Seq<char>)>)
    ensures
        absorb_all(fields) matches Ok(p) ==> partial_valid(p),
    decreases fields.len(),
{
    if fields.len() > 0 {
        absorbed_is_valid(fields.drop_last());
    }
}

/// Turns a row into a record, or says what is wrong with the row. The
/// columns are read in the order of the file, and the white space around
/// each text is left out before anything else is done with it.
pub fn parse_record(row: &RawRecord) -> (r: Result<TwistyTimer, TwistyTimerError>)
    ensures
        outcome_view(r) == parse_record_spec(row@),
        r matches Ok(rec) ==> record_valid(rec@),
{
    let mut p = PartialRecord {
        puzzle: None,
        category: None,
        time: None,
        date: None,
        scramble: None,
        penalty: None,
        comment: None,
    };
    let mut i: usize = 0;
    proof {
        assert(row@.subrange(0, 0) =~= Seq::empty());
    }
    while i < row.fields.len()
        invariant
            i <= row.fields.len(),
            row@.len() == row.fields.len(),
            absorb_all(row@.subrange(0, i as int)) == Ok::<PartialModel, ErrorModel>(p@),
            partial_valid(p@),
        decreases row.fields.len() - i,
    {
        let ghost part = row@.subrange(0, i as int + 1);
        proof {
            assert(part.drop_last() =~= row@.subrange(0, i as int));
            assert(part.last() == row@[i as int]);
        }
        let field = &row.fields[i];
        match absorb(p, field.0.as_str(), field.1.as_str()) {
            Err(e) => {
                proof {
                    first_wrong_column_decides(row@, i as int + 1);
                }
                return Err(e);
            },
            Ok(q) => {
                p = q;
            },
        }
        i += 1;
    }
    proof {
        assert(row@.subrange(0, i as int) =~= row@);
    }
    complete(p)
}

/// Whatever row it comes from, a record has a time of at most a day and a
/// date that is an instant of the UTC calendar.
pub proof fn parsed_record_is_valid(fields: Seq<(Seq<char>, Seq<char>)>)
    requires
        parse_record_spec(fields) is Ok,
    ensures
        record_valid(parse_record_spec(fields)->Ok_0),
{
    absorbed_is_valid(fields);
}

/// Parsing depends on the text of the row alone: two rows with the same
/// texts give the same record, or the same error.
pub proof fn parse_is_deterministic(a: RawRecord, b: RawRecord)
    requires
        a@ == b@,
    ensures
        parse_record_spec(a@) == parse_record_spec(b@),
{
}

} // verus!
