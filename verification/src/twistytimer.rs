//! Reading a whole export: every line becomes a record, and a line that does
//! not either ends the reading or is left out.

use vstd::prelude::*;
use crate::error::{message_of, ErrorModel, TwistyTimerError};
use crate::loader::record_models;
use crate::record::{parse_record, parse_record_spec, RawRecord, RecordModel, TwistyTimer};
use crate::table::{cells_view, csv_header, csv_lines, line_view, lines_view, read_header, read_lines, Line, LineModel};

verus! {

/// How an export is read.
#[derive(Debug, Clone)]
pub struct ParseConfig {
    /// Leave out the lines that make no record, instead of failing on the
    /// first of them.
    pub skip_invalid_records: bool,
}

impl Default for ParseConfig {
    fn default() -> (r: ParseConfig)
        ensures
            !r.skip_invalid_records,
    {
        ParseConfig { skip_invalid_records: false }
    }
}

/// The row that the cells of a line make under a header: each cell with the
/// name of its column, in the order of the file, as far as both reach.
pub open spec fn raw_of(header: Seq<Seq<char>>, cells: Seq<Seq<char>>) -> Seq<(Seq<char>, Seq<char>)> {
    Seq::new(
        if header.len() <= cells.len() {
            header.len()
        } else {
            cells.len()
        },
        |i: int| (header[i], cells[i]),
    )
}

impl RawRecord {
    /// The row that the cells of a line make under a header.
    pub fn from_cells(header: &Vec<String>, cells: &Vec<String>) -> (r: RawRecord)
        ensures
            r@ == raw_of(cells_view(header@), cells_view(cells@)),
    {
        let width: usize = if header.len() <= cells.len() {
            header.len()
        } else {
            cells.len()
        };
        let mut fields: Vec<(String, String)> = Vec::new();
        let mut i: usize = 0;
        while i < width
            invariant
                i <= width,
                width <= header.len(),
                width <= cells.len(),
                fields.len() == i,
                forall|j: int| 0 <= j < i ==> fields@[j].0@ == header@[j]@ && fields@[j].1@ == cells@[j]@,
            decreases width - i,
        {
            fields.push((header[i].clone(), cells[i].clone()));
            i += 1;
        }
        let r = RawRecord { fields };
        proof {
            assert(r@ =~= raw_of(cells_view(header@), cells_view(cells@)));
        }
        r
    }
}

/// What a line gives under a header: its record, or the message of what is
/// wrong with it.
pub open spec fn line_outcome(header: Seq<Seq<char>>, line: LineModel) -> Result<RecordModel, Seq<char>> {
    match line {
        Err(msg) => Err(msg),
        Ok(cells) => match parse_record_spec(raw_of(header, cells)) {
            Ok(m) => Ok(m),
            Err(e) => Err(message_of(e)),
        },
    }
}

/// The records of the lines that give one, in the order of the lines.
pub open spec fn good_records(header: Seq<Seq<char>>, lines: Seq<LineModel>) -> Seq<RecordModel>
    decreases lines.len(),
{
    if lines.len() == 0 {
        Seq::empty()
    } else {
        let before = good_records(header, lines.drop_last());
        match line_outcome(header, lines.last()) {
            Ok(m) => before.push(m),
            Err(_) => before,
        }
    }
}

/// The number of lines that give no record.
pub open spec fn bad_count(header: Seq<Seq<char>>, lines: Seq<LineModel>) -> nat
    decreases lines.len(),
{
    if lines.len() == 0 {
        0
    } else {
        let before = bad_count(header, lines.drop_last());
        match line_outcome(header, lines.last()) {
            Ok(_) => before,
            Err(_) => before + 1,
        }
    }
}

/// Whether line `i` is the first that gives no record.
pub open spec fn is_first_bad(header: Seq<Seq<char>>, lines: Seq<LineModel>, i: int) -> bool {
    &&& 0 <= i < lines.len()
    &&& line_outcome(header, lines[i]) is Err
    &&& forall|j: int| 0 <= j < i ==> line_outcome(header, #[trigger] lines[j]) is Ok
}

/// Every line either gives a record or is counted as bad: the records
/// that are kept are as many as the lines less the bad ones.
pub proof fn good_and_bad_make_all(header: Seq<Seq<char>>, lines: Seq<LineModel>)
    ensures
        good_records(header, lines).len() + bad_count(header, lines) == lines.len(),
    decreases lines.len(),
{
    if lines.len() > 0 {
        good_and_bad_make_all(header, lines.drop_last());
    }
}

/// Turns the lines of an export into records, in their order. A line that
/// gives no record is left out where `skip_invalid_records` is set; else the
/// first such line ends the reading, with its number, counted from one, and
/// its message.
pub fn parse_lines(header: &Vec<String>, lines: &Vec<Line>, skip_invalid_records: bool) -> (r: Result<Vec<TwistyTimer>, TwistyTimerError>)
    ensures
        records_view(r) == lines_outcome(
            cells_view(header@),
            lines_view(lines@),
            skip_invalid_records,
        ),
        r matches Err(e) ==> exists|i: int| #[trigger]
            is_first_bad(cells_view(header@), lines_view(lines@), i) && e@ == ErrorModel::CsvRecordError(
                (i + 1) as nat,
                line_outcome(cells_view(header@), lines_view(lines@)[i])->Err_0,
            ),
{
    let ghost h = cells_view(header@);
    let ghost ls = lines_view(lines@);
    let mut records: Vec<TwistyTimer> = Vec::new();
    let mut i: usize = 0;
    proof {
        assert(ls.subrange(0, 0) =~= Seq::empty());
        assert(record_models(records@) =~= Seq::empty());
    }
    while i < lines.len()
        invariant
            i <= lines.len(),
            h == cells_view(header@),
            ls == lines_view(lines@),
            record_models(records@) == good_records(h, ls.subrange(0, i as int)),
            !skip_invalid_records ==> bad_count(h, ls.subrange(0, i as int)) == 0,
            !skip_invalid_records ==> forall|j: int| 0 <= j < i ==> line_outcome(h, #[trigger] ls[j]) is Ok,
        decreases lines.len() - i,
    {
        let ghost part = ls.subrange(0, i as int + 1);
        let ghost before = record_models(records@);
        proof {
            assert(part.drop_last() =~= ls.subrange(0, i as int));
            assert(part.last() == ls[i as int]);
            assert(ls[i as int] == line_view(lines@[i as int]));
        }
        let outcome: Result<TwistyTimer, String> = match &lines[i] {
            Err(msg) => Err(msg.clone()),
            Ok(cells) => {
                let row = RawRecord::from_cells(header, cells);
                match parse_record(&row) {
                    Ok(rec) => Ok(rec),
                    Err(e) => Err(e.to_string()),
                }
            },
        };
        match outcome {
            Ok(rec) => {
                assert(line_outcome(h, ls[i as int]) == Ok::<RecordModel, Seq<char>>(rec@));
                records.push(rec);
                proof {
                    assert(record_models(records@) =~= before.push(rec@));
                }
            },
            Err(msg) => {
                assert(line_outcome(h, ls[i as int]) == Err::<RecordModel, Seq<char>>(msg@));
                if !skip_invalid_records {
                    proof {
                        assert(is_first_bad(h, ls, i as int));
                        bad_line_is_counted(h, ls, i as int);
                        let k = choose|k: int| is_first_bad(h, ls, k);
                        first_bad_is_unique(h, ls, i as int, k);
                    }
                    return Err(TwistyTimerError::CsvRecordError(i + 1, msg));
                }
            },
        }
        i += 1;
    }
    proof {
        assert(ls.subrange(0, i as int) =~= ls);
    }
    Ok(records)
}

/// The mathematical value of what reading an export gives.
pub open spec fn records_view(r: Result<Vec<TwistyTimer>, TwistyTimerError>) -> Result<Seq<RecordModel>, ErrorModel> {
    match r {
        Ok(records) => Ok(record_models(records@)),
        Err(e) => Err(e@),
    }
}

/// What the lines of an export give under its header: the records of the
/// good lines where bad ones are skipped or there are none, else the number
/// and the message of the first bad line.
pub open spec fn lines_outcome(header: Seq<Seq<char>>, lines: Seq<LineModel>, skip: bool) -> Result<Seq<RecordModel>, ErrorModel> {
    if skip || bad_count(header, lines) == 0 {
        Ok(good_records(header, lines))
    } else {
        let i = choose|i: int| is_first_bad(header, lines, i);
        Err(ErrorModel::CsvRecordError((i + 1) as nat, line_outcome(header, lines[i])->Err_0))
    }
}

/// What reading an export gives, from what the reader finds in it: an export
/// without a readable header fails as a whole.
pub open spec fn table_outcome(header: LineModel, lines: Seq<LineModel>, skip: bool) -> Result<Seq<RecordModel>, ErrorModel> {
    match header {
        Err(msg) => Err(ErrorModel::CsvError(msg)),
        Ok(h) => lines_outcome(h, lines, skip),
    }
}

/// The first bad line is one line only.
pub proof fn first_bad_is_unique(header: Seq<Seq<char>>, lines: Seq<LineModel>, i: int, k: int)
    requires
        is_first_bad(header, lines, i),
        is_first_bad(header, lines, k),
    ensures
        i == k,
{
    if i < k {
        assert(line_outcome(header, lines[i]) is Ok);
    } else if k < i {
        assert(line_outcome(header, lines[k]) is Ok);
    }
}

/// A bad line makes the count of bad lines positive.
pub proof fn bad_line_is_counted(header: Seq<Seq<char>>, lines: Seq<LineModel>, i: int)
    requires
        0 <= i < lines.len(),
        line_outcome(header, lines[i]) is Err,
    ensures
        bad_count(header, lines) > 0,
    decreases lines.len(),
{
    if i < lines.len() - 1 {
        assert(lines.drop_last()[i] == lines[i]);
        bad_line_is_counted(header, lines.drop_last(), i);
    }
}

/// Reads an export given as the bytes of its file. Without a configuration
/// the first line that gives no record ends the reading.
pub fn parse_twistytimer(data: &[u8], config: Option<ParseConfig>) -> (r: Result<Vec<TwistyTimer>, TwistyTimerError>)
    ensures
        records_view(r) == table_outcome(
            csv_header(data@),
            csv_lines(data@),
            config matches Some(c) && c.skip_invalid_records,
        ),
{
    let skip = match config {
        Some(c) => c.skip_invalid_records,
        None => false,
    };
    let header = match read_header(data) {
        Ok(header) => header,
        Err(msg) => { return Err(TwistyTimerError::CsvError(msg)); },
    };
    let lines = read_lines(data);
    parse_lines(&header, &lines, skip)
}

} // verus!
