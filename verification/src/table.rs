//! Delimited text, as the `csv` crate reads it.

use vstd::prelude::*;

verus! {

/// One line of a table below its header: the cells of the line, or the
/// message of what the reader found wrong with it.
pub type Line = Result<Vec<String>, String>;

/// The mathematical value of a line.
pub type LineModel = Result<Seq<Seq<char>>, Seq<char>>;

/// The header cells that a `csv` reader with trimming of every cell finds in
/// `data`, or the message of the reader's error.
pub uninterp spec fn csv_header(data: Seq<u8>) -> LineModel;

/// The lines that such a reader finds in `data` below the header, in their
/// order: for each its trimmed cells, or the message of the reader's error.
pub uninterp spec fn csv_lines(data: Seq<u8>) -> Seq<LineModel>;

/// The characters of each cell.
pub open spec fn cells_view(cells: Seq<String>) -> Seq<Seq<char>> {
    Seq::new(cells.len(), |i: int| cells[i]@)
}

/// The mathematical value of a line.
pub open spec fn line_view(line: Line) -> LineModel {
    match line {
        Ok(cells) => Ok(cells_view(cells@)),
        Err(msg) => Err(msg@),
    }
}

/// The mathematical value of each line.
pub open spec fn lines_view(lines: Seq<Line>) -> Seq<LineModel> {
    Seq::new(lines.len(), |i: int| line_view(lines[i]))
}

/// `csv::Reader::headers`, on a reader over `data` that trims every cell:
/// the result holds the header's cells, or the message of the error.
#[verifier::external_body]
pub(crate) fn read_header(data: &[u8]) -> (r: Line)
    ensures
        line_view(r) == csv_header(data@),
{
    let mut reader = csv::ReaderBuilder::new().trim(csv::Trim::All).from_reader(data);
    match reader.headers() {
        Ok(header) => Ok(header.iter().map(|cell| cell.to_string()).collect()),
        Err(e) => Err(e.to_string()),
    }
}

/// `csv::Reader::records`, on a reader over `data` that trims every cell:
/// the result holds, for each line below the header, its cells or the
/// message of the error.
#[verifier::external_body]
pub(crate) fn read_lines(data: &[u8]) -> (r: Vec<Line>)
    ensures
        lines_view(r@) == csv_lines(data@),
{
    let mut reader = csv::ReaderBuilder::new().trim(csv::Trim::All).from_reader(data);
    let mut lines: Vec<Line> = Vec::new();
    for record in reader.records() {
        lines.push(match record {
            Ok(cells) => Ok(cells.iter().map(|cell| cell.to_string()).collect()),
            Err(e) => Err(e.to_string()),
        });
    }
    lines
}

} // verus!
