//! A tokenizer for unified diffs, on bytes.
//!
//! The text is cut into lines at every line feed. A scanner then walks the
//! lines with four states: before a file header, between the two lines of a
//! file header, behind a file header, and inside a hunk. A hunk header
//! `@@ -a,b +c,d @@` says how many lines of the old and of the new file the
//! hunk holds, and the scanner counts them down, so that the content of a
//! line is never taken for a header. Only the lines of hunks are handed
//! out, each with its kind and its content (the line without its mark).

use vstd::prelude::*;
use vstd::slice::{slice_subrange, slice_to_vec};
use crate::lines::{lines_view, split_lines, split_lines_spec, LINE_FEED};

verus! {

/// Space, the mark of a context line.
pub const SPACE: u8 = 32;

/// `+`, the mark of an added line.
pub const PLUS: u8 = 43;

/// `-`, the mark of a removed line.
pub const MINUS: u8 = 45;

/// `@`, which begins a hunk header.
pub const AT: u8 = 64;

/// Backslash, which begins the note that a file does not end in a line feed.
pub const BACKSLASH: u8 = 92;

/// The comma between the start and the count of a range.
pub const COMMA: u8 = 44;

/// The digit `0`.
pub const ZERO: u8 = 48;

/// The digit `9`.
pub const NINE: u8 = 57;

/// The kind of a line inside a hunk.
#[derive(Debug, Clone, Copy, PartialEq, Eq, Structural)]
pub enum LineKind {
    Added,
    Removed,
    Context,
}

/// A line of a hunk: its kind and its content without the mark.
#[derive(Debug)]
pub struct DiffLine {
    pub kind: LineKind,
    pub content: Vec<u8>,
}

impl View for DiffLine {
    type V = (LineKind, Seq<u8>);

    open spec fn view(&self) -> (LineKind, Seq<u8>) {
        (self.kind, self.content@)
    }
}

/// The contents of a list of hunk lines.
pub open spec fn diff_lines_view(lines: Seq<DiffLine>) -> Seq<(LineKind, Seq<u8>)> {
    lines.map_values(|line: DiffLine| line@)
}

/// Where the scanner stands.
#[derive(Debug, Clone, Copy, PartialEq, Eq, Structural)]
pub enum ScanState {
    /// Outside any file's patch: lines are skipped until a file header.
    Preamble,
    /// Behind the `--- ` line of a file header: the `+++ ` line must follow.
    OldHeader,
    /// Behind a complete file header: a hunk header must follow.
    Headers,
    /// Inside a hunk that still lacks `old_left` lines of the old file and
    /// `new_left` lines of the new one; with both at zero the hunk is complete.
    Hunk { old_left: u64, new_left: u64 },
}

impl ScanState {
    /// A text may end in this state: outside a file's patch, or behind a
    /// complete hunk.
    pub open spec fn may_end(&self) -> bool {
        match self {
            ScanState::Preamble => true,
            ScanState::Hunk { old_left, new_left } => *old_left == 0 && *new_left == 0,
            _ => false,
        }
    }
}

/// The byte is a decimal digit.
pub open spec fn is_digit(byte: u8) -> bool {
    ZERO <= byte && byte <= NINE
}

/// The end of the run of digits that begins at `from`.
pub open spec fn digits_end(line: Seq<u8>, from: int) -> int
    decreases line.len() - from,
{
    if 0 <= from < line.len() && is_digit(line[from]) {
        digits_end(line, from + 1)
    } else {
        from
    }
}

/// The number that a run of digits writes in base ten.
pub open spec fn decimal_value(digits: Seq<u8>) -> nat
    decreases digits.len(),
{
    if digits.len() == 0 {
        0
    } else {
        decimal_value(digits.drop_last()) * 10 + if is_digit(digits.last()) {
            (digits.last() - ZERO) as nat
        } else {
            0
        }
    }
}

/// The number written at `from` and where it ends: there is one where at
/// least one digit stands there and the number fits 64 bits.
pub open spec fn number_at(line: Seq<u8>, from: int) -> Option<(u64, int)> {
    let end = digits_end(line, from);
    let value = decimal_value(line.subrange(from, end));
    if from < end && value <= u64::MAX {
        Some((value as u64, end))
    } else {
        None
    }
}

/// The line count of the range `start[,count]` written at `from`, and
/// where the range ends. A range without a count holds one line.
pub open spec fn range_at(line: Seq<u8>, from: int) -> Option<(u64, int)> {
    match number_at(line, from) {
        None => None,
        Some((_, end)) => if end < line.len() && line[end] == COMMA {
            number_at(line, end + 1)
        } else {
            Some((1u64, end))
        },
    }
}

/// The line counts of the old and the new file in a hunk header
/// `@@ -start[,count] +start[,count] @@`, which anything may follow.
pub open spec fn hunk_header(line: Seq<u8>) -> Option<(u64, u64)> {
    if line.len() >= 4 && line[0] == AT && line[1] == AT && line[2] == SPACE && line[3] == MINUS {
        match range_at(line, 4) {
            None => None,
            Some((old_count, p)) => if p + 2 <= line.len() && line[p] == SPACE && line[p + 1]
                == PLUS {
                match range_at(line, p + 2) {
                    None => None,
                    Some((new_count, q)) => if q + 3 <= line.len() && line[q] == SPACE && line[q
                        + 1] == AT && line[q + 2] == AT {
                        Some((old_count, new_count))
                    } else {
                        None
                    },
                }
            } else {
                None
            },
        }
    } else {
        None
    }
}

/// The state behind a line that must be a hunk header.
pub open spec fn enter_hunk(line: Seq<u8>) -> Option<(ScanState, Option<LineKind>)> {
    match hunk_header(line) {
        Some((old_left, new_left)) => Some((ScanState::Hunk { old_left, new_left }, None)),
        None => None,
    }
}

/// The line begins with `--- `, as the first line of a file header does.
pub open spec fn is_old_header(line: Seq<u8>) -> bool {
    line.len() >= 4 && line[0] == MINUS && line[1] == MINUS && line[2] == MINUS && line[3]
        == SPACE
}

/// The line begins with `+++ `, as the second line of a file header does.
pub open spec fn is_new_header(line: Seq<u8>) -> bool {
    line.len() >= 4 && line[0] == PLUS && line[1] == PLUS && line[2] == PLUS && line[3] == SPACE
}

/// The line begins with `@@`, the mark of a hunk header.
pub open spec fn is_hunk_mark(line: Seq<u8>) -> bool {
    line.len() >= 2 && line[0] == AT && line[1] == AT
}

/// One step of the scanner: the next state and, for a line of a hunk, its
/// kind; nothing where the line cannot stand in this state.
///
/// Outside a file's patch every line is skipped but a file header, which
/// opens a patch, and a hunk header, which cannot stand there. Inside a
/// hunk that is not complete, a line must carry the mark of a kind of
/// which the hunk still lacks a line, or be the note on a missing line
/// feed. Behind a complete hunk the next hunk, the next file header or
/// the note may follow; any other line leaves the file's patch.
pub open spec fn scan_step(state: ScanState, line: Seq<u8>) -> Option<(ScanState, Option<LineKind>)> {
    match state {
        ScanState::Preamble => if is_old_header(line) {
            Some((ScanState::OldHeader, None))
        } else if is_hunk_mark(line) {
            None
        } else {
            Some((ScanState::Preamble, None))
        },
        ScanState::OldHeader => if is_new_header(line) {
            Some((ScanState::Headers, None))
        } else {
            None
        },
        ScanState::Headers => enter_hunk(line),
        ScanState::Hunk { old_left, new_left } => if old_left == 0 && new_left == 0 {
            if line.len() > 0 && line[0] == BACKSLASH {
                Some((state, None))
            } else if is_hunk_mark(line) {
                enter_hunk(line)
            } else if is_old_header(line) {
                Some((ScanState::OldHeader, None))
            } else {
                Some((ScanState::Preamble, None))
            }
        } else if line.len() == 0 {
            None
        } else if line[0] == PLUS && new_left > 0 {
            Some(
                (
                    ScanState::Hunk { old_left, new_left: (new_left - 1) as u64 },
                    Some(LineKind::Added),
                ),
            )
        } else if line[0] == MINUS && old_left > 0 {
            Some(
                (
                    ScanState::Hunk { old_left: (old_left - 1) as u64, new_left },
                    Some(LineKind::Removed),
                ),
            )
        } else if line[0] == SPACE && old_left > 0 && new_left > 0 {
            Some(
                (
                    ScanState::Hunk {
                        old_left: (old_left - 1) as u64,
                        new_left: (new_left - 1) as u64,
                    },
                    Some(LineKind::Context),
                ),
            )
        } else if line[0] == BACKSLASH {
            Some((state, None))
        } else {
            None
        },
    }
}

/// Why a text is no unified diff.
pub enum DiffFault {
    /// This line cannot stand where it stands.
    UnexpectedLine(Seq<u8>),
    /// The text ends inside a file header or inside a hunk.
    UnexpectedEnd,
}

/// The scanner's state behind the given lines and the hunk lines found in
/// them, or the first line that could not stand.
pub open spec fn scan_lines(lines: Seq<Seq<u8>>) -> Result<
    (ScanState, Seq<(LineKind, Seq<u8>)>),
    DiffFault,
>
    decreases lines.len(),
{
    if lines.len() == 0 {
        Ok((ScanState::Preamble, Seq::empty()))
    } else {
        match scan_lines(lines.drop_last()) {
            Err(fault) => Err(fault),
            Ok((state, found)) => match scan_step(state, lines.last()) {
                None => Err(DiffFault::UnexpectedLine(lines.last())),
                Some((next, None)) => Ok((next, found)),
                Some((next, Some(kind))) => Ok(
                    (next, found.push((kind, lines.last().subrange(1, lines.last().len() as int)))),
                ),
            },
        }
    }
}

/// The hunk lines of a unified diff, in order. A text is a unified diff
/// where every line can stand where it stands and the text ends neither
/// inside a file header nor inside a hunk; the empty text is one, without
/// lines.
pub open spec fn parse_diff(bytes: Seq<u8>) -> Result<Seq<(LineKind, Seq<u8>)>, DiffFault> {
    match scan_lines(split_lines_spec(bytes)) {
        Err(fault) => Err(fault),
        Ok((state, found)) => if state.may_end() {
            Ok(found)
        } else {
            Err(DiffFault::UnexpectedEnd)
        },
    }
}

/// Reads the number written at `from`: see [`number_at`].
pub fn read_number(line: &Vec<u8>, from: usize) -> (r: Option<(u64, usize)>)
    requires
        from <= line@.len(),
    ensures
        number_at(line@, from as int) == match r {
            Some((value, end)) => Some((value, end as int)),
            None => None,
        },
        r matches Some((_, end)) ==> from < end <= line@.len(),
{
    let mut value: u64 = 0;
    let mut overflow = false;
    let mut i: usize = from;
    assert(line@.subrange(from as int, from as int) =~= Seq::empty());
    while i < line.len() && ZERO <= line[i] && line[i] <= NINE
        invariant
            from <= i <= line@.len(),
            digits_end(line@, from as int) == digits_end(line@, i as int),
            !overflow ==> value == decimal_value(line@.subrange(from as int, i as int)),
            overflow ==> decimal_value(line@.subrange(from as int, i as int)) > u64::MAX,
        decreases line.len() - i,
    {
        let digit: u64 = (line[i] - ZERO) as u64;
        assert(line@.subrange(from as int, i + 1).drop_last() =~= line@.subrange(
            from as int,
            i as int,
        ));
        assert(line@.subrange(from as int, i + 1).last() == line@[i as int]);
        if !overflow {
            if value > (u64::MAX - digit) / 10 {
                overflow = true;
            } else {
                value = value * 10 + digit;
            }
        }
        i = i + 1;
    }
    if i > from && !overflow {
        Some((value, i))
    } else {
        None
    }
}

/// Reads the range written at `from`: see [`range_at`].
pub fn read_range(line: &Vec<u8>, from: usize) -> (r: Option<(u64, usize)>)
    requires
        from <= line@.len(),
    ensures
        range_at(line@, from as int) == match r {
            Some((count, end)) => Some((count, end as int)),
            None => None,
        },
        r matches Some((_, end)) ==> from < end <= line@.len(),
{
    match read_number(line, from) {
        None => None,
        Some((_, end)) => {
            if end < line.len() && line[end] == COMMA {
                read_number(line, end + 1)
            } else {
                Some((1, end))
            }
        },
    }
}

/// Reads a hunk header: see [`hunk_header`].
pub fn read_hunk_header(line: &Vec<u8>) -> (r: Option<(u64, u64)>)
    ensures
        r == hunk_header(line@),
{
    if !(line.len() >= 4 && line[0] == AT && line[1] == AT && line[2] == SPACE && line[3]
        == MINUS) {
        return None;
    }
    let (old_count, p) = match read_range(line, 4) {
        None => {
            return None;
        },
        Some(range) => range,
    };
    if !(p < line.len() - 1 && line[p] == SPACE && line[p + 1] == PLUS) {
        return None;
    }
    let (new_count, q) = match read_range(line, p + 2) {
        None => {
            return None;
        },
        Some(range) => range,
    };
    if q < line.len() - 2 && line[q] == SPACE && line[q + 1] == AT && line[q + 2] == AT {
        Some((old_count, new_count))
    } else {
        None
    }
}

/// One step of the scanner on a line: see [`scan_step`].
pub fn step(state: ScanState, line: &Vec<u8>) -> (r: Option<(ScanState, Option<LineKind>)>)
    ensures
        r == scan_step(state, line@),
{
    let old_header = line.len() >= 4 && line[0] == MINUS && line[1] == MINUS && line[2] == MINUS
        && line[3] == SPACE;
    let new_header = line.len() >= 4 && line[0] == PLUS && line[1] == PLUS && line[2] == PLUS
        && line[3] == SPACE;
    let hunk_mark = line.len() >= 2 && line[0] == AT && line[1] == AT;
    match state {
        ScanState::Preamble => if old_header {
            Some((ScanState::OldHeader, None))
        } else if hunk_mark {
            None
        } else {
            Some((ScanState::Preamble, None))
        },
        ScanState::OldHeader => if new_header {
            Some((ScanState::Headers, None))
        } else {
            None
        },
        ScanState::Headers => match read_hunk_header(line) {
            Some((old_left, new_left)) => Some((ScanState::Hunk { old_left, new_left }, None)),
            None => None,
        },
        ScanState::Hunk { old_left, new_left } => if old_left == 0 && new_left == 0 {
            if line.len() > 0 && line[0] == BACKSLASH {
                Some((state, None))
            } else if hunk_mark {
                match read_hunk_header(line) {
                    Some((old_left, new_left)) => Some(
                        (ScanState::Hunk { old_left, new_left }, None),
                    ),
                    None => None,
                }
            } else if old_header {
                Some((ScanState::OldHeader, None))
            } else {
                Some((ScanState::Preamble, None))
            }
        } else if line.len() == 0 {
            None
        } else if line[0] == PLUS && new_left > 0 {
            Some((ScanState::Hunk { old_left, new_left: new_left - 1 }, Some(LineKind::Added)))
        } else if line[0] == MINUS && old_left > 0 {
            Some((ScanState::Hunk { old_left: old_left - 1, new_left }, Some(LineKind::Removed)))
        } else if line[0] == SPACE && old_left > 0 && new_left > 0 {
            Some(
                (
                    ScanState::Hunk { old_left: old_left - 1, new_left: new_left - 1 },
                    Some(LineKind::Context),
                ),
            )
        } else if line[0] == BACKSLASH {
            Some((state, None))
        } else {
            None
        },
    }
}

/// What [`tokenize`] returns for a text: its hunk lines, or the line
/// that is at fault (`None` where the text ends too early).
pub open spec fn tokenize_spec(bytes: Seq<u8>) -> Result<Seq<(LineKind, Seq<u8>)>, Option<Seq<u8>>> {
    match parse_diff(bytes) {
        Ok(found) => Ok(found),
        Err(DiffFault::UnexpectedLine(line)) => Err(Some(line)),
        Err(DiffFault::UnexpectedEnd) => Err(None),
    }
}

/// The mathematical content of what [`tokenize`] returns.
pub open spec fn tokenize_view(r: Result<Vec<DiffLine>, Option<Vec<u8>>>) -> Result<
    Seq<(LineKind, Seq<u8>)>,
    Option<Seq<u8>>,
> {
    match r {
        Ok(found) => Ok(diff_lines_view(found@)),
        Err(Some(line)) => Err(Some(line@)),
        Err(None) => Err(None),
    }
}

/// Reads a unified diff: its hunk lines in order, or the line at fault.
pub fn tokenize(bytes: &[u8]) -> (r: Result<Vec<DiffLine>, Option<Vec<u8>>>)
    ensures
        tokenize_view(r) == tokenize_spec(bytes@),
{
    let mut lines = split_lines(bytes);
    let ghost all = lines_view(lines@);
    let mut found: Vec<DiffLine> = Vec::new();
    let mut state = ScanState::Preamble;
    let mut i: usize = 0;
    assert(all.subrange(0, 0) =~= Seq::empty());
    assert(diff_lines_view(found@) =~= Seq::empty());
    while i < lines.len()
        invariant
            i <= lines.len(),
            all == lines_view(lines@),
            all == split_lines_spec(bytes@),
            scan_lines(all.subrange(0, i as int)) == Ok::<_, DiffFault>(
                (state, diff_lines_view(found@)),
            ),
        decreases lines.len() - i,
    {
        let ghost seen = all.subrange(0, i + 1);
        assert(seen.drop_last() =~= all.subrange(0, i as int));
        assert(seen.last() == lines@[i as int]@);
        let line = &lines[i];
        match step(state, line) {
            None => {
                proof {
                    lemma_fault_stays(all, i + 1);
                }
                return Err(Some(line.clone()));
            },
            Some((next, None)) => {
                state = next;
            },
            Some((next, Some(kind))) => {
                let ghost old_found = diff_lines_view(found@);
                let content = slice_to_vec(slice_subrange(line.as_slice(), 1, line.len()));
                found.push(DiffLine { kind, content });
                assert(diff_lines_view(found@) =~= old_found.push(
                    (kind, line@.subrange(1, line@.len() as int)),
                ));
                state = next;
            },
        }
        i = i + 1;
    }
    assert(all.subrange(0, i as int) =~= all);
    let complete = match state {
        ScanState::Preamble => true,
        ScanState::Hunk { old_left, new_left } => old_left == 0 && new_left == 0,
        _ => false,
    };
    if complete {
        Ok(found)
    } else {
        Err(None)
    }
}

/// A fault among the first lines is the fault of the whole text.
pub proof fn lemma_fault_stays(lines: Seq<Seq<u8>>, n: int)
    requires
        0 <= n <= lines.len(),
        scan_lines(lines.subrange(0, n)) is Err,
    ensures
        scan_lines(lines) == scan_lines(lines.subrange(0, n)),
    decreases lines.len() - n,
{
    if n == lines.len() {
        assert(lines.subrange(0, n) =~= lines);
    } else {
        let longer = lines.subrange(0, n + 1);
        assert(longer.drop_last() =~= lines.subrange(0, n));
        lemma_fault_stays(lines, n + 1);
    }
}

} // verus!
