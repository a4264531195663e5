//! Cutting a text into lines, on bytes.

use vstd::prelude::*;
use vstd::slice::{slice_subrange, slice_to_vec};

verus! {

/// Line feed.
pub const LINE_FEED: u8 = 10;

/// Carriage return.
pub const CARRIAGE_RETURN: u8 = 13;

/// The complete lines of a text and the line that is still open at its end.
pub open spec fn scan_bytes(bytes: Seq<u8>) -> (Seq<Seq<u8>>, Seq<u8>)
    decreases bytes.len(),
{
    if bytes.len() == 0 {
        (Seq::empty(), Seq::empty())
    } else {
        let (done, open) = scan_bytes(bytes.drop_last());
        if bytes.last() == LINE_FEED {
            (done.push(open), Seq::empty())
        } else {
            (done, open.push(bytes.last()))
        }
    }
}

/// The lines of a text: the byte runs between line feeds. A last line
/// without a line feed counts where it is not empty.
pub open spec fn split_lines_spec(bytes: Seq<u8>) -> Seq<Seq<u8>> {
    let (done, open) = scan_bytes(bytes);
    if open.len() > 0 {
        done.push(open)
    } else {
        done
    }
}

/// No line holds a line feed, and a text without line feed is its own
/// only line.
pub proof fn lemma_lines_hold_no_line_feed(bytes: Seq<u8>)
    ensures
        forall|i: int, j: int|
            0 <= i < split_lines_spec(bytes).len() && 0 <= j < split_lines_spec(bytes)[i].len()
                ==> #[trigger] split_lines_spec(bytes)[i][j] != LINE_FEED,
        forall|j: int| 0 <= j < scan_bytes(bytes).1.len() ==> scan_bytes(bytes).1[j] != LINE_FEED,
        (forall|k: int| 0 <= k < bytes.len() ==> bytes[k] != LINE_FEED) ==> scan_bytes(bytes)
            == (Seq::<Seq<u8>>::empty(), bytes),
    decreases bytes.len(),
{
    if bytes.len() > 0 {
        let front = bytes.drop_last();
        lemma_lines_hold_no_line_feed(front);
        let (done, open) = scan_bytes(front);
        assert forall|i: int, j: int|
            0 <= i < split_lines_spec(bytes).len() && 0 <= j < split_lines_spec(
                bytes,
            )[i].len() implies #[trigger] split_lines_spec(bytes)[i][j] != LINE_FEED by {
            if i < done.len() {
                assert(split_lines_spec(bytes)[i] == done[i]);
                assert(split_lines_spec(front)[i] == done[i]);
            }
        }
        if forall|k: int| 0 <= k < bytes.len() ==> bytes[k] != LINE_FEED {
            assert forall|k: int| 0 <= k < front.len() implies front[k] != LINE_FEED by {
                assert(front[k] == bytes[k]);
            }
            assert(scan_bytes(bytes).1 =~= bytes);
        }
    }
}

/// The byte sequences of a list of byte vectors.
pub open spec fn lines_view(lines: Seq<Vec<u8>>) -> Seq<Seq<u8>> {
    lines.map_values(|line: Vec<u8>| line@)
}

/// Cuts a text into its lines.
pub fn split_lines(bytes: &[u8]) -> (lines: Vec<Vec<u8>>)
    ensures
        lines_view(lines@) == split_lines_spec(bytes@),
{
    let mut done: Vec<Vec<u8>> = Vec::new();
    let mut start: usize = 0;
    let mut i: usize = 0;
    assert(lines_view(done@) =~= Seq::empty());
    assert(bytes@.subrange(0, 0) =~= Seq::empty());
    while i < bytes.len()
        invariant
            start <= i <= bytes@.len(),
            scan_bytes(bytes@.subrange(0, i as int)) == (
                lines_view(done@),
                bytes@.subrange(start as int, i as int),
            ),
        decreases bytes.len() - i,
    {
        let ghost before = bytes@.subrange(0, i as int);
        let ghost now = bytes@.subrange(0, i + 1);
        assert(now.drop_last() =~= before);
        assert(now.last() == bytes@[i as int]);
        if bytes[i] == LINE_FEED {
            let ghost old_done = lines_view(done@);
            let line = slice_to_vec(slice_subrange(bytes, start, i));
            done.push(line);
            assert(lines_view(done@) =~= old_done.push(bytes@.subrange(start as int, i as int)));
            start = i + 1;
            assert(bytes@.subrange(start as int, i + 1) =~= Seq::empty());
        } else {
            assert(bytes@.subrange(start as int, i + 1) =~= bytes@.subrange(
                start as int,
                i as int,
            ).push(bytes@[i as int]));
        }
        i = i + 1;
    }
    assert(bytes@.subrange(0, i as int) =~= bytes@);
    if start < i {
        let ghost old_done = lines_view(done@);
        let line = slice_to_vec(slice_subrange(bytes, start, i));
        done.push(line);
        assert(lines_view(done@) =~= old_done.push(bytes@.subrange(start as int, i as int)));
    }
    done
}

/// The line without the carriage return at its end, if it has one.
pub open spec fn strip_return(line: Seq<u8>) -> Seq<u8> {
    if line.len() > 0 && line.last() == CARRIAGE_RETURN {
        line.drop_last()
    } else {
        line
    }
}

/// The lines of a text whose lines end in a line feed or in a carriage
/// return and a line feed: the lines of [`split_lines_spec`], each without
/// the carriage return before its line feed. A last line without a line
/// feed keeps its bytes.
pub open spec fn text_lines_spec(bytes: Seq<u8>) -> Seq<Seq<u8>> {
    let (done, open) = scan_bytes(bytes);
    let stripped = done.map_values(|line: Seq<u8>| strip_return(line));
    if open.len() > 0 {
        stripped.push(open)
    } else {
        stripped
    }
}

/// Cuts a text into its lines and takes the carriage return from the end
/// of each line that a line feed ended.
pub fn text_lines(bytes: &[u8]) -> (lines: Vec<Vec<u8>>)
    ensures
        lines_view(lines@) == text_lines_spec(bytes@),
{
    let mut lines = split_lines(bytes);
    let ghost split = lines_view(lines@);
    let ghost (done, open) = scan_bytes(bytes@);
    let open_last = bytes.len() > 0 && bytes[bytes.len() - 1] != LINE_FEED;
    assert(open_last == (open.len() > 0));
    assert(split.len() == lines@.len());
    assert(split == if open.len() > 0 {
        done.push(open)
    } else {
        done
    });
    assert forall|j: int| 0 <= j < lines@.len() implies (#[trigger] lines@[j])@ == split[j] by {}
    let closed: usize = if open_last {
        lines.len() - 1
    } else {
        lines.len()
    };
    assert(closed == done.len());
    let mut i: usize = 0;
    while i < closed
        invariant
            i <= closed <= lines.len(),
            closed == done.len(),
            lines@.len() == split.len(),
            split == split_lines_spec(bytes@),
            (done, open) == scan_bytes(bytes@),
            forall|j: int| 0 <= j < i ==> (#[trigger] lines@[j])@ == strip_return(done[j]),
            forall|j: int| i <= j < lines@.len() ==> (#[trigger] lines@[j])@ == split[j],
        decreases closed - i,
    {
        let n = lines[i].len();
        if n > 0 && lines[i][n - 1] == CARRIAGE_RETURN {
            let shorter = slice_to_vec(slice_subrange(lines[i].as_slice(), 0, n - 1));
            assert(shorter@ =~= strip_return(done[i as int]));
            lines.set(i, shorter);
        }
        i = i + 1;
    }
    assert(lines_view(lines@) =~= text_lines_spec(bytes@));
    lines
}

} // verus!
