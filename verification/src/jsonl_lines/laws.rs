//! What lines are, said of the bytes of a file.

use crate::jsonl_lines::{lemma_newline_at, line_starts, newline_at, number_on, raw_line, text_line};
use crate::text::{trimmed, u64_read};
use vstd::prelude::*;
use vstd::utf8::{decode_utf8, valid_utf8};

verus! {

/// A line goes on to the next line end, or to the end of the file, and holds no
/// line end itself.
pub proof fn law_line_goes_to_its_end(content: Seq<u8>, start: int)
    requires
        0 <= start <= content.len(),
    ensures
        raw_line(content, start).is_prefix_of(content.skip(start)),
        !raw_line(content, start).contains(10u8),
        start + raw_line(content, start).len() < content.len() ==> content[start + raw_line(
            content,
            start,
        ).len()] == 10u8,
{
    lemma_newline_at(content, start);
    let end = newline_at(content, start);
    let line = raw_line(content, start);
    assert(content.skip(start).take(line.len() as int) =~= line);
    assert forall|i: int| 0 <= i < line.len() implies line[i] != 10u8 by {
        assert(line[i] == content[start + i]);
    }
}

/// A line of text is the line without a carriage return that stands before its
/// end.
pub proof fn law_carriage_return_belongs_to_the_end(content: Seq<u8>, start: int)
    requires
        0 <= start <= content.len(),
    ensures
        ({
            let line = raw_line(content, start);
            let ended = start + line.len() < content.len();
            &&& ended && line.len() > 0 && line.last() == 13u8 ==> text_line(content, start)
                == line.drop_last()
            &&& !ended || line.len() == 0 || line.last() != 13u8 ==> text_line(content, start)
                == line
        }),
{
    lemma_newline_at(content, start);
    let line = raw_line(content, start);
    let end = newline_at(content, start);
    if line.len() > 0 {
        assert(line.last() == content[end - 1]);
        assert(line.drop_last() =~= content.subrange(start, end - 1));
    }
}

/// The first line starts where the file does, and each other line right behind the
/// end of the line before it; together they are the whole file.
pub proof fn law_lines_follow_each_other(content: Seq<u8>, from: int)
    requires
        0 <= from < content.len(),
    ensures
        ({
            let starts = line_starts(content, from);
            let end = from + raw_line(content, from).len();
            &&& starts.len() > 0 && starts[0] == from
            &&& end + 1 < content.len() ==> starts.len() > 1 && starts[1] == end + 1
            &&& end + 1 >= content.len() ==> starts.len() == 1
            &&& starts.skip(1) == line_starts(content, end + 1)
        }),
{
    lemma_newline_at(content, from);
    let end = newline_at(content, from);
    let starts = line_starts(content, from);
    assert(starts.skip(1) =~= line_starts(content, end + 1));
}

/// A line of the index gives the number that stands on it, and none where it is no
/// text or no number.
pub proof fn law_line_gives_its_number(line: Seq<u8>, n: nat)
    ensures
        !valid_utf8(line) ==> number_on(line) is None,
        valid_utf8(line) ==> (number_on(line) == Some(n as int) <==> u64_read(
            trimmed(decode_utf8(line)),
        ) == Some(n)),
{
}

} // verus!
