//! Files of lines: where their lines start, and how texts are written into
//! them so that each text comes back as a line of its own.

pub mod laws;

use crate::seqs::picked;
use crate::text::{decimal, law_decimal_reads_back, lemma_decimal_digits, trimmed, u64_read, white};
use vstd::prelude::*;
use vstd::utf8::{
    char_is_scalar, decode_utf8, encode_scalar, encode_utf8, encode_utf8_decode_utf8,
    encode_utf8_valid_utf8, last_continuation_byte, leading_byte_width_1, leading_byte_width_2,
    leading_byte_width_3, leading_byte_width_4, second_last_continuation_byte,
    third_last_continuation_byte, valid_utf8, valid_utf8_concat,
};

verus! {

/// The byte that ends a line.
pub const NEWLINE: u8 = 10;

/// The byte that may stand before the one that ends a line.
pub const RETURN: u8 = 13;

/// Where the first line end at `from` or later stands, and the length of the
/// content where there is none.
pub open spec fn newline_at(content: Seq<u8>, from: int) -> int
    decreases content.len() - from,
{
    if from < 0 || from >= content.len() {
        content.len() as int
    } else if content[from] == NEWLINE {
        from
    } else {
        newline_at(content, from + 1)
    }
}

/// Where the lines start that start at `from` or later.
pub open spec fn line_starts(content: Seq<u8>, from: int) -> Seq<int>
    decreases content.len() + 1 - from,
    when 0 <= from
    via line_starts_decreases
{
    if from >= content.len() {
        Seq::empty()
    } else {
        seq![from] + line_starts(content, newline_at(content, from) + 1)
    }
}

#[via_fn]
proof fn line_starts_decreases(content: Seq<u8>, from: int) {
    lemma_newline_at(content, from);
}

/// A line without its end.
pub open spec fn raw_line(content: Seq<u8>, start: int) -> Seq<u8> {
    content.subrange(start, newline_at(content, start))
}

/// A line without its end, of which a carriage return before it is part.
pub open spec fn text_line(content: Seq<u8>, start: int) -> Seq<u8> {
    let end = newline_at(content, start);
    if end < content.len() && end > start && content[end - 1] == RETURN {
        content.subrange(start, end - 1)
    } else {
        content.subrange(start, end)
    }
}

/// Whether content ends with the end of a line, or is empty.
pub open spec fn terminated(content: Seq<u8>) -> bool {
    content.len() == 0 || content.last() == NEWLINE
}

/// Texts written as lines.
pub open spec fn lines_bytes(texts: Seq<Seq<char>>) -> Seq<u8>
    decreases texts.len(),
{
    if texts.len() == 0 {
        Seq::empty()
    } else {
        lines_bytes(texts.drop_last()) + encode_utf8(texts.last()) + seq![NEWLINE]
    }
}

/// Whether a text holds no control character, so that it fits on one line.
pub open spec fn one_line(s: Seq<char>) -> bool {
    forall|i: int| 0 <= i < s.len() ==> (#[trigger] s[i]) as u32 >= 0x20
}

pub proof fn lemma_newline_at(content: Seq<u8>, from: int)
    requires
        0 <= from,
    ensures
        from <= content.len() ==> from <= newline_at(content, from) <= content.len(),
        from > content.len() ==> newline_at(content, from) == content.len(),
        from <= newline_at(content, from) < content.len() ==> content[newline_at(content, from)]
            == NEWLINE,
        forall|i: int|
            from <= i < newline_at(content, from) ==> (#[trigger] content[i]) != NEWLINE,
    decreases content.len() - from,
{
    if from < content.len() && content[from] != NEWLINE {
        lemma_newline_at(content, from + 1);
    }
}

/// The first line end is where no line end stands before.
proof fn lemma_newline_is(content: Seq<u8>, from: int, at: int)
    requires
        0 <= from <= at <= content.len(),
        at < content.len() ==> content[at] == NEWLINE,
        forall|i: int| from <= i < at ==> (#[trigger] content[i]) != NEWLINE,
    ensures
        newline_at(content, from) == at,
    decreases at - from,
{
    if from < at {
        lemma_newline_is(content, from + 1, at);
    }
}

/// Every line starts within the content.
pub proof fn lemma_starts_inside(content: Seq<u8>, from: int)
    requires
        0 <= from,
    ensures
        forall|i: int|
            0 <= i < line_starts(content, from).len() ==> from <= (#[trigger] line_starts(
                content,
                from,
            )[i]) < content.len(),
        line_starts(content, from).len() <= content.len(),
        line_starts(content, from).len() + from <= content.len() || from > content.len(),
    decreases content.len() + 1 - from,
{
    if from < content.len() {
        lemma_newline_at(content, from);
        let next = newline_at(content, from) + 1;
        lemma_starts_inside(content, next);
        let tail = line_starts(content, next);
        assert forall|i: int| 0 <= i < line_starts(content, from).len() implies from <= (
        #[trigger] line_starts(content, from)[i]) < content.len() by {
            if i > 0 {
                assert(line_starts(content, from)[i] == tail[i - 1]);
            }
        }
    }
}

/// Content after terminated content does not move a line end in it.
proof fn lemma_newline_kept(content: Seq<u8>, more: Seq<u8>, from: int)
    requires
        terminated(content),
        0 <= from < content.len(),
    ensures
        newline_at(content + more, from) == newline_at(content, from),
        newline_at(content, from) < content.len(),
        raw_line(content + more, from) == raw_line(content, from),
        text_line(content + more, from) == text_line(content, from),
{
    lemma_newline_at(content, from);
    let at = newline_at(content, from);
    if at == content.len() {
        assert(content[content.len() - 1] != NEWLINE);
    }
    assert forall|i: int| from <= i < at implies (#[trigger] (content + more)[i]) != NEWLINE by {
        assert((content + more)[i] == content[i]);
    }
    lemma_newline_is(content + more, from, at);
    assert((content + more).subrange(from, at) =~= content.subrange(from, at));
    if at > from {
        assert((content + more).subrange(from, at - 1) =~= content.subrange(from, at - 1));
    }
}

/// The lines of content after terminated content are its own lines and those
/// that follow.
proof fn lemma_starts_split(content: Seq<u8>, more: Seq<u8>, from: int)
    requires
        terminated(content),
        0 <= from <= content.len(),
    ensures
        line_starts(content + more, from) == line_starts(content, from) + line_starts(
            content + more,
            content.len() as int,
        ),
    decreases content.len() - from,
{
    if from < content.len() {
        lemma_newline_kept(content, more, from);
        lemma_newline_at(content, from);
        let next = newline_at(content, from) + 1;
        lemma_starts_split(content, more, next);
        assert(line_starts(content + more, from) =~= line_starts(content, from) + line_starts(
            content + more,
            content.len() as int,
        ));
    } else {
        assert(line_starts(content, from) =~= Seq::empty());
        assert(line_starts(content + more, from) =~= line_starts(content, from) + line_starts(
            content + more,
            content.len() as int,
        ));
    }
}

/// One more line after terminated content: its lines stay, and the new one
/// starts where the content ended.
pub proof fn lemma_line_added(content: Seq<u8>, line: Seq<u8>)
    requires
        terminated(content),
        forall|i: int| 0 <= i < line.len() ==> (#[trigger] line[i]) >= 0x20,
    ensures
        ({
            let grown = content + line + seq![NEWLINE];
            &&& terminated(grown)
            &&& line_starts(grown, 0) == line_starts(content, 0).push(content.len() as int)
            &&& raw_line(grown, content.len() as int) == line
            &&& text_line(grown, content.len() as int) == line
            &&& forall|i: int|
                0 <= i < line_starts(content, 0).len() ==> {
                    let s = #[trigger] line_starts(content, 0)[i];
                    raw_line(grown, s) == raw_line(content, s) && text_line(grown, s) == text_line(
                        content,
                        s,
                    )
                }
        }),
{
    let more = line + seq![NEWLINE];
    let grown = content + line + seq![NEWLINE];
    assert(grown =~= content + more);
    let start = content.len() as int;
    let end = start + line.len();
    assert(grown[end] == NEWLINE);
    assert forall|i: int| start <= i < end implies (#[trigger] grown[i]) != NEWLINE by {
        assert(grown[i] == line[i - start]);
    }
    lemma_newline_is(grown, start, end);
    assert(grown.subrange(start, end) =~= line);
    if line.len() > 0 {
        assert(grown[end - 1] == line[line.len() - 1]);
    }
    assert(line_starts(grown, end + 1) =~= Seq::empty());
    assert(line_starts(grown, start) =~= seq![start]);
    lemma_starts_split(content, more, 0);
    assert(line_starts(grown, 0) =~= line_starts(content, 0).push(start));
    lemma_starts_inside(content, 0);
    assert forall|i: int| 0 <= i < line_starts(content, 0).len() implies ({
        let s = #[trigger] line_starts(content, 0)[i];
        raw_line(grown, s) == raw_line(content, s) && text_line(grown, s) == text_line(content, s)
    }) by {
        lemma_newline_kept(content, more, line_starts(content, 0)[i]);
    }
}

proof fn lemma_scalar_bytes(c: u32)
    requires
        0x20 <= c <= 0x10ffff,
    ensures
        leading_byte_width_1(c) == c || c >= 0x80,
        leading_byte_width_2(c) >= 0x80,
        leading_byte_width_3(c) >= 0x80,
        leading_byte_width_4(c) >= 0x80,
        last_continuation_byte(c) >= 0x80,
        second_last_continuation_byte(c) >= 0x80,
        third_last_continuation_byte(c) >= 0x80,
{
    assert((c & 0x7F) as u8 == c || c >= 0x80) by (bit_vector);
    assert(0xC0 | ((c >> 6) & 0x1F) as u8 >= 0x80) by (bit_vector);
    assert(0xE0 | ((c >> 12) & 0x0F) as u8 >= 0x80) by (bit_vector);
    assert(0xF0 | ((c >> 18) & 0x7) as u8 >= 0x80) by (bit_vector);
    assert(0x80 | (c & 0x3F) as u8 >= 0x80) by (bit_vector);
    assert(0x80 | ((c >> 6) & 0x3F) as u8 >= 0x80) by (bit_vector);
    assert(0x80 | ((c >> 12) & 0x3F) as u8 >= 0x80) by (bit_vector);
}

/// A text without control characters has no byte below the first printable
/// one.
pub proof fn lemma_one_line_bytes(s: Seq<char>)
    requires
        one_line(s),
    ensures
        forall|i: int| 0 <= i < encode_utf8(s).len() ==> (#[trigger] encode_utf8(s)[i]) >= 0x20,
    decreases s.len(),
{
    if s.len() > 0 {
        let c = s[0] as u32;
        char_is_scalar(s[0]);
        lemma_scalar_bytes(c);
        let head = encode_scalar(c);
        assert forall|i: int| 0 <= i < head.len() implies (#[trigger] head[i]) >= 0x20 by {}
        assert forall|i: int| 0 <= i < s.drop_first().len() implies (#[trigger] s.drop_first()[i])
            as u32 >= 0x20 by {
            assert(s.drop_first()[i] == s[i + 1]);
        }
        lemma_one_line_bytes(s.drop_first());
        let rest = encode_utf8(s.drop_first());
        assert(encode_utf8(s) == head + rest);
        assert forall|i: int| 0 <= i < encode_utf8(s).len() implies (#[trigger] encode_utf8(s)[i])
            >= 0x20 by {
            if i < head.len() {
                assert(encode_utf8(s)[i] == head[i]);
            } else {
                assert(encode_utf8(s)[i] == rest[i - head.len()]);
            }
        }
    }
}

/// Texts that were written as lines are the lines of what was written.
pub proof fn lemma_written_lines(texts: Seq<Seq<char>>)
    requires
        forall|i: int| 0 <= i < texts.len() ==> one_line(#[trigger] texts[i]),
    ensures
        terminated(lines_bytes(texts)),
        valid_utf8(lines_bytes(texts)),
        line_starts(lines_bytes(texts), 0).len() == texts.len(),
        forall|i: int|
            0 <= i < texts.len() ==> raw_line(
                lines_bytes(texts),
                #[trigger] line_starts(lines_bytes(texts), 0)[i],
            ) == encode_utf8(texts[i]),
        forall|i: int|
            0 <= i < texts.len() ==> text_line(
                lines_bytes(texts),
                #[trigger] line_starts(lines_bytes(texts), 0)[i],
            ) == encode_utf8(texts[i]),
    decreases texts.len(),
{
    if texts.len() == 0 {
        assert(line_starts(lines_bytes(texts), 0) =~= Seq::empty());
    } else {
        let before = texts.drop_last();
        assert forall|i: int| 0 <= i < before.len() implies one_line(#[trigger] before[i]) by {
            assert(before[i] == texts[i]);
        }
        lemma_written_lines(before);
        let content = lines_bytes(before);
        let line = encode_utf8(texts.last());
        assert(one_line(texts[texts.len() - 1]));
        lemma_one_line_bytes(texts.last());
        lemma_line_added(content, line);
        let grown = lines_bytes(texts);
        encode_utf8_valid_utf8(texts.last());
        assert(valid_utf8(seq![NEWLINE])) by {
            let nl = seq!['\n'];
            encode_utf8_valid_utf8(nl);
            vstd::utf8::is_ascii_chars_encode_utf8(nl);
            assert(encode_utf8(nl) =~= seq![NEWLINE]);
        }
        valid_utf8_concat(content, line);
        valid_utf8_concat(content + line, seq![NEWLINE]);
        let starts = line_starts(grown, 0);
        assert forall|i: int| 0 <= i < texts.len() implies raw_line(grown, #[trigger] starts[i])
            == encode_utf8(texts[i]) by {
            if i < before.len() {
                assert(starts[i] == line_starts(content, 0)[i]);
                assert(before[i] == texts[i]);
            }
        }
        assert forall|i: int| 0 <= i < texts.len() implies text_line(grown, #[trigger] starts[i])
            == encode_utf8(texts[i]) by {
            if i < before.len() {
                assert(starts[i] == line_starts(content, 0)[i]);
                assert(before[i] == texts[i]);
            }
        }
    }
}

/// Where the first line end at `from` or later stands.
pub fn find_newline(content: &[u8], from: usize) -> (r: usize)
    requires
        from <= content@.len(),
    ensures
        r == newline_at(content@, from as int),
        from <= r <= content@.len(),
{
    let mut i: usize = from;
    while i < content.len() && content[i] != NEWLINE
        invariant
            from <= i <= content@.len(),
            newline_at(content@, from as int) == newline_at(content@, i as int),
        decreases content@.len() - i,
    {
        i += 1;
    }
    i
}

/// A part of a file's content.
pub fn part(content: &[u8], from: usize, to: usize) -> (r: Vec<u8>)
    requires
        from <= to <= content@.len(),
    ensures
        r@ == content@.subrange(from as int, to as int),
{
    let mut out: Vec<u8> = Vec::new();
    let mut i: usize = from;
    while i < to
        invariant
            from <= i <= to <= content@.len(),
            out@ == content@.subrange(from as int, i as int),
        decreases to - i,
    {
        out.push(content[i]);
        assert(out@ =~= content@.subrange(from as int, i + 1));
        i += 1;
    }
    out
}

/// A line without its end, of which a carriage return before it is part.
pub fn read_text_line(content: &[u8], start: usize) -> (r: Vec<u8>)
    requires
        start <= content@.len(),
    ensures
        r@ == text_line(content@, start as int),
{
    let end: usize = find_newline(content, start);
    if end < content.len() && end > start && content[end - 1] == RETURN {
        part(content, start, end - 1)
    } else {
        part(content, start, end)
    }
}

/// Adds a text as a line at the end of a file.
pub fn push_line(content: &mut Vec<u8>, text: &str)
    ensures
        final(content)@ == old(content)@ + encode_utf8(text@) + seq![NEWLINE],
{
    let bytes: &[u8] = text.as_bytes();
    let mut i: usize = 0;
    let ghost before = content@;
    assert(before + bytes@.subrange(0, 0) =~= before);
    while i < bytes.len()
        invariant
            i <= bytes@.len(),
            bytes@ == encode_utf8(text@),
            content@ == before + bytes@.subrange(0, i as int),
        decreases bytes@.len() - i,
    {
        content.push(bytes[i]);
        assert(content@ =~= before + bytes@.subrange(0, i + 1));
        i += 1;
    }
    assert(bytes@.subrange(0, bytes@.len() as int) =~= bytes@);
    content.push(NEWLINE);
    assert(content@ =~= before + encode_utf8(text@) + seq![NEWLINE]);
}

/// The numbers of an index, as texts.
pub open spec fn index_texts(offsets: Seq<int>) -> Seq<Seq<char>> {
    offsets.map_values(|o: int| decimal(o as nat))
}

/// An index file that lists the given offsets, one on each line.
pub open spec fn index_bytes(offsets: Seq<int>) -> Seq<u8> {
    lines_bytes(index_texts(offsets))
}

/// The number that stands on a line.
pub open spec fn number_on(line: Seq<u8>) -> Option<int> {
    if valid_utf8(line) {
        match u64_read(trimmed(decode_utf8(line))) {
            Some(n) => Some(n as int),
            None => None,
        }
    } else {
        None
    }
}

/// The numbers that stand on the lines of a file; a line without one is passed
/// over.
pub open spec fn index_read(content: Seq<u8>) -> Seq<int> {
    picked(line_starts(content, 0), |s: int| number_on(text_line(content, s)))
}

proof fn lemma_trimmed_same(s: Seq<char>)
    requires
        s.len() > 0,
        !white(s[0]),
        !white(s.last()),
    ensures
        trimmed(s) == s,
{
}

/// The offsets of an index are read again from it.
pub proof fn law_index_round_trip(offsets: Seq<int>)
    requires
        forall|i: int| 0 <= i < offsets.len() ==> 0 <= (#[trigger] offsets[i]) <= u64::MAX,
    ensures
        index_read(index_bytes(offsets)) == offsets,
        valid_utf8(index_bytes(offsets)),
        terminated(index_bytes(offsets)),
{
    let texts = index_texts(offsets);
    assert forall|i: int| 0 <= i < texts.len() implies one_line(#[trigger] texts[i]) by {
        lemma_decimal_digits(offsets[i] as nat);
        assert(texts[i] == decimal(offsets[i] as nat));
        assert forall|k: int| 0 <= k < texts[i].len() implies (#[trigger] texts[i][k]) as u32
            >= 0x20 by {
            assert(crate::text::is_digit(decimal(offsets[i] as nat)[k]));
        }
    }
    lemma_written_lines(texts);
    let content = index_bytes(offsets);
    let starts = line_starts(content, 0);
    let f = |s: int| number_on(text_line(content, s));
    assert forall|i: int| 0 <= i < starts.len() implies f(#[trigger] starts[i]) == Some(
        offsets[i],
    ) by {
        let n = offsets[i] as nat;
        assert(texts[i] == decimal(n));
        assert(text_line(content, starts[i]) == encode_utf8(decimal(n)));
        encode_utf8_valid_utf8(decimal(n));
        encode_utf8_decode_utf8(decimal(n));
        lemma_decimal_digits(n);
        assert(crate::text::is_digit(decimal(n)[decimal(n).len() - 1]));
        lemma_trimmed_same(decimal(n));
        law_decimal_reads_back(n);
    }
    crate::seqs::lemma_picked_all(starts, f, offsets);
}

} // verus!
