//! Scanning Valve's key-value text files, line by line.
//!
//! This is not a parser of the whole format. A line is relevant to a key when
//! it holds the key between double quotes; the value of such a line is the
//! fourth piece of the line when it is cut at its double quotes, which is the
//! text between the third quote and the fourth. A relevant line with fewer
//! than three quotes has the empty value.

use vstd::prelude::*;
use crate::text::{
    append, contains, find_from, first_index, lemma_first_index, lemma_first_index_is, occurs_at,
    occurs_in, slice_of, texts,
};

verus! {

/// A line as it stands before its line feed: a carriage return at its end
/// belongs to the line break.
pub open spec fn without_return(line: Seq<char>) -> Seq<char> {
    if line.len() > 0 && line.last() == '\r' {
        line.drop_last()
    } else {
        line
    }
}

/// The lines of `text`. A line ends at a line feed, or at a carriage return
/// and a line feed; what follows the last line feed is a line unless it is
/// empty.
pub open spec fn lines(text: Seq<char>) -> Seq<Seq<char>>
    decreases text.len(),
{
    let n = first_index(text, '\n');
    if text.len() == 0 {
        Seq::empty()
    } else if 0 <= n < text.len() {
        seq![without_return(text.take(n))] + lines(text.skip(n + 1))
    } else {
        seq![text]
    }
}

/// Piece `n` of `line` cut at its double quotes, counted from 0; empty when
/// the line has fewer pieces.
pub open spec fn piece(line: Seq<char>, n: nat) -> Seq<char>
    decreases n,
{
    let q = first_index(line, '"');
    if n == 0 {
        line.take(q)
    } else if 0 <= q < line.len() {
        piece(line.skip(q + 1), (n - 1) as nat)
    } else {
        Seq::empty()
    }
}

/// The value that a relevant line carries.
pub open spec fn value_of(line: Seq<char>) -> Seq<char> {
    piece(line, 3)
}

/// `s` with every pair of backslashes replaced by one, pairs taken from the
/// left.
pub open spec fn collapse(s: Seq<char>) -> Seq<char>
    decreases s.len(),
{
    if s.len() == 0 {
        s
    } else if s.len() >= 2 && s[0] == '\\' && s[1] == '\\' {
        seq!['\\'] + collapse(s.skip(2))
    } else {
        seq![s[0]] + collapse(s.skip(1))
    }
}

/// `key` between double quotes.
pub open spec fn quoted(key: Seq<char>) -> Seq<char> {
    seq!['"'] + key + seq!['"']
}

/// Whether `line` is relevant to `key`.
pub open spec fn mentions(line: Seq<char>, key: Seq<char>) -> bool {
    occurs_in(line, quoted(key))
}

/// The values of the lines among `ls` that are relevant to `key`, in order.
pub open spec fn values_in(ls: Seq<Seq<char>>, key: Seq<char>) -> Seq<Seq<char>>
    decreases ls.len(),
{
    if ls.len() == 0 {
        Seq::empty()
    } else if mentions(ls[0], key) {
        seq![value_of(ls[0])] + values_in(ls.skip(1), key)
    } else {
        values_in(ls.skip(1), key)
    }
}

/// The values that `text` holds for `key`, in the order of the file.
pub open spec fn values(text: Seq<char>, key: Seq<char>) -> Seq<Seq<char>> {
    values_in(lines(text), key)
}

/// The lines of `text`.
pub fn split_lines(text: &Vec<char>) -> (out: Vec<Vec<char>>)
    ensures
        texts(out@) == lines(text@),
{
    let mut out: Vec<Vec<char>> = Vec::new();
    let mut pos: usize = 0;
    proof {
        assert(text@.skip(0) =~= text@);
        assert(texts(out@) + lines(text@) =~= lines(text@));
    }
    while pos < text.len()
        invariant
            pos <= text.len(),
            lines(text@) == texts(out@) + lines(text@.skip(pos as int)),
        decreases text.len() - pos,
    {
        let ghost rest = text@.skip(pos as int);
        let ghost done = texts(out@);
        let end = find_from(text, pos, '\n');
        proof {
            lemma_first_index(rest, '\n');
        }
        if end < text.len() {
            let stop = if end > pos && text[end - 1] == '\r' {
                end - 1
            } else {
                end
            };
            let line = slice_of(text, pos, stop);
            proof {
                let raw = rest.take(end - pos);
                assert(raw =~= text@.subrange(pos as int, end as int));
                assert(line@ =~= without_return(raw));
                assert(rest.skip(end - pos + 1) =~= text@.skip(end + 1));
            }
            out.push(line);
            proof {
                assert(texts(out@) =~= done + seq![line@]);
            }
            pos = end + 1;
        } else {
            let line = slice_of(text, pos, end);
            proof {
                assert(line@ =~= rest);
                assert(lines(text@.skip(end as int)) =~= Seq::<Seq<char>>::empty());
            }
            out.push(line);
            proof {
                assert(texts(out@) =~= done + seq![line@]);
            }
            pos = end;
        }
    }
    proof {
        assert(lines(text@.skip(pos as int)) =~= Seq::<Seq<char>>::empty());
    }
    out
}

/// Piece `n` of `line` cut at its double quotes.
pub fn piece_of(line: &Vec<char>, n: usize) -> (out: Vec<char>)
    ensures
        out@ == piece(line@, n as nat),
{
    let mut start: usize = 0;
    let mut k: usize = 0;
    proof {
        assert(line@.skip(0) =~= line@);
    }
    while k < n
        invariant
            start <= line.len(),
            k <= n,
            piece(line@, n as nat) == piece(line@.skip(start as int), (n - k) as nat),
        decreases n - k,
    {
        let ghost rest = line@.skip(start as int);
        let q = find_from(line, start, '"');
        proof {
            lemma_first_index(rest, '"');
        }
        if q >= line.len() {
            return Vec::new();
        }
        proof {
            assert(rest.skip(q - start + 1) =~= line@.skip(q + 1));
        }
        start = q + 1;
        k += 1;
    }
    let q = find_from(line, start, '"');
    proof {
        let rest = line@.skip(start as int);
        lemma_first_index(rest, '"');
        assert(rest.take(q - start) =~= line@.subrange(start as int, q as int));
    }
    slice_of(line, start, q)
}

/// `s` with every pair of backslashes replaced by one.
pub fn collapse_backslashes(s: &Vec<char>) -> (out: Vec<char>)
    ensures
        out@ == collapse(s@),
{
    let mut out: Vec<char> = Vec::new();
    let mut i: usize = 0;
    proof {
        assert(s@.skip(0) =~= s@);
        assert(out@ + collapse(s@) =~= collapse(s@));
    }
    while i < s.len()
        invariant
            i <= s.len(),
            collapse(s@) == out@ + collapse(s@.skip(i as int)),
        decreases s.len() - i,
    {
        let ghost rest = s@.skip(i as int);
        let ghost done = out@;
        if s[i] == '\\' && i + 1 < s.len() && s[i + 1] == '\\' {
            out.push('\\');
            proof {
                assert(rest.skip(2) =~= s@.skip(i + 2));
                assert(out@ + collapse(s@.skip(i + 2)) =~= done + (seq!['\\'] + collapse(
                    rest.skip(2),
                )));
            }
            i += 2;
        } else {
            out.push(s[i]);
            proof {
                assert(rest.skip(1) =~= s@.skip(i + 1));
                assert(out@ + collapse(s@.skip(i + 1)) =~= done + (seq![rest[0]] + collapse(
                    rest.skip(1),
                )));
            }
            i += 1;
        }
    }
    proof {
        assert(out@ + collapse(s@.skip(i as int)) =~= out@);
    }
    out
}

/// `key` between double quotes.
pub fn quote(key: &Vec<char>) -> (out: Vec<char>)
    ensures
        out@ == quoted(key@),
{
    let mut open: Vec<char> = Vec::new();
    open.push('"');
    let mut close: Vec<char> = Vec::new();
    close.push('"');
    let left = append(&open, key);
    let out = append(&left, &close);
    proof {
        assert(open@ =~= seq!['"']);
        assert(close@ =~= seq!['"']);
    }
    out
}

/// The values that `text` holds for `key`, in the order of the file.
pub fn scan(text: &Vec<char>, key: &Vec<char>) -> (out: Vec<Vec<char>>)
    ensures
        texts(out@) == values(text@, key@),
{
    let ls = split_lines(text);
    let marker = quote(key);
    let mut out: Vec<Vec<char>> = Vec::new();
    let mut i: usize = 0;
    proof {
        assert(texts(ls@).skip(0) =~= texts(ls@));
        assert(texts(out@) + values_in(texts(ls@), key@) =~= values_in(texts(ls@), key@));
    }
    while i < ls.len()
        invariant
            i <= ls.len(),
            marker@ == quoted(key@),
            values_in(texts(ls@), key@) == texts(out@) + values_in(
                texts(ls@).skip(i as int),
                key@,
            ),
        decreases ls.len() - i,
    {
        let ghost rest = texts(ls@).skip(i as int);
        let ghost done = texts(out@);
        proof {
            assert(rest.skip(1) =~= texts(ls@).skip(i + 1));
            assert(rest[0] == ls[i as int]@);
        }
        if contains(&ls[i], &marker) {
            let value = piece_of(&ls[i], 3);
            out.push(value);
            proof {
                assert(texts(out@) =~= done + seq![value_of(rest[0])]);
            }
        }
        i += 1;
    }
    proof {
        assert(values_in(texts(ls@).skip(i as int), key@) =~= Seq::<Seq<char>>::empty());
    }
    out
}

/// Whether `s` holds no `c`.
pub open spec fn free_of(s: Seq<char>, c: char) -> bool {
    forall|i: int| 0 <= i < s.len() ==> s[i] != c
}

/// A line that carries `raw` as the value of `key`: the key between quotes,
/// then the value between quotes, with `indent` before, `gap` between and
/// `tail` behind them.
pub open spec fn entry_line(
    indent: Seq<char>,
    key: Seq<char>,
    gap: Seq<char>,
    raw: Seq<char>,
    tail: Seq<char>,
) -> Seq<char> {
    indent + quoted(key) + gap + quoted(raw) + tail
}

/// Cutting at the quotes: a stretch without quotes, followed by a quote, is
/// piece 0, and the pieces behind it are those of what follows the quote.
pub proof fn lemma_piece_behind_quote(a: Seq<char>, rest: Seq<char>, n: nat)
    requires
        free_of(a, '"'),
    ensures
        piece(a + seq!['"'] + rest, 0) == a,
        piece(a + seq!['"'] + rest, n + 1) == piece(rest, n),
{
    let line = a + seq!['"'] + rest;
    assert(line[a.len() as int] == '"');
    assert forall|j: int| 0 <= j < a.len() implies line[j] != '"' by {
        assert(line[j] == a[j]);
    }
    lemma_first_index_is(line, '"', a.len() as int);
    assert(line.take(a.len() as int) =~= a);
    assert(line.skip(a.len() as int + 1) =~= rest);
}

/// The first line of a text ends at its first line feed.
pub proof fn lemma_first_line(first: Seq<char>, rest: Seq<char>)
    requires
        free_of(first, '\n'),
    ensures
        lines(first + seq!['\n'] + rest) == seq![without_return(first)] + lines(rest),
{
    let text = first + seq!['\n'] + rest;
    assert(text[first.len() as int] == '\n');
    assert forall|j: int| 0 <= j < first.len() implies text[j] != '\n' by {
        assert(text[j] == first[j]);
    }
    lemma_first_index_is(text, '\n', first.len() as int);
    assert(text.take(first.len() as int) =~= first);
    assert(text.skip(first.len() as int + 1) =~= rest);
}

/// A text without a line feed is one line, or none when it is empty.
pub proof fn lemma_only_line(line: Seq<char>)
    requires
        free_of(line, '\n'),
    ensures
        lines(line) == if line.len() == 0 {
            Seq::<Seq<char>>::empty()
        } else {
            seq![line]
        },
{
    lemma_first_index_is(line, '\n', line.len() as int);
}

/// A line that carries `raw` as the value of `key` is relevant to `key`, and
/// its value is `raw`, the quotes around it removed.
pub proof fn law_entry_line_carries_its_value(
    indent: Seq<char>,
    key: Seq<char>,
    gap: Seq<char>,
    raw: Seq<char>,
    tail: Seq<char>,
)
    requires
        free_of(indent, '"'),
        free_of(key, '"'),
        free_of(gap, '"'),
        free_of(raw, '"'),
    ensures
        mentions(entry_line(indent, key, gap, raw, tail), key),
        value_of(entry_line(indent, key, gap, raw, tail)) == raw,
{
    let line = entry_line(indent, key, gap, raw, tail);
    let q = seq!['"'];
    let r3 = raw + q + tail;
    let r2 = gap + q + r3;
    let r1 = key + q + r2;
    assert(line =~= indent + q + r1);
    lemma_piece_behind_quote(indent, r1, 2);
    lemma_piece_behind_quote(key, r2, 1);
    lemma_piece_behind_quote(gap, r3, 0);
    lemma_piece_behind_quote(raw, tail, 0);
    assert(line.subrange(indent.len() as int, indent.len() as int + quoted(key).len()) =~= quoted(
        key,
    ));
    assert(occurs_at(line, quoted(key), indent.len() as int));
}

/// A line that carries a value between quotes is still such a line, with
/// the same key and the same value, when the carriage return at its end is
/// taken off.
pub proof fn lemma_return_is_immaterial(
    indent: Seq<char>,
    key: Seq<char>,
    gap: Seq<char>,
    raw: Seq<char>,
    tail: Seq<char>,
)
    ensures
        exists|short: Seq<char>| #[trigger]
            entry_line(indent, key, gap, raw, short) == without_return(
                entry_line(indent, key, gap, raw, tail),
            ),
{
    let line = entry_line(indent, key, gap, raw, tail);
    if tail.len() > 0 && tail.last() == '\r' {
        assert(entry_line(indent, key, gap, raw, tail.drop_last()) =~= without_return(line));
    } else {
        if tail.len() == 0 {
            assert(line.last() == '"');
        } else {
            assert(line.last() == tail.last());
        }
        assert(entry_line(indent, key, gap, raw, tail) == without_return(line));
    }
}

/// A line that is not relevant to a key does not become so when the
/// carriage return at its end is taken off.
pub proof fn lemma_return_adds_no_mention(line: Seq<char>, key: Seq<char>)
    requires
        !mentions(line, key),
    ensures
        !mentions(without_return(line), key),
{
    let short = without_return(line);
    if mentions(short, key) {
        let i = choose|i: int| occurs_at(short, quoted(key), i);
        assert(line.subrange(i, i + quoted(key).len()) =~= short.subrange(
            i,
            i + quoted(key).len(),
        ));
        assert(occurs_at(line, quoted(key), i));
    }
}

} // verus!
