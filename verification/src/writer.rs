//! Passing a log on line by line.

use std::collections::VecDeque;

use vstd::prelude::*;
use vstd::string::*;
use vstd::utf8::*;

verus! {

/// The byte that ends a line.
pub const NEWLINE: u8 = 10;

/// Where the first line in some bytes ends: just behind the first newline.
pub open spec fn line_end(bytes: Seq<u8>) -> Option<int> {
    match bytes.index_of_first(NEWLINE) {
        Some(i) => Some(i + 1),
        None => None,
    }
}

/// The bytes as text.
pub open spec fn text_or_bytes(bytes: Seq<u8>, line: Result<String, Vec<u8>>) -> bool {
    match line {
        Ok(text) => encode_utf8(text@) == bytes,
        Err(rest) => rest@ == bytes && !valid_utf8(bytes),
    }
}

/// Calls `std::str::from_utf8`: the text whose encoding the bytes are, or nothing where they are
/// not the encoding of any.
#[verifier::external_body]
fn decode(bytes: &Vec<u8>) -> (text: Option<String>)
    ensures
        match text {
            Some(text) => encode_utf8(text@) == bytes@,
            None => !valid_utf8(bytes@),
        },
{
    std::str::from_utf8(bytes).ok().map(String::from)
}

/// Bytes that were written but are not passed on yet, because their line has not ended or has not
/// been asked for.
#[derive(Debug)]
pub struct LineBuffer {
    buf: VecDeque<u8>,
}

impl View for LineBuffer {
    type V = Seq<u8>;

    closed spec fn view(&self) -> Seq<u8> {
        self.buf@
    }
}

impl LineBuffer {
    /// A buffer that holds nothing.
    pub fn new() -> (buffer: LineBuffer)
        ensures
            buffer@ == Seq::<u8>::empty(),
    {
        LineBuffer { buf: VecDeque::new() }
    }

    /// Writes some bytes, all of them.
    pub fn write(&mut self, bytes: &[u8]) -> (written: usize)
        ensures
            final(self)@ == old(self)@ + bytes@,
            written == bytes@.len(),
    {
        let mut i: usize = 0;
        while i < bytes.len()
            invariant
                i <= bytes.len(),
                self.buf@ == old(self).buf@ + bytes@.take(i as int),
            decreases bytes.len() - i,
        {
            self.buf.push_back(bytes[i]);
            i += 1;
            assert(self.buf@ =~= old(self).buf@ + bytes@.take(i as int));
        }
        assert(bytes@.take(i as int) =~= bytes@);
        bytes.len()
    }

    /// Takes the first line that has ended out of the buffer, its newline included. A line that is
    /// no text comes out as it is.
    pub fn next_line(&mut self) -> (line: Option<Result<String, Vec<u8>>>)
        ensures
            match (line_end(old(self)@), line) {
                (Some(end), Some(line)) => {
                    &&& text_or_bytes(old(self)@.take(end), line)
                    &&& final(self)@ == old(self)@.skip(end)
                    &&& lines(old(self)@) == seq![old(self)@.take(end)] + lines(final(self)@)
                    &&& unfinished(old(self)@) == unfinished(final(self)@)
                },
                (None, None) => {
                    &&& final(self)@ == old(self)@
                    &&& lines(old(self)@) == Seq::<Seq<u8>>::empty()
                    &&& unfinished(old(self)@) == old(self)@
                },
                _ => false,
            },
    {
        let n: usize = self.buf.len();
        let ghost all = self.buf@;
        let mut end: usize = 0;
        while end < n && self.buf[end] != NEWLINE
            invariant
                end <= n,
                n == self.buf@.len(),
                all == self.buf@,
                forall|j: int| 0 <= j < end ==> all[j] != NEWLINE,
            decreases n - end,
        {
            end += 1;
        }
        proof {
            all.index_of_first_ensures(NEWLINE);
        }
        if end == n {
            return None;
        }
        assert(all.contains(NEWLINE)) by {
            assert(all[end as int] == NEWLINE);
        }
        let mut line: Vec<u8> = Vec::new();
        while line.len() <= end
            invariant
                line.len() <= end + 1,
                end < all.len(),
                line@ == all.take(line@.len() as int),
                self.buf@ == all.skip(line@.len() as int),
            decreases end + 1 - line.len(),
        {
            let ghost n = line@.len() as int;
            match self.buf.pop_front() {
                Some(byte) => line.push(byte),
                None => {},
            }
            assert(line@ =~= all.take(n + 1));
            assert(self.buf@ =~= all.skip(n + 1));
        }
        match decode(&line) {
            Some(text) => Some(Ok(text)),
            None => Some(Err(line)),
        }
    }
}

/// The lines that have ended in some bytes, newlines included.
pub open spec fn lines(bytes: Seq<u8>) -> Seq<Seq<u8>>
    decreases bytes.len(),
    via lines_decreases
{
    match line_end(bytes) {
        Some(end) => seq![bytes.take(end)] + lines(bytes.skip(end)),
        None => Seq::empty(),
    }
}

#[via_fn]
proof fn lines_decreases(bytes: Seq<u8>) {
    bytes.index_of_first_ensures(NEWLINE);
}

/// What follows the lines that have ended in some bytes.
pub open spec fn unfinished(bytes: Seq<u8>) -> Seq<u8>
    decreases bytes.len(),
    via unfinished_decreases
{
    match line_end(bytes) {
        Some(end) => unfinished(bytes.skip(end)),
        None => bytes,
    }
}

#[via_fn]
proof fn unfinished_decreases(bytes: Seq<u8>) {
    bytes.index_of_first_ensures(NEWLINE);
}

/// Nothing is lost: the lines that have ended and what follows them are the bytes that were
/// written.
pub proof fn law_nothing_is_lost(bytes: Seq<u8>)
    ensures
        lines(bytes).flatten() + unfinished(bytes) == bytes,
    decreases bytes.len(),
{
    bytes.index_of_first_ensures(NEWLINE);
    match line_end(bytes) {
        Some(end) => {
            let rest = bytes.skip(end);
            law_nothing_is_lost(rest);
            let all = seq![bytes.take(end)] + lines(rest);
            assert(all.drop_first() =~= lines(rest));
            assert(all.flatten() =~= bytes.take(end) + lines(rest).flatten());
            assert(bytes =~= bytes.take(end) + rest);
            assert(lines(bytes).flatten() + unfinished(bytes) =~= bytes.take(end) + (
            lines(rest).flatten() + unfinished(rest)));
        },
        None => {
            assert(lines(bytes).flatten() =~= Seq::empty());
            assert(Seq::<u8>::empty() + bytes =~= bytes);
        },
    }
}

/// Every line ends in a newline and holds no other, and what follows the lines holds none.
pub proof fn law_lines_are_lines(bytes: Seq<u8>)
    ensures
        forall|i: int|
            0 <= i < lines(bytes).len() ==> {
                let line = #[trigger] lines(bytes)[i];
                &&& line.len() > 0
                &&& line.last() == NEWLINE
                &&& !line.drop_last().contains(NEWLINE)
            },
        !unfinished(bytes).contains(NEWLINE),
    decreases bytes.len(),
{
    bytes.index_of_first_ensures(NEWLINE);
    if let Some(end) = line_end(bytes) {
        let rest = bytes.skip(end);
        law_lines_are_lines(rest);
        assert forall|i: int| 0 <= i < lines(bytes).len() implies {
            let line = #[trigger] lines(bytes)[i];
            &&& line.len() > 0
            &&& line.last() == NEWLINE
            &&& !line.drop_last().contains(NEWLINE)
        } by {
            if i > 0 {
                assert(lines(bytes)[i] == lines(rest)[i - 1]);
            }
        }
    }
}

/// It makes no difference in what pieces the bytes are written: after two writes the lines are
/// those of the first, and then those of what was left followed by the second.
pub proof fn law_pieces_make_no_difference(first: Seq<u8>, second: Seq<u8>)
    ensures
        lines(first + second) == lines(first) + lines(unfinished(first) + second),
        unfinished(first + second) == unfinished(unfinished(first) + second),
    decreases first.len(),
{
    let all = first + second;
    first.index_of_first_ensures(NEWLINE);
    all.index_of_first_ensures(NEWLINE);
    match line_end(first) {
        Some(end) => {
            assert(all[end - 1] == first[end - 1]);
            assert forall|j: int| 0 <= j < end - 1 implies all[j] != NEWLINE by {
                assert(all[j] == first[j]);
            }
            assert(line_end(all) == Some(end));
            let rest = first.skip(end);
            assert(all.skip(end) =~= rest + second);
            assert(all.take(end) =~= first.take(end));
            law_pieces_make_no_difference(rest, second);
            assert(lines(all) =~= lines(first) + lines(unfinished(first) + second));
        },
        None => {
            assert(lines(first) + lines(all) =~= lines(all));
        },
    }
}

} // verus!
