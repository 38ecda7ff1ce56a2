//! Texts, and the log that is passed on line by line.

use vstd::prelude::*;
use vstd::utf8::*;

use crate::text::copied;
use crate::text::decimal;
use crate::text::join;
use crate::text::joined;
use crate::text::lemma_cut_parts;
use crate::text::same_text;
use crate::text::signed_decimal;
use crate::text::split_once;
use crate::text::strip_prefix;
use crate::text::trimmed_end;
use crate::writer::LineBuffer;

verus! {

/// A prefix is stripped exactly where the text starts with it, and what is left makes the text
/// again.
pub proof fn law_strip_prefix(s: &str, prefix: &str, rest: Option<&str>)
    requires
        call_ensures(strip_prefix, (s, prefix), rest),
    ensures
        match rest {
            Some(rest) => s@ == prefix@ + rest@,
            None => !prefix@.is_prefix_of(s@),
        },
{
    if let Some(rest) = rest {
        assert(s@ =~= prefix@ + rest@);
    }
}

/// A text is split at the first of the characters, and its parts make the text again.
pub proof fn law_split_once(s: &str, c: char, parts: Option<(&str, &str)>)
    requires
        call_ensures(split_once, (s, c), parts),
    ensures
        match parts {
            Some((a, b)) => s@ == a@ + seq![c] + b@ && !a@.contains(c),
            None => !s@.contains(c),
        },
{
    lemma_cut_parts(s@, c);
}

/// Texts that are put together with something between them are the texts with that behind each,
/// but for the last.
pub proof fn law_joined(parts: Seq<Seq<char>>, sep: Seq<char>)
    requires
        parts.len() > 0,
    ensures
        joined(parts, sep) + sep == parts.map_values(|part: Seq<char>| part + sep).flatten(),
    decreases parts.len(),
{
    let with_sep = |part: Seq<char>| part + sep;
    let all = parts.map_values(with_sep);
    let before = parts.drop_last();
    assert(all.drop_last() =~= before.map_values(with_sep));
    assert(all =~= all.drop_last().push(parts.last() + sep));
    all.lemma_flatten_and_flatten_alt_are_equivalent();
    all.drop_last().lemma_flatten_and_flatten_alt_are_equivalent();
    assert(all.flatten_alt() =~= all.drop_last().flatten_alt() + (parts.last() + sep));
    if parts.len() > 1 {
        law_joined(before, sep);
        assert(joined(parts, sep) + sep =~= (joined(before, sep) + sep) + (parts.last() + sep));
    } else {
        assert(all.drop_last().flatten_alt() =~= Seq::empty());
        assert(joined(parts, sep) + sep =~= parts.last() + sep);
    }
}

/// The strings that are put together are all there, in order, with the separator between them.
pub proof fn law_join(parts: Vec<String>, sep: &str, whole: String)
    requires
        call_ensures(join, (&parts, sep), whole),
    ensures
        parts@.len() == 0 ==> whole@.len() == 0,
        parts@.len() > 0 ==> whole@ + sep@ == parts@.map_values(
            |part: String| part@ + sep@,
        ).flatten(),
{
    if parts@.len() > 0 {
        let texts = parts@.map_values(|s: String| s@);
        law_joined(texts, sep@);
        assert(parts@.map_values(|part: String| part@ + sep@) =~= texts.map_values(
            |part: Seq<char>| part + sep@,
        ));
    }
}

/// Strings that may be missing are alike exactly where both are missing or both hold the same, and
/// a copy holds the same.
pub proof fn law_missing_strings(
    a: Option<String>,
    b: Option<String>,
    same: bool,
    copy: Option<String>,
)
    requires
        call_ensures(same_text, (&a, &b), same),
        call_ensures(copied, (&a,), copy),
    ensures
        same <==> match (a, b) {
            (Some(a), Some(b)) => a@ == b@,
            (None, None) => true,
            _ => false,
        },
        copy == a,
{
}

/// What a row of decimal digits stands for.
pub open spec fn value(digits: Seq<char>) -> int
    decreases digits.len(),
{
    if digits.len() == 0 {
        0
    } else {
        10 * value(digits.drop_last()) + (digits.last() as int - '0' as int)
    }
}

/// The decimal digits of a number stand for it; there are no more than it takes.
pub proof fn law_decimal(n: nat)
    ensures
        value(decimal(n)) == n,
        decimal(n).len() > 0,
        forall|i: int| 0 <= i < decimal(n).len() ==> '0' <= #[trigger] decimal(n)[i] <= '9',
        n > 0 ==> decimal(n)[0] != '0',
        n == 0 ==> decimal(n).len() == 1,
    decreases n,
{
    let digit = ('0' as nat + n % 10) as char;
    assert(digit as int == '0' as int + n % 10);
    if n >= 10 {
        law_decimal(n / 10);
        assert(decimal(n).drop_last() =~= decimal(n / 10));
    } else {
        assert(decimal(n).drop_last() =~= Seq::empty());
        assert(value(decimal(n).drop_last()) == 0);
    }
}

/// A negative number is told by a sign and the digits of its opposite.
pub proof fn law_signed_decimal(n: nat)
    ensures
        signed_decimal(n as int) == decimal(n),
        n > 0 ==> signed_decimal(-n) == "-"@ + decimal(n),
{
}

/// What is trimmed off the end of a text is nothing but the character, and none of it is left
/// there.
pub proof fn law_trimmed_end(s: Seq<char>, c: char)
    ensures
        trimmed_end(s, c).len() <= s.len(),
        trimmed_end(s, c) == s.take(trimmed_end(s, c).len() as int),
        forall|i: int| trimmed_end(s, c).len() <= i < s.len() ==> #[trigger] s[i] == c,
        trimmed_end(s, c).len() > 0 ==> trimmed_end(s, c).last() != c,
    decreases s.len(),
{
    if s.len() > 0 && s.last() == c {
        let rest = s.drop_last();
        law_trimmed_end(rest, c);
        assert forall|i: int| trimmed_end(s, c).len() <= i < s.len() implies #[trigger] s[i] == c by {
            if i < rest.len() {
                assert(rest[i] == c);
            }
        }
        assert(rest.take(trimmed_end(s, c).len() as int) =~= s.take(
            trimmed_end(s, c).len() as int,
        ));
    } else {
        assert(s.take(s.len() as int) =~= s);
    }
}

/// All that is written is kept, behind what is there already, and a new buffer holds nothing.
pub proof fn law_write(
    empty: LineBuffer,
    buffer: &mut LineBuffer,
    bytes: &[u8],
    written: usize,
)
    requires
        call_ensures(LineBuffer::new, (), empty),
        call_ensures(LineBuffer::write, (buffer, bytes), written),
    ensures
        empty@.len() == 0,
        final(buffer)@ == old(buffer)@ + bytes@,
        written == bytes@.len(),
{
}

/// A line comes out exactly where a newline is in the buffer. It goes up to the first newline, as
/// text where its bytes are text and as they are otherwise, and what stands behind stays.
pub proof fn law_next_line(buffer: &mut LineBuffer, line: Option<Result<String, Vec<u8>>>)
    requires
        call_ensures(LineBuffer::next_line, (buffer,), line),
    ensures
        line is None <==> !old(buffer)@.contains(10u8),
        line is None ==> final(buffer)@ == old(buffer)@,
        line matches Some(line) ==> {
            let bytes = match line {
                Ok(text) => encode_utf8(text@),
                Err(bytes) => bytes@,
            };
            &&& line is Err ==> !valid_utf8(bytes)
            &&& bytes.len() > 0
            &&& bytes.last() == 10
            &&& !bytes.drop_last().contains(10u8)
            &&& old(buffer)@ == bytes + final(buffer)@
        },
{
    let all = old(buffer)@;
    all.index_of_first_ensures(10u8);
    if let Some(line) = line {
        let end = all.index_of_first(10u8)->0 + 1;
        assert(all =~= all.take(end) + all.skip(end));
    }
}

} // verus!
