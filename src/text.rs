use vstd::prelude::*;
use vstd::utf8::{decode_utf8, encode_utf8, is_char_boundary};
use vstd::string::StringSliceAdditionalSpecFns;
use crate::chunks::{byte_len, byte_length, texts};

verus! {

/// The longest display length of a headline, in bytes, before the ellipsis.
pub const HEADLINE_MAX_BYTES: usize = 180;

/// The largest character boundary of `bytes` that is not beyond `k`.
pub open spec fn boundary_at_most(bytes: Seq<u8>, k: int) -> int
    decreases k,
{
    if k <= 0 {
        0
    } else if is_char_boundary(bytes, k) {
        k
    } else {
        boundary_at_most(bytes, k - 1)
    }
}

/// A line shortened for display: unchanged when it fits `max` bytes, else its
/// longest prefix of at most `max` bytes that ends on a character, then an ellipsis.
pub open spec fn sanitized(line: Seq<char>, max: nat) -> Seq<char> {
    if byte_len(line) <= max {
        line
    } else {
        decode_utf8(encode_utf8(line).subrange(0, boundary_at_most(encode_utf8(line), max as int)))
            + seq!['…']
    }
}

/// Shortens `line` to at most `max_len` bytes for display, marking a cut with
/// an ellipsis.
pub fn sanitize_line(line: &str, max_len: usize) -> (r: String)
    ensures
        r@ == sanitized(line@, max_len as nat),
{
    if byte_length(line) <= max_len {
        return String::from_str(line);
    }
    let ghost bytes = line.spec_bytes();
    let mut k: usize = max_len;
    while k > 0 && !line.is_char_boundary(k)
        invariant
            k <= max_len,
            bytes == line.spec_bytes(),
            boundary_at_most(bytes, k as int) == boundary_at_most(bytes, max_len as int),
        decreases k,
    {
        k = k - 1;
    }
    proof {
        vstd::utf8::encode_utf8_valid_utf8(line@);
        vstd::utf8::is_char_boundary_start_end_of_seq(bytes);
    }
    let (head, _tail) = line.split_at(k);
    proof {
        vstd::utf8::encode_utf8_decode_utf8(head@);
    }
    assert(head@ == decode_utf8(bytes.subrange(0, k as int)));
    let mut r = String::from_str(head);
    proof {
        reveal_strlit("…");
    }
    r.append("…");
    r
}

/// A line without one carriage return at its end.
pub open spec fn strip_cr(l: Seq<char>) -> Seq<char> {
    if l.len() > 0 && l.last() == '\r' {
        l.drop_last()
    } else {
        l
    }
}

/// The lines of `s`, when `cur` has been read of the first one: each newline
/// ends a line, without a carriage return before it, and text after the last
/// newline, if any, is one more line.
pub open spec fn split_from(s: Seq<char>, cur: Seq<char>) -> Seq<Seq<char>>
    decreases s.len(),
{
    if s.len() == 0 {
        if cur.len() == 0 {
            Seq::empty()
        } else {
            seq![cur]
        }
    } else if s[0] == '\n' {
        seq![strip_cr(cur)] + split_from(s.drop_first(), Seq::empty())
    } else {
        split_from(s.drop_first(), cur.push(s[0]))
    }
}

/// The lines of a text, as `str::lines` splits it.
pub open spec fn lines_of(s: Seq<char>) -> Seq<Seq<char>> {
    split_from(s, Seq::empty())
}

/// A text without its trailing whitespace, as `str::trim_end` gives it.
pub uninterp spec fn trimmed_end(s: Seq<char>) -> Seq<char>;

/// Relies on `str::lines`: the lines of the text, in order.
#[verifier::external_body]
fn split_lines(s: &str) -> (r: Vec<String>)
    ensures
        texts(r@) == lines_of(s@),
{
    s.lines().map(|l| l.to_string()).collect()
}

/// Relies on `str::trim_end`: the text without trailing whitespace.
#[verifier::external_body]
fn trim_end(s: &str) -> (r: String)
    ensures
        r@ == trimmed_end(s@),
{
    s.trim_end().to_string()
}

/// Each line without its trailing whitespace.
pub fn trim_lines(lines: &Vec<String>) -> (r: Vec<String>)
    ensures
        texts(r@) == texts(lines@).map_values(|l: Seq<char>| trimmed_end(l)),
{
    let mut r: Vec<String> = Vec::new();
    let mut i: usize = 0;
    while i < lines.len()
        invariant
            i <= lines@.len(),
            texts(r@) == texts(lines@).take(i as int).map_values(|l: Seq<char>| trimmed_end(l)),
        decreases lines@.len() - i,
    {
        let ghost before = texts(r@);
        r.push(trim_end(lines[i].as_str()));
        assert(texts(r@) =~= before.push(trimmed_end(lines@[i as int]@)));
        assert(texts(lines@).take(i + 1) =~= texts(lines@).take(i as int).push(lines@[i as int]@));
        i += 1;
    }
    assert(texts(lines@).take(i as int) =~= texts(lines@));
    r
}

/// The lines of freshly read log text, each without trailing whitespace.
pub fn log_lines(raw: &str) -> (r: Vec<String>)
    ensures
        texts(r@) == lines_of(raw@).map_values(|l: Seq<char>| trimmed_end(l)),
{
    let lines = split_lines(raw);
    trim_lines(&lines)
}

/// The headline of a chunk with these lines: the last one, shortened for
/// display, or a fixed text when there is none.
pub open spec fn headline_of(lines: Seq<Seq<char>>) -> Seq<char> {
    if lines.len() == 0 {
        "Streaming log update"@
    } else {
        sanitized(lines.last(), HEADLINE_MAX_BYTES as nat)
    }
}

/// The headline of a chunk, given the chunk's lines.
pub fn headline_from_lines(lines: &Vec<String>) -> (r: String)
    ensures
        r@ == headline_of(texts(lines@)),
{
    if lines.len() == 0 {
        String::from_str("Streaming log update")
    } else {
        sanitize_line(lines[lines.len() - 1].as_str(), HEADLINE_MAX_BYTES)
    }
}

/// What a chunk report says of its chunk: the headline and the number of lines.
pub fn chunk_summary(chunk: &str) -> (r: (String, usize))
    ensures
        r.0@ == headline_of(lines_of(chunk@)),
        r.1 == lines_of(chunk@).len(),
{
    let lines = split_lines(chunk);
    let headline = headline_from_lines(&lines);
    (headline, lines.len())
}

} // verus!
