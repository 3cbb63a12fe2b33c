//! Extraction of the content identifier from the daemon's line-oriented add
//! response: within the first line that holds the quoted key `"Hash"`, the
//! text between the third and the fourth quote character.

use vstd::prelude::*;
use vstd::string::StrSliceExecFns;

verus! {

/// The first position at or after `i` holding `c`, or the length when none
/// does.
pub open spec fn find_from(s: Seq<char>, i: int, c: char) -> int
    decreases s.len() - i,
{
    if i < 0 || i >= s.len() {
        s.len() as int
    } else if s[i] == c {
        i
    } else {
        find_from(s, i + 1, c)
    }
}

proof fn lemma_find_from_bounds(s: Seq<char>, i: int, c: char)
    requires
        0 <= i <= s.len(),
    ensures
        i <= find_from(s, i, c) <= s.len(),
    decreases s.len() - i,
{
    if i < s.len() && s[i] != c {
        lemma_find_from_bounds(s, i + 1, c);
    }
}

/// The first position in `[i, end)` holding `c`, or `end` when none does.
pub open spec fn find_in(s: Seq<char>, i: int, end: int, c: char) -> int
    decreases end - i,
{
    if i >= end {
        end
    } else if s[i] == c {
        i
    } else {
        find_in(s, i + 1, end, c)
    }
}

/// Whether the quoted key `"Hash"` begins at `i`, wholly before `end`.
pub open spec fn hash_key_at(s: Seq<char>, i: int, end: int) -> bool {
    &&& i + 6 <= end
    &&& s[i] == '"'
    &&& s[i + 1] == 'H'
    &&& s[i + 2] == 'a'
    &&& s[i + 3] == 's'
    &&& s[i + 4] == 'h'
    &&& s[i + 5] == '"'
}

/// Whether the quoted key begins anywhere in `[i, end)`.
pub open spec fn has_hash_key(s: Seq<char>, i: int, end: int) -> bool
    decreases end - i,
{
    if i >= end {
        false
    } else {
        hash_key_at(s, i, end) || has_hash_key(s, i + 1, end)
    }
}

/// Where the content of a line ends, given its start and the position of the
/// next newline: a trailing carriage return is not part of the line.
pub open spec fn line_content_end(s: Seq<char>, start: int, e: int) -> int {
    if e > start && s[e - 1] == '\r' {
        e - 1
    } else {
        e
    }
}

/// The start of the first line at or after `i` whose content holds the
/// quoted key, or the length when no line does.
pub open spec fn hash_line_start(s: Seq<char>, i: int) -> int
    decreases s.len() - i,
    when 0 <= i <= s.len()
    via hash_line_start_dec
{
    let e = find_from(s, i, '\n');
    if has_hash_key(s, i, line_content_end(s, i, e)) {
        i
    } else if e >= s.len() {
        s.len() as int
    } else {
        hash_line_start(s, e + 1)
    }
}

#[via_fn]
proof fn hash_line_start_dec(s: Seq<char>, i: int) {
    lemma_find_from_bounds(s, i, '\n');
}

/// The content identifier carried by an add response: in the first line that
/// holds the quoted key, the text between the third and the fourth quote, as
/// far as the line reaches; empty when no line holds the key or the line has
/// no third quote.
pub open spec fn cid_of_response(s: Seq<char>) -> Seq<char> {
    let start = hash_line_start(s, 0);
    if start >= s.len() {
        Seq::empty()
    } else {
        let lend = line_content_end(s, start, find_from(s, start, '\n'));
        let q1 = find_in(s, start, lend, '"');
        let q2 = find_in(s, q1 + 1, lend, '"');
        let q3 = find_in(s, q2 + 1, lend, '"');
        if q3 >= lend {
            Seq::empty()
        } else {
            let q4 = find_in(s, q3 + 1, lend, '"');
            s.subrange(q3 + 1, q4)
        }
    }
}

/// The characters of a string, one by one.
fn chars_of(s: &str) -> (v: Vec<char>)
    ensures
        v@ == s@,
{
    let n = s.unicode_len();
    let mut v: Vec<char> = Vec::new();
    let mut i: usize = 0;
    while i < n
        invariant
            n == s@.len(),
            i <= n,
            v@ == s@.take(i as int),
        decreases n - i,
    {
        let c = s.get_char(i);
        v.push(c);
        proof {
            assert(s@.take(i + 1) =~= s@.take(i as int).push(s@[i as int]));
        }
        i += 1;
    }
    proof {
        assert(s@.take(n as int) =~= s@);
    }
    v
}

/// Relies on String's FromIterator over characters: collecting yields
/// exactly those characters.
#[verifier::external_body]
fn string_from_chars(v: &Vec<char>) -> (r: String)
    ensures
        r@ == v@,
{
    v.iter().collect()
}

fn ex_find_from(s: &Vec<char>, i: usize, c: char) -> (r: usize)
    requires
        i <= s@.len(),
    ensures
        r == find_from(s@, i as int, c),
        i <= r <= s@.len(),
    decreases s@.len() - i,
{
    if i >= s.len() {
        s.len()
    } else if s[i] == c {
        i
    } else {
        ex_find_from(s, i + 1, c)
    }
}

fn ex_find_in(s: &Vec<char>, i: usize, end: usize, c: char) -> (r: usize)
    requires
        end <= s@.len(),
    ensures
        r == find_in(s@, i as int, end as int, c),
        r <= end,
        i <= end ==> i <= r,
    decreases end - i,
{
    if i >= end {
        end
    } else if s[i] == c {
        i
    } else {
        ex_find_in(s, i + 1, end, c)
    }
}

fn ex_has_hash_key(s: &Vec<char>, i: usize, end: usize) -> (b: bool)
    requires
        end <= s@.len(),
    ensures
        b == has_hash_key(s@, i as int, end as int),
    decreases end - i,
{
    if i >= end {
        false
    } else if end - i >= 6 && s[i] == '"' && s[i + 1] == 'H' && s[i + 2] == 'a' && s[i + 3]
        == 's' && s[i + 4] == 'h' && s[i + 5] == '"' {
        true
    } else {
        ex_has_hash_key(s, i + 1, end)
    }
}

fn ex_line_content_end(s: &Vec<char>, start: usize, e: usize) -> (r: usize)
    requires
        start <= e <= s@.len(),
    ensures
        r == line_content_end(s@, start as int, e as int),
        r <= e,
    decreases 0int,
{
    if e > start && s[e - 1] == '\r' {
        e - 1
    } else {
        e
    }
}

fn ex_hash_line_start(s: &Vec<char>, i: usize) -> (r: usize)
    requires
        i <= s@.len(),
    ensures
        r == hash_line_start(s@, i as int),
        i <= r <= s@.len(),
    decreases s@.len() - i,
{
    let e = ex_find_from(s, i, '\n');
    let lend = ex_line_content_end(s, i, e);
    if ex_has_hash_key(s, i, lend) {
        i
    } else if e >= s.len() {
        s.len()
    } else {
        ex_hash_line_start(s, e + 1)
    }
}

/// Picks the content identifier out of an add response, exactly as
/// `cid_of_response` states it.
pub fn extract_cid(body: &str) -> (r: String)
    ensures
        r@ == cid_of_response(body@),
{
    let s = chars_of(body);
    let start = ex_hash_line_start(&s, 0);
    if start >= s.len() {
        return String::new();
    }
    let e = ex_find_from(&s, start, '\n');
    let lend = ex_line_content_end(&s, start, e);
    let q1 = ex_find_in(&s, start, lend, '"');
    let q2 = if q1 >= lend {
        lend
    } else {
        ex_find_in(&s, q1 + 1, lend, '"')
    };
    let q3 = if q2 >= lend {
        lend
    } else {
        ex_find_in(&s, q2 + 1, lend, '"')
    };
    if q3 >= lend {
        return String::new();
    }
    let q4 = ex_find_in(&s, q3 + 1, lend, '"');
    let mut piece: Vec<char> = Vec::new();
    let mut i: usize = q3 + 1;
    while i < q4
        invariant
            q3 + 1 <= i <= q4 <= s@.len(),
            piece@ == s@.subrange(q3 + 1, i as int),
        decreases q4 - i,
    {
        let c = s[i];
        piece.push(c);
        proof {
            assert(s@.subrange(q3 + 1, i + 1) =~= s@.subrange(q3 + 1, i as int).push(
                s@[i as int]));
        }
        i += 1;
    }
    string_from_chars(&piece)
}

} // verus!
