use vstd::prelude::*;

verus! {

use vstd::string::StrSliceExecFns;
use crate::digits::{is_digit, exec_is_digit, digits_value, parse_u64};

/// A same-platform message link: the channel and message ids captured from a text.
/// The guild id between the host and the channel id is matched but not kept.
#[derive(Clone, Copy, PartialEq, Eq, Structural, Debug)]
pub struct Link {
    pub channel_id: u64,
    pub message_id: u64,
}

/// The characters of a string, as a vector.
pub fn chars_of(s: &str) -> (v: Vec<char>)
    ensures
        v@ == s@,
{
    let n = s.unicode_len();
    let mut v: Vec<char> = Vec::new();
    let mut i: usize = 0;
    while i < n
        invariant
            i <= n,
            n == s@.len(),
            v@ == s@.subrange(0, i as int),
        decreases n - i,
    {
        v.push(s.get_char(i));
        i = i + 1;
        proof {
            assert(v@ =~= s@.subrange(0, i as int));
        }
    }
    proof {
        assert(v@ =~= s@);
    }
    v
}

/// The literal `lit` occurs in `s` at position `i`.
pub open spec fn lit_at(s: Seq<char>, i: int, lit: Seq<char>) -> bool {
    &&& 0 <= i
    &&& i + lit.len() <= s.len()
    &&& forall|k: int| 0 <= k < lit.len() ==> s[i + k] == lit[k]
}

fn lit_match_at(text: &Vec<char>, i: usize, pat: &Vec<char>) -> (b: bool)
    requires
        i <= text@.len(),
    ensures
        b == lit_at(text@, i as int, pat@),
{
    if pat.len() > text.len() - i {
        return false;
    }
    let mut k: usize = 0;
    while k < pat.len()
        invariant
            i + pat@.len() <= text@.len(),
            text@.len() <= usize::MAX,
            k <= pat@.len(),
            forall|j: int| 0 <= j < k ==> text@[i + j] == pat@[j],
        decreases pat@.len() - k,
    {
        if text[i + k] != pat[k] {
            return false;
        }
        k = k + 1;
    }
    true
}

/// One of the platform's two message-link hosts, followed by the channels path,
/// occurs at position `i`.
pub open spec fn has_host(s: Seq<char>, i: int) -> bool {
    ||| lit_at(s, i, "https://discord.com/channels/"@)
    ||| lit_at(s, i, "https://discordapp.com/channels/"@)
}

/// Length of the host-and-path prefix matched at position `i`.
pub open spec fn host_len(s: Seq<char>, i: int) -> int {
    if lit_at(s, i, "https://discord.com/channels/"@) {
        "https://discord.com/channels/"@.len() as int
    } else {
        "https://discordapp.com/channels/"@.len() as int
    }
}

/// The first position at or after `i` that does not hold a decimal digit.
pub open spec fn digit_run_end(s: Seq<char>, i: int) -> int
    decreases s.len() - i when i <= s.len()
{
    if i >= s.len() {
        i
    } else if !is_digit(s[i]) {
        i
    } else {
        digit_run_end(s, i + 1)
    }
}

/// A full link occurs at position `i`: host, then three non-empty decimal runs
/// (guild, channel, message) separated by slashes, each run maximal.
pub open spec fn match_at(s: Seq<char>, i: int) -> bool {
    &&& has_host(s, i)
    &&& {
        let g0 = i + host_len(s, i);
        let g1 = digit_run_end(s, g0);
        let c0 = g1 + 1;
        let c1 = digit_run_end(s, c0);
        let m0 = c1 + 1;
        let m1 = digit_run_end(s, m0);
        &&& g0 < g1
        &&& g1 < s.len()
        &&& s[g1] == '/'
        &&& c0 < c1
        &&& c1 < s.len()
        &&& s[c1] == '/'
        &&& m0 < m1
    }
}

/// The channel-id capture of the match at position `i`.
pub open spec fn channel_digits(s: Seq<char>, i: int) -> Seq<char> {
    let g1 = digit_run_end(s, i + host_len(s, i));
    s.subrange(g1 + 1, digit_run_end(s, g1 + 1))
}

/// The message-id capture of the match at position `i`.
pub open spec fn message_digits(s: Seq<char>, i: int) -> Seq<char> {
    let g1 = digit_run_end(s, i + host_len(s, i));
    let c1 = digit_run_end(s, g1 + 1);
    s.subrange(c1 + 1, digit_run_end(s, c1 + 1))
}

/// The position of the leftmost link at or after `i`, if any.
pub open spec fn first_match_from(s: Seq<char>, i: int) -> Option<int>
    decreases s.len() - i when i <= s.len()
{
    if i >= s.len() {
        None
    } else if match_at(s, i) {
        Some(i)
    } else {
        first_match_from(s, i + 1)
    }
}

/// The link captured by the match at position `i`, or `None` when a captured
/// number does not fit an unsigned 64-bit id.
pub open spec fn scan_at(s: Seq<char>, i: int) -> Option<Link> {
    let c = digits_value(channel_digits(s, i));
    let m = digits_value(message_digits(s, i));
    if c <= u64::MAX && m <= u64::MAX {
        Some(Link { channel_id: c as u64, message_id: m as u64 })
    } else {
        None
    }
}

/// What scanning a text yields: the captures of the leftmost link, or `None`
/// when no link occurs or a captured id overflows.
pub open spec fn spec_scan(s: Seq<char>) -> Option<Link> {
    match first_match_from(s, 0) {
        Some(i) => scan_at(s, i),
        None => None,
    }
}

/// A match puts its position strictly inside the text.
pub proof fn lemma_match_in_range(s: Seq<char>, i: int)
    requires
        match_at(s, i),
    ensures
        0 <= i < s.len(),
{
    reveal_strlit("https://discord.com/channels/");
    reveal_strlit("https://discordapp.com/channels/");
}

pub proof fn lemma_first_match_is(s: Seq<char>, k: int, i: int)
    requires
        0 <= k <= i < s.len(),
        match_at(s, i),
        forall|j: int| k <= j < i ==> !match_at(s, j),
    ensures
        first_match_from(s, k) == Some(i),
    decreases i - k,
{
    if k < i {
        lemma_first_match_is(s, k + 1, i);
    }
}

pub proof fn lemma_no_match(s: Seq<char>, k: int)
    requires
        0 <= k <= s.len(),
        forall|j: int| k <= j < s.len() ==> !match_at(s, j),
    ensures
        first_match_from(s, k) is None,
    decreases s.len() - k,
{
    if k < s.len() {
        lemma_no_match(s, k + 1);
    }
}

/// Only the leftmost link in a text determines the scan result: matches later
/// in the text, however many, change nothing.
pub proof fn lemma_scan_takes_first(s: Seq<char>, i: int)
    requires
        0 <= i,
        match_at(s, i),
        forall|j: int| 0 <= j < i ==> !match_at(s, j),
    ensures
        spec_scan(s) == scan_at(s, i),
{
    lemma_match_in_range(s, i);
    lemma_first_match_is(s, 0, i);
}

/// Scan a character vector for the first same-platform message link.
pub fn scan_chars(text: &Vec<char>) -> (r: Option<Link>)
    ensures
        r == spec_scan(text@),
{
    let host_main = chars_of("https://discord.com/channels/");
    let host_alt = chars_of("https://discordapp.com/channels/");
    let n = text.len();
    let mut i: usize = 0;
    while i < n
        invariant
            i <= n,
            n == text@.len(),
            host_main@ == "https://discord.com/channels/"@,
            host_alt@ == "https://discordapp.com/channels/"@,
            forall|j: int| 0 <= j < i ==> !match_at(text@, j),
        decreases n - i,
    {
        let main_here = lit_match_at(text, i, &host_main);
        let alt_here = if main_here {
            false
        } else {
            lit_match_at(text, i, &host_alt)
        };
        if main_here || alt_here {
            let hl: usize = if main_here {
                host_main.len()
            } else {
                host_alt.len()
            };
            proof {
                assert(has_host(text@, i as int));
                assert(hl as int == host_len(text@, i as int));
            }
            let g0: usize = i + hl;
            let g1 = run_end(text, g0);
            if g1 > g0 && g1 < n && text[g1] == '/' {
                let c0: usize = g1 + 1;
                let c1 = run_end(text, c0);
                if c1 > c0 && c1 < n && text[c1] == '/' {
                    let m0: usize = c1 + 1;
                    let m1 = run_end(text, m0);
                    if m1 > m0 {
                        proof {
                            assert(match_at(text@, i as int));
                            lemma_first_match_is(text@, 0, i as int);
                            assert(channel_digits(text@, i as int) =~= text@.subrange(
                                c0 as int,
                                c1 as int,
                            ));
                            assert(message_digits(text@, i as int) =~= text@.subrange(
                                m0 as int,
                                m1 as int,
                            ));
                        }
                        let cv = parse_u64(text, c0, c1);
                        let mv = parse_u64(text, m0, m1);
                        if let Some(c) = cv {
                            if let Some(m) = mv {
                                return Some(Link { channel_id: c, message_id: m });
                            }
                        }
                        return None;
                    }
                }
            }
            proof {
                assert(!match_at(text@, i as int));
            }
        } else {
            proof {
                assert(!match_at(text@, i as int));
            }
        }
        i = i + 1;
    }
    proof {
        lemma_no_match(text@, 0);
    }
    None
}

/// Scan a text for the first same-platform message link and capture its ids.
pub fn scan_text(text: &str) -> (r: Option<Link>)
    ensures
        r == spec_scan(text@),
{
    let chars = chars_of(text);
    scan_chars(&chars)
}

fn run_end(text: &Vec<char>, from: usize) -> (e: usize)
    requires
        from <= text@.len(),
    ensures
        e == digit_run_end(text@, from as int),
        from <= e <= text@.len(),
        forall|k: int| from <= k < e ==> is_digit(text@[k]),
{
    let mut j: usize = from;
    loop
        invariant
            from <= j <= text@.len(),
            digit_run_end(text@, from as int) == digit_run_end(text@, j as int),
            forall|k: int| from <= k < j ==> is_digit(text@[k]),
        ensures
            from <= j <= text@.len(),
            j == digit_run_end(text@, from as int),
            forall|k: int| from <= k < j ==> is_digit(text@[k]),
        decreases text@.len() - j,
    {
        if j == text.len() {
            break;
        }
        if !exec_is_digit(text[j]) {
            break;
        }
        j = j + 1;
    }
    j
}

} // verus!
