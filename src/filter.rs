//! Which received log records a search shows.

use vstd::prelude::*;
use crate::session::Log;

verus! {

/// The field of a log record that a search looks at.
#[derive(Debug, Clone, Copy, PartialEq, Eq, Structural)]
pub enum Filter {
    Message,
    Time,
    FileName,
    Address,
    LineNumber,
}

/// A dotted IPv4 address anywhere in a text.
pub const IPV4_PATTERN: &'static str = r"(\b25[0-5]|\b2[0-4][0-9]|\b[01]?[0-9][0-9]?)(\.(25[0-5]|2[0-4][0-9]|[01]?[0-9][0-9]?)){3}";

/// Whether `p` occurs in `s` as a run of consecutive characters.
pub open spec fn contains(s: Seq<char>, p: Seq<char>) -> bool {
    exists|i: int| 0 <= i && i + p.len() <= s.len() && #[trigger] s.subrange(i, i + p.len()) == p
}

/// The pieces of `s` between the occurrences of `sep`, in order; a text
/// without `sep` is one piece.
pub open spec fn split_on(s: Seq<char>, sep: char) -> Seq<Seq<char>>
    decreases s.len(),
{
    if s.len() == 0 {
        seq![Seq::<char>::empty()]
    } else {
        let rest = split_on(s.drop_first(), sep);
        if s[0] == sep {
            seq![Seq::<char>::empty()] + rest
        } else {
            rest.update(0, seq![s[0]] + rest[0])
        }
    }
}

/// The value of a run of decimal digits.
pub open spec fn digits_value(d: Seq<char>) -> nat
    decreases d.len(),
{
    if d.len() == 0 {
        0
    } else {
        digits_value(d.drop_last()) * 10 + (d.last() as nat - '0' as nat) as nat
    }
}

/// The number that `s` writes in decimal: an optional `+` and at least one
/// digit, nothing else.
pub open spec fn decimal(s: Seq<char>) -> Option<nat> {
    let d = if s.len() > 0 && s[0] == '+' { s.drop_first() } else { s };
    if d.len() > 0 && forall|i: int| 0 <= i < d.len() ==> '0' <= #[trigger] d[i] <= '9' {
        Some(digits_value(d))
    } else {
        None
    }
}

/// `s` read as a `u8`.
pub open spec fn decimal_u8(s: Seq<char>) -> Option<u8> {
    match decimal(s) {
        Some(v) if v <= 255 => Some(v as u8),
        _ => None,
    }
}

/// `s` read as a `u32`.
pub open spec fn decimal_u32(s: Seq<char>) -> Option<u32> {
    match decimal(s) {
        Some(v) if v <= 0xffff_ffff => Some(v as u32),
        _ => None,
    }
}

/// Lower case of a text, as Unicode defines it.
pub uninterp spec fn lower_of(s: Seq<char>) -> Seq<char>;

/// Whether a regular expression matches somewhere in a text: `None` where the
/// pattern does not compile.
pub uninterp spec fn regex_search_of(pattern: Seq<char>, case_insensitive: bool, haystack: Seq<char>) -> Option<bool>;

/// Relies on `str::contains` with a `&str` pattern: true when the pattern is
/// a substring.
#[verifier::external_body]
fn str_contains(s: &str, pattern: &str) -> (r: bool)
    ensures
        r == contains(s@, pattern@),
{
    s.contains(pattern)
}

/// Relies on `str::to_lowercase`: the result depends on the text alone.
#[verifier::external_body]
fn lowercase(s: &str) -> (r: String)
    ensures
        r@ == lower_of(s@),
{
    s.to_lowercase()
}

/// Relies on `str::split` with a `char` separator, collected in order.
#[verifier::external_body]
fn split_at_char(s: &str, sep: char) -> (r: Vec<String>)
    ensures
        r@.map_values(|p: String| p@) == split_on(s@, sep),
{
    s.split(sep).map(|p| p.to_string()).collect()
}

/// Relies on `u8`'s `FromStr`: an optional `+`, then decimal digits only,
/// with a value that fits.
#[verifier::external_body]
fn parse_u8(s: &str) -> (r: Option<u8>)
    ensures
        r == decimal_u8(s@),
{
    s.parse::<u8>().ok()
}

/// Relies on `u32`'s `FromStr`: an optional `+`, then decimal digits only,
/// with a value that fits.
#[verifier::external_body]
fn parse_u32(s: &str) -> (r: Option<u32>)
    ensures
        r == decimal_u32(s@),
{
    s.parse::<u32>().ok()
}

/// Relies on `regex::RegexBuilder` (with `case_insensitive`) and
/// `regex::Regex::is_match`: `None` where the pattern does not compile, else
/// whether it matches anywhere in the haystack. The result depends on the
/// three arguments alone.
#[verifier::external_body]
fn regex_search(pattern: &str, case_insensitive: bool, haystack: &str) -> (r: Option<bool>)
    ensures
        r == regex_search_of(pattern@, case_insensitive, haystack@),
{
    regex::RegexBuilder::new(pattern).case_insensitive(case_insensitive).build().ok().map(|re| re.is_match(haystack))
}

/// Whether a text search for `search` matches. Case-sensitive and plain
/// searches look in the record's `message`; a regex search looks in `field`
/// and ignores case.
pub open spec fn text_matches(case_sensitive: bool, using_regex: bool, search: Seq<char>, field: Seq<char>, message: Seq<char>) -> bool {
    if case_sensitive {
        contains(message, search)
    } else if using_regex {
        regex_search_of(search, true, field) == Some(true)
    } else {
        contains(lower_of(message), lower_of(search))
    }
}

pub open spec fn min_len(a: Seq<Seq<char>>, b: Seq<Seq<char>>) -> int {
    if a.len() < b.len() {
        a.len() as int
    } else {
        b.len() as int
    }
}

/// Compares the octets of an address with those of a search, from position
/// `i` on, with `matching` and `glob` as found so far: a `*` in the search
/// matches any octet and marks the search as a glob; after a mismatch the
/// comparison stops at the next octet that is not `*`; an octet that is not
/// a `u8` on either side rejects the record (`None`). The result is the final
/// `(matching, glob)`.
pub open spec fn scan(a: Seq<Seq<char>>, s: Seq<Seq<char>>, i: int, matching: bool, glob: bool) -> Option<(bool, bool)>
    decreases min_len(a, s) - i,
{
    if i < 0 || i >= min_len(a, s) {
        Some((matching, glob))
    } else if s[i] == seq!['*'] {
        scan(a, s, i + 1, matching, true)
    } else if !matching {
        Some((matching, glob))
    } else {
        match (decimal_u8(a[i]), decimal_u8(s[i])) {
            (Some(x), Some(y)) => scan(a, s, i + 1, x == y, glob),
            _ => None,
        }
    }
}

/// Whether a search on addresses matches `address`. Without a glob, both the
/// address and the search must hold a dotted IPv4 address.
pub open spec fn address_matches(address: Seq<char>, search: Seq<char>) -> bool {
    match regex_search_of(IPV4_PATTERN@, false, address) {
        None => false,
        Some(address_ok) => match scan(split_on(address, '.'), split_on(search, '.'), 0, true, false) {
            None => false,
            Some((matching, glob)) => {
                if !glob && (!address_ok || regex_search_of(IPV4_PATTERN@, false, search) != Some(true)) {
                    false
                } else {
                    matching
                }
            },
        },
    }
}

/// Whether a search on line numbers matches `line`: a search that is not a
/// positive `u32` matches every line.
pub open spec fn line_matches(search: Seq<char>, line: u32) -> bool {
    match decimal_u32(search) {
        Some(n) => n == 0 || line == n,
        None => true,
    }
}

/// Whether a record, received at the instant written `time`, is shown by a
/// search for `search` on the field `by`.
pub open spec fn filter_matches(case_sensitive: bool, using_regex: bool, search: Seq<char>, by: Filter, log: Log, time: Seq<char>) -> bool {
    match by {
        Filter::Message => text_matches(case_sensitive, using_regex, search, log.message@, log.message@),
        Filter::Time => contains(time, search),
        Filter::FileName => text_matches(case_sensitive, using_regex, search, log.file_name@, log.message@),
        Filter::Address => address_matches(log.address@, search),
        Filter::LineNumber => line_matches(search, log.line_number),
    }
}

fn text_filter(case_sensitive: bool, using_regex: bool, search: &str, field: &str, message: &str) -> (r: bool)
    ensures
        r == text_matches(case_sensitive, using_regex, search@, field@, message@),
{
    if case_sensitive {
        str_contains(message, search)
    } else if using_regex {
        match regex_search(search, true, field) {
            Some(found) => found,
            None => false,
        }
    } else {
        let message = lowercase(message);
        let search = lowercase(search);
        str_contains(message.as_str(), search.as_str())
    }
}

fn address_filter(address: &str, search: &str) -> (r: bool)
    ensures
        r == address_matches(address@, search@),
{
    let address_ok = match regex_search(IPV4_PATTERN, false, address) {
        Some(found) => found,
        None => return false,
    };
    let a = split_at_char(address, '.');
    let s = split_at_char(search, '.');
    let ghost av = a@.map_values(|p: String| p@);
    let ghost sv = s@.map_values(|p: String| p@);
    let star = "*".to_string();
    proof {
        vstd::string::to_string_from_display_ensures_for_str("*", star);
        reveal_strlit("*");
    }
    let n: usize = if a.len() < s.len() { a.len() } else { s.len() };
    let mut matching = true;
    let mut glob = false;
    let mut done = false;
    let mut i: usize = 0;
    while i < n && !done
        invariant
            i <= n,
            n == min_len(av, sv),
            av == split_on(address@, '.'),
            sv == split_on(search@, '.'),
            av == a@.map_values(|p: String| p@),
            sv == s@.map_values(|p: String| p@),
            star@ == seq!['*'],
            done ==> scan(av, sv, 0, true, false) == Some((matching, glob)),
            !done ==> scan(av, sv, i as int, matching, glob) == scan(av, sv, 0, true, false),
        decreases n - i + if done { 0int } else { 1int },
    {
        assert(av[i as int] == a@[i as int]@);
        assert(sv[i as int] == s@[i as int]@);
        if s[i] == star {
            glob = true;
            i = i + 1;
        } else if !matching {
            done = true;
        } else {
            match (parse_u8(a[i].as_str()), parse_u8(s[i].as_str())) {
                (Some(x), Some(y)) => {
                    matching = x == y;
                    i = i + 1;
                },
                _ => return false,
            }
        }
    }
    if !glob && (!address_ok || regex_search(IPV4_PATTERN, false, search) != Some(true)) {
        false
    } else {
        matching
    }
}

/// Whether a record, received at the instant written `time` (as
/// `YYYY-MM-DD HH:MM:SS`), is shown by a search for `search_filter` on the
/// field `filter_by`.
pub fn app_state_filter(is_case_sensitive: bool, is_using_regex: bool, search_filter: &str, filter_by: &Filter, log: &Log, time: &str) -> (r: bool)
    ensures
        r == filter_matches(is_case_sensitive, is_using_regex, search_filter@, *filter_by, *log, time@),
{
    match filter_by {
        Filter::Message => text_filter(is_case_sensitive, is_using_regex, search_filter, log.message.as_str(), log.message.as_str()),
        Filter::Time => str_contains(time, search_filter),
        Filter::FileName => text_filter(is_case_sensitive, is_using_regex, search_filter, log.file_name.as_str(), log.message.as_str()),
        Filter::Address => address_filter(log.address.as_str(), search_filter),
        Filter::LineNumber => {
            let number = match parse_u32(search_filter) {
                Some(n) => n,
                None => 0,
            };
            number == 0 || log.line_number == number
        },
    }
}

/// Whether record `log` is shown by a search; its own `time` text stands for
/// the instant at which it was written.
pub open spec fn shown(case_sensitive: bool, using_regex: bool, search: Seq<char>, by: Filter, log: Log) -> bool {
    filter_matches(case_sensitive, using_regex, search, by, log, log.time@)
}

/// The positions below `hi` of the records that a search shows, oldest first.
pub open spec fn shown_oldest_first(logs: Seq<Log>, case_sensitive: bool, using_regex: bool, search: Seq<char>, by: Filter, hi: int) -> Seq<usize>
    decreases hi,
{
    if hi <= 0 {
        seq![]
    } else {
        let before = shown_oldest_first(logs, case_sensitive, using_regex, search, by, hi - 1);
        if shown(case_sensitive, using_regex, search, by, logs[hi - 1]) {
            before.push((hi - 1) as usize)
        } else {
            before
        }
    }
}

/// The positions from `lo` on of the records that a search shows, newest
/// first.
pub open spec fn shown_newest_first(logs: Seq<Log>, case_sensitive: bool, using_regex: bool, search: Seq<char>, by: Filter, lo: int) -> Seq<usize>
    decreases logs.len() - lo,
{
    if lo < 0 || lo >= logs.len() {
        seq![]
    } else {
        let after = shown_newest_first(logs, case_sensitive, using_regex, search, by, lo + 1);
        if shown(case_sensitive, using_regex, search, by, logs[lo]) {
            after.push(lo as usize)
        } else {
            after
        }
    }
}

/// The positions in `received` (kept in the order of arrival) of the records
/// that a search shows, newest or oldest first.
pub fn shown_logs(received: &Vec<Log>, newest_first: bool, is_case_sensitive: bool, is_using_regex: bool, search_filter: &str, filter_by: &Filter) -> (r: Vec<usize>)
    ensures
        newest_first ==> r@ == shown_newest_first(received@, is_case_sensitive, is_using_regex, search_filter@, *filter_by, 0),
        !newest_first ==> r@ == shown_oldest_first(received@, is_case_sensitive, is_using_regex, search_filter@, *filter_by, received@.len() as int),
{
    let ghost logs = received@;
    let mut r: Vec<usize> = Vec::new();
    if newest_first {
        let mut lo: usize = received.len();
        while lo > 0
            invariant
                lo <= received@.len(),
                logs == received@,
                r@ == shown_newest_first(logs, is_case_sensitive, is_using_regex, search_filter@, *filter_by, lo as int),
            decreases lo,
        {
            lo = lo - 1;
            let log = &received[lo];
            if app_state_filter(is_case_sensitive, is_using_regex, search_filter, filter_by, log, log.time.as_str()) {
                r.push(lo);
            }
        }
    } else {
        let mut hi: usize = 0;
        while hi < received.len()
            invariant
                hi <= received@.len(),
                logs == received@,
                r@ == shown_oldest_first(logs, is_case_sensitive, is_using_regex, search_filter@, *filter_by, hi as int),
            decreases received@.len() - hi,
        {
            let log = &received[hi];
            if app_state_filter(is_case_sensitive, is_using_regex, search_filter, filter_by, log, log.time.as_str()) {
                r.push(hi);
            }
            hi = hi + 1;
        }
    }
    r
}

} // verus!
