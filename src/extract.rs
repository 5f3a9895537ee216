//! Extraction of a percentage reading from captured command output.
use vstd::prelude::*;
use vstd::std_specs::iter::IteratorSpec;

verus! {

broadcast use vstd::string::group_string_axioms;

/// The pattern used when a measurement command names none.
pub const DEFAULT_PATTERN: &'static str = "([0-9]+)%";

/// Whether the regex crate accepts `p` as a pattern.
pub uninterp spec fn pattern_compiles(p: Seq<char>) -> bool;

/// The text of the leftmost-first match of pattern `p` in `t`, if any.
pub uninterp spec fn leftmost_match(p: Seq<char>, t: Seq<char>) -> Option<Seq<char>>;

#[verifier::external_type_specification]
#[verifier::external_body]
pub struct ExRegex(regex::Regex);

#[verifier::external_type_specification]
#[verifier::external_body]
pub struct ExRegexError(regex::Error);

/// Why no reading could be extracted.
#[derive(Debug)]
pub enum ExtractError {
    /// The pattern does not compile.
    BadPattern(String),
    /// The pattern matches nowhere in the output.
    NoMatch,
    /// The match, without its trailing percent sign, is no unsigned 32-bit integer.
    NotANumber(String),
}

/// A compiled pattern together with the text it was compiled from.
pub struct Pattern {
    source: String,
    re: regex::Regex,
}

/// Relies on regex::Regex::new: it compiles `source`, or fails for an invalid
/// or oversized pattern.
#[verifier::external_body]
fn compile(source: &str) -> (r: Result<regex::Regex, regex::Error>)
    ensures
        r is Ok <==> pattern_compiles(source@),
{
    regex::Regex::new(source)
}

/// Relies on regex::Regex::find: the text of the leftmost-first match of the
/// whole pattern.
#[verifier::external_body]
fn find_first(p: &Pattern, text: &str) -> (r: Option<String>)
    ensures
        match r {
            Some(m) => leftmost_match(p.source(), text@) == Some(m@),
            None => leftmost_match(p.source(), text@) is None,
        },
{
    p.re.find(text).map(|m| m.as_str().to_string())
}

impl Pattern {
    /// The text the pattern was compiled from.
    pub closed spec fn source(&self) -> Seq<char> {
        self.source@
    }

    /// Compiles `source`.
    pub fn new(source: &str) -> (r: Result<Pattern, ExtractError>)
        ensures
            r is Ok <==> pattern_compiles(source@),
            r matches Ok(p) ==> p.source() == source@,
            r matches Err(e) ==> (e matches ExtractError::BadPattern(s) && s@ == source@),
    {
        match compile(source) {
            Ok(re) => Ok(Pattern { source: source.to_string(), re }),
            Err(_) => Err(ExtractError::BadPattern(source.to_string())),
        }
    }

    /// The text the pattern was compiled from.
    pub fn as_str(&self) -> (r: &str)
        ensures
            r@ == self.source(),
    {
        self.source.as_str()
    }
}


/// Whether `c` is an ASCII decimal digit.
pub open spec fn is_digit(c: char) -> bool {
    '0' as u32 <= c as u32 && c as u32 <= '9' as u32
}

/// The value of the decimal digit `c`.
pub open spec fn digit_value(c: char) -> nat {
    ((c as u32) - ('0' as u32)) as nat
}

/// The value of a sequence of decimal digits, most significant first.
pub open spec fn digits_value(s: Seq<char>) -> nat
    decreases s.len(),
{
    if s.len() == 0 {
        0
    } else {
        digits_value(s.drop_last()) * 10 + digit_value(s.last())
    }
}

/// Whether `s` is one or more decimal digits.
pub open spec fn all_digits(s: Seq<char>) -> bool {
    s.len() > 0 && forall|i: int| 0 <= i < s.len() ==> is_digit(#[trigger] s[i])
}

/// `s` without one leading plus sign, if it has one.
pub open spec fn unsigned_digits(s: Seq<char>) -> Seq<char> {
    if s.len() > 0 && s[0] == '+' {
        s.drop_first()
    } else {
        s
    }
}

/// The unsigned 32-bit integer written in `s`: an optional plus sign, then
/// decimal digits whose value fits.
pub open spec fn unsigned_value(s: Seq<char>) -> Option<u32> {
    let d = unsigned_digits(s);
    if all_digits(d) && digits_value(d) <= u32::MAX {
        Some(digits_value(d) as u32)
    } else {
        None
    }
}

/// `s` without one trailing percent sign, if it has one.
pub open spec fn strip_percent(s: Seq<char>) -> Seq<char> {
    if s.len() > 0 && s.last() == '%' {
        s.drop_last()
    } else {
        s
    }
}

/// The reading that a match stands for.
pub open spec fn percentage_of(m: Seq<char>) -> Option<u32> {
    unsigned_value(strip_percent(m))
}

proof fn lemma_digits_value_grows(s: Seq<char>, i: int, j: int)
    requires
        0 <= i <= j <= s.len(),
    ensures
        digits_value(s.subrange(0, i)) <= digits_value(s.subrange(0, j)),
    decreases j - i,
{
    if i < j {
        lemma_digits_value_grows(s, i, j - 1);
        assert(s.subrange(0, j).drop_last() =~= s.subrange(0, j - 1));
    }
}

/// The characters of `s`, in order.
pub fn chars_of(s: &str) -> (v: Vec<char>)
    ensures
        v@ == s@,
{
    let mut v: Vec<char> = Vec::new();
    for c in it: s.chars()
        invariant
            it.seq() == s@,
            v@ == s@.subrange(0, it.index() as int),
    {
        v.push(c);
    }
    assert(v@ =~= s@);
    v
}


/// Reads the reading that a match stands for: one trailing percent sign is
/// dropped and the rest is parsed as an unsigned 32-bit integer.
pub fn parse_percentage(m: &str) -> (r: Result<u32, ExtractError>)
    ensures
        match percentage_of(m@) {
            Some(v) => r matches Ok(x) && x == v,
            None => r matches Err(ExtractError::NotANumber(t)) && t@ == m@,
        },
{
    let cs = chars_of(m);
    let mut end: usize = cs.len();
    if end > 0 && cs[end - 1] == '%' {
        end = end - 1;
    }
    let mut start: usize = 0;
    if start < end && cs[0] == '+' {
        start = 1;
    }
    let ghost d = cs@.subrange(start as int, end as int);
    assert(d =~= unsigned_digits(strip_percent(m@)));
    if start >= end {
        return Err(ExtractError::NotANumber(m.to_string()));
    }
    let mut acc: u64 = 0;
    let mut i: usize = start;
    while i < end
        invariant
            start <= i <= end <= cs.len(),
            d == cs@.subrange(start as int, end as int),
            d == unsigned_digits(strip_percent(m@)),
            acc == digits_value(d.subrange(0, i - start)),
            acc <= u32::MAX,
            forall|k: int| 0 <= k < i - start ==> is_digit(#[trigger] d[k]),
        decreases end - i,
    {
        let c = cs[i];
        let cv: u32 = c as u32;
        if cv < '0' as u32 || cv > '9' as u32 {
            assert(!is_digit(d[i - start]));
            return Err(ExtractError::NotANumber(m.to_string()));
        }
        assert(d.subrange(0, i - start + 1).drop_last() =~= d.subrange(0, i - start));
        acc = acc * 10 + (cv - '0' as u32) as u64;
        if acc > u32::MAX as u64 {
            proof {
                lemma_digits_value_grows(d, i - start + 1, d.len() as int);
                assert(d.subrange(0, d.len() as int) =~= d);
            }
            return Err(ExtractError::NotANumber(m.to_string()));
        }
        i = i + 1;
    }
    assert(d.subrange(0, d.len() as int) =~= d);
    Ok(acc as u32)
}

/// The text of the first match of `pattern` in `raw`.
pub fn extract_percentage(raw: &str, pattern: &Pattern) -> (r: Option<String>)
    ensures
        match r {
            Some(m) => leftmost_match(pattern.source(), raw@) == Some(m@),
            None => leftmost_match(pattern.source(), raw@) is None,
        },
{
    find_first(pattern, raw)
}

/// The reading that `raw` holds under `pattern`, given the pattern's first
/// match in it.
pub open spec fn reading_in(found: Option<Seq<char>>) -> Option<u32> {
    match found {
        Some(m) => percentage_of(m),
        None => None,
    }
}

/// The reading in command output `raw` under `pattern`: the first match of
/// the whole pattern, without a trailing percent sign, as an integer.
pub fn reading_from_output(raw: &str, pattern: &Pattern) -> (r: Result<u32, ExtractError>)
    ensures
        match leftmost_match(pattern.source(), raw@) {
            None => r matches Err(ExtractError::NoMatch),
            Some(m) => match percentage_of(m) {
                Some(v) => r matches Ok(x) && x == v,
                None => r matches Err(ExtractError::NotANumber(t)) && t@ == m,
            },
        },
{
    match extract_percentage(raw, pattern) {
        Some(m) => parse_percentage(m.as_str()),
        None => Err(ExtractError::NoMatch),
    }
}

} // verus!
