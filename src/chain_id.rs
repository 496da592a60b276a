use std::num::ParseIntError;
use vstd::prelude::*;

verus! {

#[verifier::external_type_specification]
#[verifier::external_body]
pub struct ExParseIntError(std::num::ParseIntError);

pub open spec fn is_digit(c: char) -> bool {
    '0' <= c && c <= '9'
}

/// The digits of a decimal numeral, past an optional leading `+`.
pub open spec fn unsigned_digits(s: Seq<char>) -> Seq<char> {
    if s.len() > 0 && s[0] == '+' {
        s.drop_first()
    } else {
        s
    }
}

/// The value of a sequence of decimal digits, most significant first.
pub open spec fn digits_value(d: Seq<char>) -> nat
    decreases d.len(),
{
    if d.len() == 0 {
        0
    } else {
        digits_value(d.drop_last()) * 10 + (d.last() as nat - '0' as nat) as nat
    }
}

pub open spec fn all_digits(d: Seq<char>) -> bool {
    forall|i: int| 0 <= i < d.len() ==> is_digit(#[trigger] d[i])
}

/// `s` is an optional `+` followed by one or more decimal digits whose value
/// fits in a `u64`.
pub open spec fn is_u64_numeral(s: Seq<char>) -> bool {
    let d = unsigned_digits(s);
    d.len() > 0 && all_digits(d) && digits_value(d) <= u64::MAX
}

/// Relies on `<u64 as FromStr>::from_str`: it accepts exactly an optional `+`
/// followed by decimal digits whose value fits in a `u64`, and returns that value.
#[verifier::external_body]
fn parse_u64(s: &str) -> (r: Result<u64, ParseIntError>)
    ensures
        r is Ok <==> is_u64_numeral(s@),
        r matches Ok(n) ==> n == digits_value(unsigned_digits(s@)),
{
    s.parse::<u64>()
}

/// The index of the last `-` in `s`, or -1 where there is none.
pub open spec fn last_dash(s: Seq<char>) -> int
    decreases s.len(),
{
    if s.len() == 0 {
        -1
    } else if s.last() == '-' {
        s.len() - 1
    } else {
        last_dash(s.drop_last())
    }
}

/// What follows the last `-` of an identifier.
pub open spec fn revision_text(s: Seq<char>) -> Seq<char> {
    s.subrange(last_dash(s) + 1, s.len() as int)
}

/// The revision that an identifier `<name>-<revision>` carries, if it has one.
pub open spec fn revision_of(s: Seq<char>) -> Option<u64> {
    if last_dash(s) >= 0 && is_u64_numeral(revision_text(s)) {
        Some(digits_value(unsigned_digits(revision_text(s))) as u64)
    } else {
        None
    }
}

pub proof fn lemma_last_dash_bounds(s: Seq<char>)
    ensures
        -1 <= last_dash(s) < s.len(),
        last_dash(s) >= 0 ==> s[last_dash(s)] == '-',
        forall|i: int| last_dash(s) < i < s.len() ==> s[i] != '-',
    decreases s.len(),
{
    if s.len() > 0 && s.last() != '-' {
        lemma_last_dash_bounds(s.drop_last());
        assert forall|i: int| last_dash(s) < i < s.len() - 1 implies s[i] != '-' by {
            assert(s.drop_last()[i] == s[i]);
        }
    }
}

/// A chain identifier that is not `<name>-<revision>` with a numeric revision.
#[derive(Debug)]
pub struct ChainIdParseError {
    /// The identifier as the chain reported it.
    pub found: String,
    /// Why the revision did not parse, where there was one to parse.
    pub source: Option<ParseIntError>,
}

impl ChainIdParseError {
    /// A description of the failure, naming the identifier that was found.
    pub fn message(&self) -> String {
        let mut m = String::from_str(
            "unable to parse chain id: expected format `<chain>-<revision-number>`, found `",
        );
        m.append(self.found.as_str());
        m.append("`");
        m
    }
}

/// The revision number of a chain identifier: the decimal number after its
/// last `-` (the name before it may itself hold dashes).
pub fn parse_chain_revision(chain_id: &str) -> (r: Result<u64, ChainIdParseError>)
    ensures
        r is Ok <==> revision_of(chain_id@) is Some,
        r matches Ok(n) ==> revision_of(chain_id@) == Some(n),
        r matches Err(e) ==> e.found@ == chain_id@ && (e.source is None <==> last_dash(
            chain_id@,
        ) < 0),
{
    let len = chain_id.unicode_len();
    let mut i: usize = len;
    assert(chain_id@.subrange(0, len as int) =~= chain_id@);
    while i > 0
        invariant
            i <= len == chain_id@.len(),
            forall|j: int| i <= j < len ==> chain_id@[j] != '-',
            last_dash(chain_id@) == last_dash(chain_id@.subrange(0, i as int)),
        ensures
            i <= len,
            last_dash(chain_id@) == last_dash(chain_id@.subrange(0, i as int)),
            i > 0 ==> chain_id@.subrange(0, i as int).last() == '-',
        decreases i,
    {
        if chain_id.get_char(i - 1) == '-' {
            assert(chain_id@.subrange(0, i as int).last() == '-');
            break;
        }
        proof {
            assert(chain_id@.subrange(0, i as int).drop_last() =~= chain_id@.subrange(
                0,
                i - 1,
            ));
        }
        i = i - 1;
    }
    proof {
        lemma_last_dash_bounds(chain_id@);
    }
    if i == 0 {
        assert(chain_id@.subrange(0, 0) =~= Seq::<char>::empty());
        return Err(ChainIdParseError { found: chain_id.to_string(), source: None });
    }
    assert(last_dash(chain_id@) == i - 1);
    let revision = chain_id.substring_char(i, len);
    assert(revision@ =~= revision_text(chain_id@));
    match parse_u64(revision) {
        Ok(n) => Ok(n),
        Err(e) => Err(ChainIdParseError { found: chain_id.to_string(), source: Some(e) }),
    }
}


proof fn lemma_last_dash_of_suffix(p: Seq<char>, q: Seq<char>)
    requires
        p.len() > 0,
        p.last() == '-',
        forall|i: int| 0 <= i < q.len() ==> q[i] != '-',
    ensures
        last_dash(p + q) == p.len() - 1,
    decreases q.len(),
{
    if q.len() == 0 {
        assert(p + q =~= p);
    } else {
        assert((p + q).drop_last() =~= p + q.drop_last());
        assert((p + q).last() == q.last());
        lemma_last_dash_of_suffix(p, q.drop_last());
    }
}

/// Any identifier `<name>-<revision>`, where the revision is written in
/// decimal digits and fits in a `u64`, yields that revision, whatever dashes
/// the name holds.
pub proof fn lemma_identifier_revision(name: Seq<char>, digits: Seq<char>)
    requires
        digits.len() > 0,
        all_digits(digits),
        digits_value(digits) <= u64::MAX,
    ensures
        revision_of(name + seq!['-'] + digits) == Some(digits_value(digits) as u64),
{
    let s = name + seq!['-'] + digits;
    let p = name + seq!['-'];
    assert(s =~= p + digits);
    assert forall|i: int| 0 <= i < digits.len() implies digits[i] != '-' by {
        assert(is_digit(digits[i]));
    }
    lemma_last_dash_of_suffix(p, digits);
    assert(revision_text(s) =~= digits);
    assert(is_digit(digits[0]));
    assert(unsigned_digits(digits) == digits);
}

} // verus!
