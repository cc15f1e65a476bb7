use vstd::prelude::*;
use vstd::string::StringSliceAdditionalSpecFns;

verus! {

/// Whether a byte is an ASCII decimal digit.
pub open spec fn is_digit(b: u8) -> bool {
    48 <= b <= 57
}

/// Whether every byte of `s` is an ASCII decimal digit.
pub open spec fn all_digits(s: Seq<u8>) -> bool {
    forall|i: int| 0 <= i < s.len() ==> is_digit(#[trigger] s[i])
}

/// The number that a run of decimal digits writes, most significant first.
pub open spec fn digits_value(s: Seq<u8>) -> nat
    decreases s.len(),
{
    if s.len() == 0 {
        0
    } else {
        digits_value(s.drop_last()) * 10 + (s.last() - 48) as nat
    }
}

/// The digits of a version text: the text without one leading `+`.
pub open spec fn version_digits(s: Seq<u8>) -> Seq<u8> {
    if s.len() > 0 && s[0] == 43 {
        s.subrange(1, s.len() as int)
    } else {
        s
    }
}

/// The ledger version that a text denotes: an optional `+`, then at least one
/// decimal digit, the whole no larger than `u64::MAX`. Any other text denotes none.
pub open spec fn version_of_text(s: Seq<u8>) -> Option<u64> {
    let d = version_digits(s);
    if d.len() > 0 && all_digits(d) && digits_value(d) <= u64::MAX {
        Some(digits_value(d) as u64)
    } else {
        None
    }
}

/// A longer run of digits never writes a smaller number than its own beginning.
pub proof fn lemma_digits_value_prefix(s: Seq<u8>, j: int)
    requires
        0 <= j <= s.len(),
        all_digits(s),
    ensures
        digits_value(s.subrange(0, j)) <= digits_value(s),
    decreases s.len() - j,
{
    if j == s.len() {
        assert(s.subrange(0, j) =~= s);
    } else {
        lemma_digits_value_prefix(s, j + 1);
        let longer = s.subrange(0, j + 1);
        assert(longer.drop_last() =~= s.subrange(0, j));
        assert(is_digit(s[j]));
        assert(longer.last() == s[j]);
    }
}

/// Reads a ledger version from the bytes of its text.
pub fn parse_version_bytes(bytes: &[u8]) -> (version: Option<u64>)
    ensures
        version == version_of_text(bytes@),
{
    let n: usize = bytes.len();
    let start: usize = if n > 0 && bytes[0] == 43 { 1 } else { 0 };
    if start == n {
        return None;
    }
    let ghost d = version_digits(bytes@);
    assert(d =~= bytes@.subrange(start as int, n as int));
    let mut acc: u64 = 0;
    let mut i: usize = start;
    while i < n
        invariant
            start <= i <= n,
            n == bytes@.len(),
            d == version_digits(bytes@),
            d == bytes@.subrange(start as int, n as int),
            all_digits(d.subrange(0, i - start)),
            acc == digits_value(d.subrange(0, i - start)),
        decreases n - i,
    {
        let b: u8 = bytes[i];
        assert(d[i - start] == b);
        if b < 48 || b > 57 {
            assert(!is_digit(d[i - start]));
            return None;
        }
        let digit: u64 = (b - 48) as u64;
        let ghost next = d.subrange(0, i - start + 1);
        assert(next.drop_last() =~= d.subrange(0, i - start));
        assert(next.last() == b);
        assert(digits_value(next) == acc * 10 + digit);
        if acc > (u64::MAX - digit) / 10 {
            proof {
                assert(digits_value(next) > u64::MAX);
                if all_digits(d) {
                    lemma_digits_value_prefix(d, i - start + 1);
                }
            }
            return None;
        }
        acc = acc * 10 + digit;
        assert forall|k: int| 0 <= k < next.len() implies is_digit(#[trigger] next[k]) by {
            if k < i - start {
                assert(next[k] == d.subrange(0, i - start)[k]);
            }
        }
        i = i + 1;
    }
    assert(d.subrange(0, n - start) =~= d);
    Some(acc)
}

/// Reads a ledger version from its text.
pub fn parse_version(text: &str) -> (version: Option<u64>)
    ensures
        version == version_of_text(text.spec_bytes()),
{
    parse_version_bytes(text.as_bytes())
}

/// How the version of a query is settled against the latest version known.
#[derive(PartialEq, Eq, Structural, Clone, Copy, Debug)]
pub enum VersionOutcome {
    /// The query is answered at this version, which is not past the latest.
    At(u64),
    /// The text given for the version denotes none.
    Malformed,
    /// The version asked for lies past the latest one.
    Beyond { requested: u64, latest: u64 },
}

/// The outcome for a requested version text, or for none, against `latest`:
/// no request means the latest version; a request must denote a version, and
/// that version must not lie past `latest`.
pub open spec fn version_outcome(requested: Option<Seq<u8>>, latest: u64) -> VersionOutcome {
    match requested {
        None => VersionOutcome::At(latest),
        Some(text) => match version_of_text(text) {
            None => VersionOutcome::Malformed,
            Some(v) => if v > latest {
                VersionOutcome::Beyond { requested: v, latest }
            } else {
                VersionOutcome::At(v)
            },
        },
    }
}

/// Settles the version of a query. Nothing is read or changed.
pub fn resolve_version(requested: Option<&str>, latest: u64) -> (outcome: VersionOutcome)
    ensures
        outcome == version_outcome(
            match requested {
                Some(text) => Some(text.spec_bytes()),
                None => None,
            },
            latest,
        ),
{
    match requested {
        None => VersionOutcome::At(latest),
        Some(text) => match parse_version(text) {
            None => VersionOutcome::Malformed,
            Some(v) => if v > latest {
                VersionOutcome::Beyond { requested: v, latest }
            } else {
                VersionOutcome::At(v)
            },
        },
    }
}

/// The decimal digit of a value below ten.
pub open spec fn decimal_digit(d: nat) -> char {
    ('0' as nat + d) as char
}

/// A number in decimal digits, without leading zeros; zero is `0`.
pub open spec fn decimal(n: nat) -> Seq<char>
    decreases n,
{
    if n < 10 {
        seq![decimal_digit(n)]
    } else {
        decimal(n / 10).push(decimal_digit(n % 10))
    }
}

/// Calls `to_string` of std on the number. Believed without proof, from
/// std's documentation: it writes the number in decimal digits, with no sign
/// and no leading zeros.
#[verifier::external_body]
fn decimal_text(n: u64) -> (text: String)
    ensures
        text@ == decimal(n as nat),
{
    n.to_string()
}

/// A ledger version as text.
pub fn version_text(version: u64) -> (text: String)
    ensures
        text@ == decimal(version as nat),
{
    decimal_text(version)
}

} // verus!
