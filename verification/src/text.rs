//! Decimal text for speed figures.
//!
//! Reported speeds are carried as integers in thousandths of a unit;
//! for a report or a web page they are rendered with two decimal
//! places, rounded half up, with either a point or a comma as the
//! decimal separator (the upstream data sink expects a comma).

use vstd::prelude::*;

verus! {

use vstd::string::StringExecFns;
use vstd::utf8::{decode_utf8, valid_utf8};

/// Relies on `core::str::from_utf8`: it succeeds exactly on valid
/// UTF-8 input and hands back the decoded text.
#[verifier::external_body]
pub(crate) fn utf8_to_string(data: &[u8]) -> (r: Option<String>)
    ensures
        r is Some <==> valid_utf8(data@),
        r matches Some(s) ==> s@ == decode_utf8(data@),
{
    core::str::from_utf8(data).ok().map(|s| s.to_owned())
}

/// The bytes of a buffer up to (and not including) its first NUL.
pub open spec fn spec_nul_prefix(bytes: Seq<u8>) -> Seq<u8>
    decreases bytes.len(),
{
    if bytes.len() == 0 {
        Seq::empty()
    } else if bytes[0] == 0 {
        Seq::empty()
    } else {
        seq![bytes[0]] + spec_nul_prefix(bytes.skip(1))
    }
}

/// The text stored in a fixed NUL-padded configuration buffer: the
/// bytes before the first NUL, decoded as UTF-8.  Nothing is returned
/// when the buffer holds no NUL at all, or when the prefix is not
/// valid UTF-8.
pub fn string_until_nul(buf: &[u8]) -> (r: Option<String>)
    ensures
        r is Some <==> (exists|i: int| 0 <= i < buf@.len() && buf@[i] == 0) && valid_utf8(
            spec_nul_prefix(buf@),
        ),
        r matches Some(s) ==> s@ == decode_utf8(spec_nul_prefix(buf@)),
{
    let mut prefix: Vec<u8> = Vec::new();
    let mut i: usize = 0;
    while i < buf.len()
        invariant
            i <= buf@.len(),
            prefix@ == buf@.take(i as int),
            forall|j: int| 0 <= j < i ==> buf@[j] != 0,
        decreases buf@.len() - i,
    {
        if buf[i] == 0 {
            proof {
                lemma_nul_prefix_is_take(buf@, i as int);
            }
            return utf8_to_string(prefix.as_slice());
        }
        proof {
            assert(buf@.take(i + 1) =~= buf@.take(i as int).push(buf@[i as int]));
        }
        prefix.push(buf[i]);
        i = i + 1;
    }
    None
}

/// When position `i` holds the first NUL, the prefix before it is
/// exactly the first `i` bytes.
proof fn lemma_nul_prefix_is_take(bytes: Seq<u8>, i: int)
    requires
        0 <= i < bytes.len(),
        bytes[i] == 0,
        forall|j: int| 0 <= j < i ==> bytes[j] != 0,
    ensures
        spec_nul_prefix(bytes) == bytes.take(i),
    decreases i,
{
    if i == 0 {
        assert(bytes.take(0) =~= Seq::<u8>::empty());
    } else {
        assert(bytes.skip(1)[i - 1] == bytes[i]);
        assert(forall|j: int| 0 <= j < i - 1 ==> #[trigger] bytes.skip(1)[j] == bytes[j + 1]);
        lemma_nul_prefix_is_take(bytes.skip(1), i - 1);
        assert(bytes.take(i) =~= seq![bytes[0]] + bytes.skip(1).take(i - 1));
    }
}

/// The character of one decimal digit.
pub open spec fn digit_char(d: int) -> char
    recommends
        0 <= d < 10,
{
    if d == 0 {
        '0'
    } else if d == 1 {
        '1'
    } else if d == 2 {
        '2'
    } else if d == 3 {
        '3'
    } else if d == 4 {
        '4'
    } else if d == 5 {
        '5'
    } else if d == 6 {
        '6'
    } else if d == 7 {
        '7'
    } else if d == 8 {
        '8'
    } else {
        '9'
    }
}

/// The decimal text of a non-negative number, most significant digit
/// first, without leading zeros (a single zero for zero itself).
pub open spec fn spec_decimal(n: int) -> Seq<char>
    recommends
        n >= 0,
    decreases n,
{
    if n < 10 {
        seq![digit_char(n)]
    } else {
        spec_decimal(n / 10).push(digit_char(n % 10))
    }
}

/// Two-digit text of a number below one hundred, zero padded.
pub open spec fn spec_two_digits(n: int) -> Seq<char>
    recommends
        0 <= n < 100,
{
    seq![digit_char(n / 10), digit_char(n % 10)]
}

/// A speed in thousandths rendered with two decimal places, rounded
/// half up, with the given separator.
pub open spec fn spec_speed_text(milli: int, sep: char) -> Seq<char> {
    let centi = (milli + 5) / 10;
    spec_decimal(centi / 100) + seq![sep] + spec_two_digits(centi % 100)
}

/// The one-character string of a decimal digit.
fn digit_str(d: u64) -> (r: &'static str)
    requires
        d < 10,
    ensures
        r@ =~= seq![digit_char(d as int)],
{
    proof {
        reveal_strlit("0");
        reveal_strlit("1");
        reveal_strlit("2");
        reveal_strlit("3");
        reveal_strlit("4");
        reveal_strlit("5");
        reveal_strlit("6");
        reveal_strlit("7");
        reveal_strlit("8");
        reveal_strlit("9");
    }
    if d == 0 {
        "0"
    } else if d == 1 {
        "1"
    } else if d == 2 {
        "2"
    } else if d == 3 {
        "3"
    } else if d == 4 {
        "4"
    } else if d == 5 {
        "5"
    } else if d == 6 {
        "6"
    } else if d == 7 {
        "7"
    } else if d == 8 {
        "8"
    } else {
        "9"
    }
}

/// The decimal text of a number.
pub fn u64_to_string(n: u64) -> (r: String)
    ensures
        r@ == spec_decimal(n as int),
    decreases n,
{
    if n < 10 {
        String::from_str(digit_str(n))
    } else {
        let prefix = u64_to_string(n / 10);
        let r = prefix.concat(digit_str(n % 10));
        proof {
            assert(r@ =~= spec_decimal(n as int));
        }
        r
    }
}

/// The zero-padded two-digit text of a number below one hundred.
fn two_digit_string(n: u64) -> (r: String)
    requires
        n < 100,
    ensures
        r@ == spec_two_digits(n as int),
{
    let r = String::from_str(digit_str(n / 10)).concat(digit_str(n % 10));
    proof {
        assert(r@ =~= spec_two_digits(n as int));
    }
    r
}

/// Render a speed in thousandths with two decimal places, rounded half
/// up; a comma as the separator when `decimal_comma` is set, a point
/// otherwise.
pub fn speed_text(milli: u64, decimal_comma: bool) -> (r: String)
    requires
        milli <= u64::MAX - 5,
    ensures
        decimal_comma ==> r@ == spec_speed_text(milli as int, ','),
        !decimal_comma ==> r@ == spec_speed_text(milli as int, '.'),
{
    proof {
        reveal_strlit(",");
        reveal_strlit(".");
    }
    let centi = (milli + 5) / 10;
    let whole = u64_to_string(centi / 100);
    let frac = two_digit_string(centi % 100);
    let sep = if decimal_comma {
        ","
    } else {
        "."
    };
    let r = whole.concat(sep).concat(frac.as_str());
    proof {
        if decimal_comma {
            assert(r@ =~= spec_speed_text(milli as int, ','));
        } else {
            assert(r@ =~= spec_speed_text(milli as int, '.'));
        }
    }
    r
}

} // verus!
