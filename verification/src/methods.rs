//! The computations behind the methods the extension class exposes to the
//! engine: the greeting message that `test_method` returns and the integer
//! sum that `add` returns. The engine-value conversions around them (variant
//! decoding, the engine's string type, the float length of a vector) happen
//! at the boundary; these functions work on the plain values handed across.

use vstd::prelude::*;

verus! {

/// The character for a single decimal digit.
pub open spec fn spec_digit_char(d: nat) -> char {
    ((48 + d) as u8) as char
}

/// The decimal representation of a natural number, most significant digit
/// first, with no leading zeros (a single `'0'` for zero).
pub open spec fn spec_decimal(n: nat) -> Seq<char>
    decreases n,
{
    if n < 10 {
        seq![spec_digit_char(n)]
    } else {
        spec_decimal(n / 10) + seq![spec_digit_char(n % 10)]
    }
}

/// The single-character string for a decimal digit.
fn digit_str(d: u64) -> (r: &'static str)
    requires
        d < 10,
    ensures
        r@ =~= seq![spec_digit_char(d as nat)],
{
    proof {
        reveal_strlit("0");
        reveal_strlit("1");
        reveal_strlit("2");
        reveal_strlit("3");
        reveal_strlit("4");
        reveal_strlit("5");
        reveal_strlit("6");
        reveal_strlit("7");
        reveal_strlit("8");
        reveal_strlit("9");
    }
    match d {
        0 => "0",
        1 => "1",
        2 => "2",
        3 => "3",
        4 => "4",
        5 => "5",
        6 => "6",
        7 => "7",
        8 => "8",
        _ => "9",
    }
}

/// Formats an unsigned integer in decimal.
pub fn u64_to_decimal(n: u64) -> (s: String)
    ensures
        s@ == spec_decimal(n as nat),
    decreases n,
{
    if n < 10 {
        String::from_str(digit_str(n))
    } else {
        let mut s = u64_to_decimal(n / 10);
        s.append(digit_str(n % 10));
        proof {
            assert(s@ =~= spec_decimal(n as nat));
        }
        s
    }
}

/// The message `test_method` answers with, for the integer and string
/// arguments the engine passed in.
pub open spec fn spec_test_method_message(some_int: nat, some_string: Seq<char>) -> Seq<char> {
    "Hello from `RustTest.test_method()`, you passed some_int="@ + spec_decimal(some_int)
        + " and some_string="@ + some_string
}

/// Builds the greeting that `test_method` returns to the engine.
pub fn test_method_message(some_int: u64, some_string: &str) -> (msg: String)
    ensures
        msg@ == spec_test_method_message(some_int as nat, some_string@),
{
    let mut msg = String::from_str("Hello from `RustTest.test_method()`, you passed some_int=");
    let int_part = u64_to_decimal(some_int);
    msg.append(int_part.as_str());
    msg.append(" and some_string=");
    msg.append(some_string);
    proof {
        assert(msg@ =~= spec_test_method_message(some_int as nat, some_string@));
    }
    msg
}

/// The sum `add` exposes: both integer arguments widened, plus the length of
/// the vector argument, already truncated to an integer at the boundary.
pub fn add(a: i32, b: i32, c_length: i64) -> (r: i64)
    requires
        i64::MIN <= a + b + c_length <= i64::MAX,
    ensures
        r == a + b + c_length,
{
    a as i64 + b as i64 + c_length
}

} // verus!
