use crate::backend;
use crate::error::DmaError;
use vstd::prelude::*;
use vstd::string::StringExecFns;
use vstd::utf8::decode_utf8;
use vstd::utf8::valid_utf8;

verus! {

/// Index of the first null byte in `bytes`, or `bytes.len()` if there is
/// none.
pub open spec fn first_null(bytes: Seq<u8>) -> int
    decreases bytes.len(),
{
    if bytes.len() == 0 {
        0
    } else if bytes[0] == 0 {
        0
    } else {
        1 + first_null(bytes.drop_first())
    }
}

/// The bytes of `bytes` before its first null byte (all of `bytes` if it
/// holds no null byte).
pub open spec fn c_prefix(bytes: Seq<u8>) -> Seq<u8> {
    bytes.subrange(0, first_null(bytes))
}

/// An index below which no byte is null, and which holds a null byte or is
/// the length, is exactly `first_null`.
proof fn lemma_first_null_at(bytes: Seq<u8>, n: int)
    requires
        0 <= n <= bytes.len(),
        forall|j: int| 0 <= j < n ==> bytes[j] != 0,
        n < bytes.len() ==> bytes[n] == 0,
    ensures
        first_null(bytes) == n,
    decreases n,
{
    if n > 0 {
        lemma_first_null_at(bytes.drop_first(), n - 1);
    }
}

/// `prefix` is the leading part of `s`.
pub open spec fn has_prefix(s: Seq<char>, prefix: Seq<char>) -> bool {
    s.len() >= prefix.len() && s.subrange(0, prefix.len() as int) == prefix
}

/// Appends `detail` to `prefix`: the result carries the whole of `prefix`
/// at its front, so an error message built this way provably names the
/// context that `prefix` holds.
pub fn prefixed_message(prefix: String, detail: &str) -> (r: String)
    ensures
        r@ == prefix@ + detail@,
        has_prefix(r@, prefix@),
{
    let ghost p = prefix@;
    let mut msg = prefix;
    msg.append(detail);
    proof {
        assert((p + detail@).subrange(0, p.len() as int) =~= p);
    }
    msg
}

/// The character for one digit value below sixteen, upper case.
pub open spec fn digit_char(d: nat) -> char {
    if d == 0 {
        '0'
    } else if d == 1 {
        '1'
    } else if d == 2 {
        '2'
    } else if d == 3 {
        '3'
    } else if d == 4 {
        '4'
    } else if d == 5 {
        '5'
    } else if d == 6 {
        '6'
    } else if d == 7 {
        '7'
    } else if d == 8 {
        '8'
    } else if d == 9 {
        '9'
    } else if d == 10 {
        'A'
    } else if d == 11 {
        'B'
    } else if d == 12 {
        'C'
    } else if d == 13 {
        'D'
    } else if d == 14 {
        'E'
    } else {
        'F'
    }
}

/// The hexadecimal digits of `v`, most significant first, upper case, with
/// no leading zeroes (a single `0` for zero itself).
pub open spec fn hex_digits(v: nat) -> Seq<char>
    decreases v,
{
    if v < 16 {
        seq![digit_char(v)]
    } else {
        hex_digits(v / 16) + seq![digit_char(v % 16)]
    }
}

/// The decimal digits of `v`, most significant first, with no leading
/// zeroes (a single `0` for zero itself).
pub open spec fn dec_digits(v: nat) -> Seq<char>
    decreases v,
{
    if v < 10 {
        seq![digit_char(v)]
    } else {
        dec_digits(v / 10) + seq![digit_char(v % 10)]
    }
}

/// Returns the character for one digit value below sixteen.
fn digit_str(d: u64) -> (r: &'static str)
    requires
        d < 16,
    ensures
        r@ =~= seq![digit_char(d as nat)],
{
    proof {
        reveal_strlit("0");
        reveal_strlit("1");
        reveal_strlit("2");
        reveal_strlit("3");
        reveal_strlit("4");
        reveal_strlit("5");
        reveal_strlit("6");
        reveal_strlit("7");
        reveal_strlit("8");
        reveal_strlit("9");
        reveal_strlit("A");
        reveal_strlit("B");
        reveal_strlit("C");
        reveal_strlit("D");
        reveal_strlit("E");
        reveal_strlit("F");
    }
    match d {
        0 => "0",
        1 => "1",
        2 => "2",
        3 => "3",
        4 => "4",
        5 => "5",
        6 => "6",
        7 => "7",
        8 => "8",
        9 => "9",
        10 => "A",
        11 => "B",
        12 => "C",
        13 => "D",
        14 => "E",
        _ => "F",
    }
}

/// Renders `v` in upper-case hexadecimal, as error messages quote an
/// address.
pub fn hex_string(v: u64) -> (r: String)
    ensures
        r@ == hex_digits(v as nat),
    decreases v,
{
    let low: u64 = v % 16;
    if v < 16 {
        String::from_str(digit_str(low))
    } else {
        proof {
            assert(v / 16 < v) by (nonlinear_arith)
                requires
                    v >= 16,
            ;
        }
        let mut s = hex_string(v / 16);
        s.append(digit_str(low));
        s
    }
}

/// Renders `v` in decimal, as error messages quote a count or a pid.
pub fn dec_string(v: u64) -> (r: String)
    ensures
        r@ == dec_digits(v as nat),
    decreases v,
{
    let low: u64 = v % 10;
    if v < 10 {
        String::from_str(digit_str(low))
    } else {
        proof {
            assert(v / 10 < v) by (nonlinear_arith)
                requires
                    v >= 10,
            ;
        }
        let mut s = dec_string(v / 10);
        s.append(digit_str(low));
        s
    }
}

/// Decodes a C-style string captured from target memory: the bytes before
/// the first null byte (or the whole buffer when it has none), as UTF-8.
/// Fails, with a decoding error, exactly when that prefix is not valid
/// UTF-8; lossy decoding is never applied.
pub fn decode_c_string(bytes: &[u8]) -> (r: Result<String, DmaError>)
    ensures
        r is Ok <==> valid_utf8(c_prefix(bytes@)),
        r matches Ok(s) ==> s@ == decode_utf8(c_prefix(bytes@)),
        r matches Err(e) ==> e is DecodingError,
{
    let len: usize = bytes.len();
    let mut n: usize = 0;
    while n < len && bytes[n] != 0
        invariant
            0 <= n <= len,
            len == bytes@.len(),
            forall|j: int| 0 <= j < n ==> bytes@[j] != 0,
        decreases len - n,
    {
        n = n + 1;
    }
    proof {
        lemma_first_null_at(bytes@, n as int);
    }
    let mut prefix: Vec<u8> = Vec::new();
    let mut j: usize = 0;
    while j < n
        invariant
            0 <= j <= n <= len,
            len == bytes@.len(),
            prefix@ =~= bytes@.subrange(0, j as int),
        decreases n - j,
    {
        prefix.push(bytes[j]);
        j = j + 1;
    }
    proof {
        assert(prefix@ =~= c_prefix(bytes@));
    }
    match backend::utf8_to_string(prefix) {
        Some(s) => Ok(s),
        None => Err(DmaError::DecodingError(String::from_str("string bytes are not valid UTF-8"))),
    }
}

} // verus!
