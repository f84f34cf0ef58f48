//! Text that crosses the C boundary, and the decimal numbers in it.
use vstd::prelude::*;
use vstd::utf8::*;

verus! {

/// The digit `d` of a decimal number.
pub open spec fn digit(d: nat) -> Seq<char> {
    if d == 0 {
        "0"@
    } else if d == 1 {
        "1"@
    } else if d == 2 {
        "2"@
    } else if d == 3 {
        "3"@
    } else if d == 4 {
        "4"@
    } else if d == 5 {
        "5"@
    } else if d == 6 {
        "6"@
    } else if d == 7 {
        "7"@
    } else if d == 8 {
        "8"@
    } else {
        "9"@
    }
}

/// `n` in decimal, without leading zeros.
pub open spec fn decimal(n: nat) -> Seq<char>
    decreases n,
{
    if n < 10 {
        digit(n)
    } else {
        decimal(n / 10) + digit(n % 10)
    }
}

/// `n` in decimal, with a leading minus sign where it is negative.
pub open spec fn signed_decimal(n: int) -> Seq<char> {
    if n < 0 {
        "-"@ + decimal((-n) as nat)
    } else {
        decimal(n as nat)
    }
}

fn push_digit(out: &mut String, d: u64)
    requires
        d < 10,
    ensures
        final(out)@ == old(out)@ + digit(d as nat),
{
    if d == 0 {
        out.append("0");
    } else if d == 1 {
        out.append("1");
    } else if d == 2 {
        out.append("2");
    } else if d == 3 {
        out.append("3");
    } else if d == 4 {
        out.append("4");
    } else if d == 5 {
        out.append("5");
    } else if d == 6 {
        out.append("6");
    } else if d == 7 {
        out.append("7");
    } else if d == 8 {
        out.append("8");
    } else {
        out.append("9");
    }
}

/// Appends `n` in decimal.
pub fn push_decimal(out: &mut String, n: u64)
    ensures
        final(out)@ == old(out)@ + decimal(n as nat),
    decreases n,
{
    if n >= 10 {
        push_decimal(out, n / 10);
    }
    push_digit(out, n % 10);
}

/// Appends `n` in decimal, with its sign where it is negative.
pub fn push_signed(out: &mut String, n: i64)
    ensures
        final(out)@ == old(out)@ + signed_decimal(n as int),
{
    if n < 0 {
        out.append("-");
        push_decimal(out, (-(n as i128)) as u64);
    } else {
        push_decimal(out, n as u64);
    }
}

/// Whether two texts are the same.
pub(crate) fn same_text(a: &str, b: &str) -> (r: bool)
    ensures
        r == (a@ == b@),
{
    let a: String = a.to_string();
    let b: String = b.to_string();
    a == b
}

/// `core::str::from_utf8`, with the text copied out. The contract claims that
/// it succeeds exactly on well-formed UTF-8, and that the text is then the
/// sequence of characters that the bytes encode.
#[verifier::external_body]
fn utf8_text(bytes: &[u8]) -> (r: Option<String>)
    ensures
        r is Some <==> valid_utf8(bytes@),
        r is Some ==> r->0@ == decode_utf8(bytes@),
{
    match core::str::from_utf8(bytes) {
        Ok(s) => Some(s.to_string()),
        Err(_) => None,
    }
}

/// What a C string argument holds: nothing where the pointer is null or the
/// bytes are not UTF-8.
pub open spec fn c_text(p: Option<Seq<u8>>) -> Option<Seq<char>> {
    match p {
        Some(bytes) => if valid_utf8(bytes) {
            Some(decode_utf8(bytes))
        } else {
            None
        },
        None => None,
    }
}

/// The text of an optional C string argument.
pub open spec fn arg(p: Option<&[u8]>) -> Option<Seq<char>> {
    c_text(
        match p {
            Some(b) => Some(b@),
            None => None,
        },
    )
}

/// The text behind an optional string.
pub open spec fn text_of(s: Option<String>) -> Option<Seq<char>> {
    match s {
        Some(s) => Some(s@),
        None => None,
    }
}

/// Reads a C string argument, given as its bytes without the terminator, or
/// `None` for a null pointer. Anything that is not UTF-8 counts as absent.
pub fn cstr(p: Option<&[u8]>) -> (r: Option<String>)
    ensures
        text_of(r) == arg(p),
{
    match p {
        Some(bytes) => utf8_text(bytes),
        None => None,
    }
}

/// Hands a text out as a C string: impossible, and so `None`, where it holds
/// a NUL character.
pub fn into_cstring(s: String) -> (r: Option<String>)
    ensures
        r is Some <==> !s@.contains('\0'),
        r is Some ==> r->0 == s,
{
    let n: usize = s.as_str().unicode_len();
    let mut i: usize = 0;
    while i < n
        invariant
            n == s@.len(),
            i <= n,
            forall|j: int| 0 <= j < i ==> s@[j] != '\0',
        decreases n - i,
    {
        if s.as_str().get_char(i) == '\0' {
            assert(s@[i as int] == '\0');
            return None;
        }
        i += 1;
    }
    Some(s)
}

} // verus!
