//! Error classification for calls into a native codec library.
//!
//! A native call reports either a status code (zero for success) or a
//! pointer (null for failure). Both outcomes are classified here, and the
//! resulting message pins down the exact code that the native library
//! reported.

use vstd::prelude::*;
use vstd::string::StringExecFns;

verus! {

/// What can go wrong when driving a native codec library: a call that
/// returned a nonzero status code, or a call that returned a null pointer.
#[derive(Debug)]
pub enum Error {
    FailedCall(String),
    BadPtr(String),
}

impl Error {
    /// The message carried by either variant.
    pub open spec fn spec_message(&self) -> Seq<char> {
        match self {
            Error::FailedCall(m) => m@,
            Error::BadPtr(m) => m@,
        }
    }

    /// Hands out the diagnostic message of the error.
    pub fn message(&self) -> (m: &str)
        ensures
            m@ == self.spec_message(),
    {
        match self {
            Error::FailedCall(m) => m.as_str(),
            Error::BadPtr(m) => m.as_str(),
        }
    }
}

/// The character for one decimal digit.
pub open spec fn digit_char(d: int) -> char {
    if d == 0 {
        '0'
    } else if d == 1 {
        '1'
    } else if d == 2 {
        '2'
    } else if d == 3 {
        '3'
    } else if d == 4 {
        '4'
    } else if d == 5 {
        '5'
    } else if d == 6 {
        '6'
    } else if d == 7 {
        '7'
    } else if d == 8 {
        '8'
    } else {
        '9'
    }
}

/// The decimal digits of a non-negative integer, most significant first.
pub open spec fn dec_digits(n: int) -> Seq<char>
    decreases n,
{
    if n < 10 {
        seq![digit_char(n)]
    } else {
        dec_digits(n / 10) + seq![digit_char(n % 10)]
    }
}

/// The decimal rendering of an integer, with a leading minus sign when it
/// is negative.
pub open spec fn dec_int(v: int) -> Seq<char> {
    if v < 0 {
        seq!['-'] + dec_digits(-v)
    } else {
        dec_digits(v)
    }
}

/// The message reporting a failed native call: the exact status code the
/// native library returned, then the name of the call.
pub open spec fn failed_call_msg(code: int, what: Seq<char>) -> Seq<char> {
    "errcode="@ + dec_int(code) + seq![' '] + what
}

/// The message reporting a null pointer from a native call.
pub open spec fn bad_ptr_msg(what: Seq<char>) -> Seq<char> {
    "null pointer "@ + what
}

/// Appends the character of one decimal digit.
fn append_digit(d: u64, s: &mut String)
    requires
        d < 10,
    ensures
        final(s)@ == old(s)@ + seq![digit_char(d as int)],
{
    if d == 0 {
        s.append("0");
        proof {
            reveal_strlit("0");
            assert(old(s)@ + "0"@ =~= old(s)@ + seq![digit_char(d as int)]);
        }
    } else if d == 1 {
        s.append("1");
        proof {
            reveal_strlit("1");
            assert(old(s)@ + "1"@ =~= old(s)@ + seq![digit_char(d as int)]);
        }
    } else if d == 2 {
        s.append("2");
        proof {
            reveal_strlit("2");
            assert(old(s)@ + "2"@ =~= old(s)@ + seq![digit_char(d as int)]);
        }
    } else if d == 3 {
        s.append("3");
        proof {
            reveal_strlit("3");
            assert(old(s)@ + "3"@ =~= old(s)@ + seq![digit_char(d as int)]);
        }
    } else if d == 4 {
        s.append("4");
        proof {
            reveal_strlit("4");
            assert(old(s)@ + "4"@ =~= old(s)@ + seq![digit_char(d as int)]);
        }
    } else if d == 5 {
        s.append("5");
        proof {
            reveal_strlit("5");
            assert(old(s)@ + "5"@ =~= old(s)@ + seq![digit_char(d as int)]);
        }
    } else if d == 6 {
        s.append("6");
        proof {
            reveal_strlit("6");
            assert(old(s)@ + "6"@ =~= old(s)@ + seq![digit_char(d as int)]);
        }
    } else if d == 7 {
        s.append("7");
        proof {
            reveal_strlit("7");
            assert(old(s)@ + "7"@ =~= old(s)@ + seq![digit_char(d as int)]);
        }
    } else if d == 8 {
        s.append("8");
        proof {
            reveal_strlit("8");
            assert(old(s)@ + "8"@ =~= old(s)@ + seq![digit_char(d as int)]);
        }
    } else {
        s.append("9");
        proof {
            reveal_strlit("9");
            assert(old(s)@ + "9"@ =~= old(s)@ + seq![digit_char(d as int)]);
        }
    }
}

/// Appends the decimal digits of a non-negative number.
fn append_dec(n: u64, s: &mut String)
    ensures
        final(s)@ == old(s)@ + dec_digits(n as int),
    decreases n,
{
    if n < 10 {
        append_digit(n, s);
    } else {
        append_dec(n / 10, s);
        append_digit(n % 10, s);
        assert(final(s)@ =~= old(s)@ + dec_digits(n as int));
    }
}

/// Appends the decimal rendering of a signed number.
fn append_dec_i32(v: i32, s: &mut String)
    ensures
        final(s)@ == old(s)@ + dec_int(v as int),
{
    if v < 0 {
        s.append("-");
        let m: u64 = (-(v as i64)) as u64;
        append_dec(m, s);
        proof {
            reveal_strlit("-");
            assert("-"@ =~= seq!['-']);
            assert(final(s)@ =~= old(s)@ + dec_int(v as int));
        }
    } else {
        append_dec(v as u64, s);
    }
}

/// Classifies the status code of a native call, as the wrapped libraries
/// define it: zero is success, anything else is the failure it reports.
pub fn check_call(status: i32, what: &str) -> (r: Result<(), Error>)
    ensures
        status == 0 <==> r is Ok,
        status != 0 ==> (r matches Err(Error::FailedCall(m)) && m@ == failed_call_msg(
            status as int,
            what@,
        )),
{
    if status == 0 {
        Ok(())
    } else {
        let mut m = String::new();
        m.append("errcode=");
        append_dec_i32(status, &mut m);
        m.append(" ");
        m.append(what);
        proof {
            reveal_strlit(" ");
            assert(" "@ =~= seq![' ']);
            assert(m@ =~= failed_call_msg(status as int, what@));
        }
        Err(Error::FailedCall(m))
    }
}

/// Classifies a pointer returned by a native call: a null pointer is the
/// failure, anything else is success.
pub fn check_ptr(is_null: bool, what: &str) -> (r: Result<(), Error>)
    ensures
        !is_null <==> r is Ok,
        is_null ==> (r matches Err(Error::BadPtr(m)) && m@ == bad_ptr_msg(what@)),
{
    if is_null {
        let mut m = String::new();
        m.append("null pointer ");
        m.append(what);
        Err(Error::BadPtr(m))
    } else {
        Ok(())
    }
}

} // verus!
