//! Data-plane logic of a Bluetooth Low Energy peripheral layer for Zephyr: the
//! UUID codec, the advertising record codec, the GATT attribute table model and
//! the conversions of the advertising and scanning parameters, together with
//! the error taxonomy shared by every call into the host stack.
use vstd::prelude::*;
use vstd::string::StringExecFns;

pub mod bluetooth;
pub mod gpio;
pub mod network;
pub mod sensor;

verus! {

/// A subsystem in which an error can occur.
pub trait Context {
    /// The name under which the subsystem is reported.
    spec fn spec_name(&self) -> Seq<char>;

    fn name(&self) -> (r: &'static str)
        ensures
            r@ == self.spec_name(),
    ;
}

/// Error numbers used by the Zephyr APIs.
///
/// Zephyr reports an error number either positive or negative; both signs
/// denote the same error.
#[derive(Copy, Clone, Debug, PartialEq, Eq, Structural)]
pub enum ErrorNumber {
    Permission,
    NotImplemented,
    NotConnected,
    Other(i32),
}

/// The absolute value of a status code, where it fits in an `i32`
/// (`i32::MIN` stays as it is, as `i32::wrapping_abs` leaves it).
pub open spec fn status_magnitude(errno: i32) -> i32 {
    if errno < 0 && errno != i32::MIN {
        (-errno) as i32
    } else {
        errno
    }
}

/// The class of a host status code: its magnitude decides it.
pub open spec fn classify_status(errno: i32) -> ErrorNumber {
    let m = status_magnitude(errno);
    if m == 1 {
        ErrorNumber::Permission
    } else if m == 88 {
        ErrorNumber::NotImplemented
    } else if m == 128 {
        ErrorNumber::NotConnected
    } else {
        ErrorNumber::Other(m)
    }
}

impl From<i32> for ErrorNumber {
    fn from(errno: i32) -> (r: Self) {
        let m: i32 = if errno < 0 && errno != i32::MIN {
            -errno
        } else {
            errno
        };
        if m == 1 {
            ErrorNumber::Permission
        } else if m == 88 {
            ErrorNumber::NotImplemented
        } else if m == 128 {
            ErrorNumber::NotConnected
        } else {
            ErrorNumber::Other(m)
        }
    }
}

impl vstd::std_specs::convert::FromSpecImpl<i32> for ErrorNumber {
    open spec fn obeys_from_spec() -> bool {
        true
    }

    open spec fn from_spec(errno: i32) -> ErrorNumber {
        classify_status(errno)
    }
}

/// The character of the decimal digit `d`.
pub open spec fn digit_char(d: nat) -> char {
    seq!['0', '1', '2', '3', '4', '5', '6', '7', '8', '9'][d as int]
}

/// The decimal digits of `n`, most significant first.
pub open spec fn decimal(n: nat) -> Seq<char>
    decreases n,
{
    if n < 10 {
        seq![digit_char(n)]
    } else {
        decimal(n / 10) + seq![digit_char(n % 10)]
    }
}

/// `n` written in decimal, with a minus sign where it is negative.
pub open spec fn signed_decimal(n: int) -> Seq<char> {
    if n < 0 {
        seq!['-'] + decimal((-n) as nat)
    } else {
        decimal(n as nat)
    }
}

fn digit_str(d: u32) -> (r: &'static str)
    requires
        d < 10,
    ensures
        r@ == seq![digit_char(d as nat)],
{
    proof {
        reveal_strlit("0");
        reveal_strlit("1");
        reveal_strlit("2");
        reveal_strlit("3");
        reveal_strlit("4");
        reveal_strlit("5");
        reveal_strlit("6");
        reveal_strlit("7");
        reveal_strlit("8");
        reveal_strlit("9");
    }
    if d == 0 {
        "0"
    } else if d == 1 {
        "1"
    } else if d == 2 {
        "2"
    } else if d == 3 {
        "3"
    } else if d == 4 {
        "4"
    } else if d == 5 {
        "5"
    } else if d == 6 {
        "6"
    } else if d == 7 {
        "7"
    } else if d == 8 {
        "8"
    } else {
        "9"
    }
}

fn push_decimal(s: &mut String, n: u32)
    ensures
        final(s)@ == old(s)@ + decimal(n as nat),
    decreases n,
{
    if n >= 10 {
        push_decimal(s, n / 10);
    }
    s.append(digit_str(n % 10));
    assert(final(s)@ =~= old(s)@ + decimal(n as nat));
}

fn push_signed_decimal(s: &mut String, n: i32)
    ensures
        final(s)@ == old(s)@ + signed_decimal(n as int),
{
    if n < 0 {
        proof {
            reveal_strlit("-");
        }
        s.append("-");
        let magnitude: u32 = if n == i32::MIN {
            2147483648u32
        } else {
            (-n) as u32
        };
        push_decimal(s, magnitude);
        assert(final(s)@ =~= old(s)@ + signed_decimal(n as int));
    } else {
        push_decimal(s, n as u32);
    }
}

/// The text of an error number.
pub open spec fn describe(n: ErrorNumber) -> Seq<char> {
    match n {
        ErrorNumber::Permission => "1: Not owner"@,
        ErrorNumber::NotImplemented => "88: Function not implemented"@,
        ErrorNumber::NotConnected => "128: Not connected"@,
        ErrorNumber::Other(e) => "Unknown error number: "@ + signed_decimal(e as int),
    }
}

impl ErrorNumber {
    /// The text of the error number.
    pub fn description(&self) -> (r: String)
        ensures
            r@ == describe(*self),
    {
        match self {
            ErrorNumber::Permission => String::from_str("1: Not owner"),
            ErrorNumber::NotImplemented => String::from_str("88: Function not implemented"),
            ErrorNumber::NotConnected => String::from_str("128: Not connected"),
            ErrorNumber::Other(e) => {
                let mut s = String::from_str("Unknown error number: ");
                push_signed_decimal(&mut s, *e);
                s
            },
        }
    }
}

/// Error that might occur in a call into Zephyr or in the wrappers around it.
#[derive(Debug)]
pub struct ZephyrError {
    errno: ErrorNumber,
    context: Option<&'static str>,
}

/// Result of a call into Zephyr.
pub type ZephyrResult<T> = Result<T, ZephyrError>;

impl ZephyrError {
    /// The kind of the error.
    pub closed spec fn spec_number(&self) -> ErrorNumber {
        self.errno
    }

    /// The name of the subsystem that raised the error, if one was given.
    pub closed spec fn spec_context(&self) -> Option<Seq<char>> {
        match self.context {
            Some(name) => Some(name@),
            None => None,
        }
    }

    /// Create a new error.
    pub fn new(errno: ErrorNumber) -> (r: Self)
        ensures
            r.spec_number() == errno,
            r.spec_context() == None::<Seq<char>>,
    {
        Self { errno, context: None }
    }

    /// Create a new error raised in `context`.
    pub fn new_with_context<C: Context>(errno: ErrorNumber, context: &C) -> (r: Self)
        ensures
            r.spec_number() == errno,
            r.spec_context() == Some(context.spec_name()),
    {
        Self { errno, context: Some(context.name()) }
    }

    /// Classify the status code `errno` and construct a new error.
    pub fn from_errno(errno: i32) -> (r: Self)
        ensures
            r.spec_number() == classify_status(errno),
            r.spec_context() == None::<Seq<char>>,
    {
        Self { errno: ErrorNumber::from(errno), context: None }
    }

    /// Classify the status code `errno` and construct a new error raised in `context`.
    pub fn from_errno_with_context<C: Context>(errno: i32, context: &C) -> (r: Self)
        ensures
            r.spec_number() == classify_status(errno),
            r.spec_context() == Some(context.spec_name()),
    {
        Self { errno: ErrorNumber::from(errno), context: Some(context.name()) }
    }

    pub fn number(&self) -> (r: ErrorNumber)
        ensures
            r == self.spec_number(),
    {
        self.errno
    }

    /// The text of the error: `[context]: ` where a context was given, then
    /// the text of its number.
    pub fn message(&self) -> (r: String)
        ensures
            r@ == match self.spec_context() {
                Some(c) => "["@ + c + "]: "@ + describe(self.spec_number()),
                None => describe(self.spec_number()),
            },
    {
        match self.context {
            Some(name) => {
                let mut s = String::from_str("[");
                s.append(name);
                s.append("]: ");
                let d = self.errno.description();
                s.append(d.as_str());
                s
            },
            None => self.errno.description(),
        }
    }

    /// The name of the subsystem that raised the error, if one was given.
    pub fn context_name(&self) -> (r: Option<&'static str>)
        ensures
            match r {
                Some(name) => self.spec_context() == Some(name@),
                None => self.spec_context() == None::<Seq<char>>,
            },
    {
        self.context
    }
}

/// Turn the status code of a host call into a result: `0` is success, any
/// other code an error of its class, raised in `context`.
pub fn check_status<C: Context>(errno: i32, context: &C) -> (r: ZephyrResult<()>)
    ensures
        r is Ok <==> errno == 0,
        match r {
            Ok(_) => true,
            Err(e) => e.spec_number() == classify_status(errno) && e.spec_context() == Some(
                context.spec_name(),
            ),
        },
{
    if errno == 0 {
        Ok(())
    } else {
        Err(ZephyrError::from_errno_with_context(errno, context))
    }
}

} // verus!
