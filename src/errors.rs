//! [`MethodHResult`]: a failing status code together with the call that returned it.

use vstd::prelude::*;
use vstd::string::StringExecFns;

verus! {

/// Success.
pub const S_OK: i32 = 0;

/// Success, with nothing done (for instance: already initialized).
pub const S_FALSE: i32 = 1;

/// The object exposes no capability with the identifier asked for (0x80004002).
pub const E_NOINTERFACE: i32 = -2147467262;

/// The capability has no registered marshaller (0x80040155).
pub const REGDB_E_IIDNOTREG: i32 = -2147221163;

/// The object refuses to be marshaled (0x80004021).
pub const CO_E_NOT_SUPPORTED: i32 = -2147467231;

/// The calling context was already initialized with another concurrency model (0x80010106).
pub const RPC_E_CHANGED_MODE: i32 = -2147417850;

/// An error-severity status for an arithmetic overflow (0x80000216).
pub const E_ARITHMETIC_OVERFLOW: i32 = -2147483114;

/// An unexpected failure (0x8000FFFF).
pub const E_UNEXPECTED: i32 = -2147418113;

/// A status code reports success when its severity bit is clear.
pub open spec fn succeeded(hr: i32) -> bool {
    hr >= 0
}

/// The 32 bits of a status code read as an unsigned number.
pub open spec fn status_bits(hr: i32) -> nat {
    if hr < 0 {
        (hr + 0x1_0000_0000) as nat
    } else {
        hr as nat
    }
}

/// The error that `spec_new` makes names the call and the status code it was given.
pub broadcast proof fn lemma_spec_new(method: &'static str, hr: i32)
    ensures
        #![trigger MethodHResult::spec_new(method, hr)]
        MethodHResult::spec_new(method, hr).spec_method() == method,
        MethodHResult::spec_new(method, hr).spec_hresult() == hr,
{
}

/// Whether `hr` reports success.
pub fn is_success(hr: i32) -> (r: bool)
    ensures
        r == succeeded(hr),
{
    hr >= 0
}

/// The lowercase hexadecimal digits, by value.
pub open spec fn hex_digits() -> Seq<char> {
    seq!['0', '1', '2', '3', '4', '5', '6', '7', '8', '9', 'a', 'b', 'c', 'd', 'e', 'f']
}

/// The last `n` hexadecimal digits of `v`, most significant first, zero-padded.
pub open spec fn hex_of(v: nat, n: nat) -> Seq<char>
    decreases n,
{
    if n == 0 {
        seq![]
    } else {
        hex_of(v / 16, (n - 1) as nat).push(hex_digits()[(v % 16) as int])
    }
}

/// The digit for `d` as a one-character string.
fn hex_digit_str(d: u32) -> (r: &'static str)
    requires
        d < 16,
    ensures
        r@ == seq![hex_digits()[d as int]],
{
    proof {
        reveal_strlit("0");
        reveal_strlit("1");
        reveal_strlit("2");
        reveal_strlit("3");
        reveal_strlit("4");
        reveal_strlit("5");
        reveal_strlit("6");
        reveal_strlit("7");
        reveal_strlit("8");
        reveal_strlit("9");
        reveal_strlit("a");
        reveal_strlit("b");
        reveal_strlit("c");
        reveal_strlit("d");
        reveal_strlit("e");
        reveal_strlit("f");
    }
    match d {
        0 => "0",
        1 => "1",
        2 => "2",
        3 => "3",
        4 => "4",
        5 => "5",
        6 => "6",
        7 => "7",
        8 => "8",
        9 => "9",
        10 => "a",
        11 => "b",
        12 => "c",
        13 => "d",
        14 => "e",
        _ => "f",
    }
}

/// Appends the last `n` hexadecimal digits of `v` to `s`.
fn append_hex(s: &mut String, v: u32, n: u32)
    ensures
        final(s)@ == old(s)@ + hex_of(v as nat, n as nat),
    decreases n,
{
    if n > 0 {
        append_hex(s, v / 16, n - 1);
        s.append(hex_digit_str(v % 16));
    }
}

/// A status code that some named call returned.
#[derive(Clone, Copy, Debug)]
pub struct MethodHResult {
    pub(crate) method: &'static str,
    pub(crate) hr: i32,
}

impl MethodHResult {
    /// The name of the call that failed.
    pub closed spec fn spec_method(&self) -> &'static str {
        self.method
    }

    /// The status code that the call returned.
    pub closed spec fn spec_hresult(&self) -> i32 {
        self.hr
    }

    /// The error of `method` with `hr`.
    pub closed spec fn spec_new(method: &'static str, hr: i32) -> Self {
        MethodHResult { method, hr }
    }

    /// What checking `hr` for `method` gives: `Ok` on success, otherwise the error.
    pub open spec fn spec_check(method: &'static str, hr: i32) -> Result<(), Self> {
        if succeeded(hr) {
            Ok(())
        } else {
            Err(Self::spec_new(method, hr))
        }
    }

    /// Whether this error is the one `method` reports with `hr`.
    pub open spec fn is(&self, method: &'static str, hr: i32) -> bool {
        self.spec_method() == method && self.spec_hresult() == hr
    }

    /// An error for `method` and `hr`, whether or not `hr` reports a failure.
    pub(crate) fn unchecked(method: &'static str, hr: i32) -> (r: Self)
        ensures
            r.is(method, hr),
            r == Self::spec_new(method, hr),
    {
        MethodHResult { method, hr }
    }

    /// `Ok` when `hr` reports success, otherwise the error of `method` with `hr`.
    pub fn check(method: &'static str, hr: i32) -> (r: Result<(), Self>)
        ensures
            r == Self::spec_check(method, hr),
            r is Ok <==> succeeded(hr),
            r matches Err(e) ==> e.is(method, hr),
    {
        if is_success(hr) {
            Ok(())
        } else {
            Err(Self::unchecked(method, hr))
        }
    }

    /// The status code of the error.
    pub fn hresult(&self) -> (r: i32)
        ensures
            r == self.spec_hresult(),
    {
        self.hr
    }

    /// The name of the call that failed.
    pub fn method(&self) -> (r: &'static str)
        ensures
            r == self.spec_method(),
    {
        self.method
    }

    /// What the error reads as: the call's name, then the status code in hexadecimal.
    pub open spec fn spec_message(&self) -> Seq<char> {
        self.spec_method()@ + " failed with HRESULT == 0x"@ + hex_of(status_bits(self.spec_hresult()), 8)
    }

    /// The human-readable message of the error, such as
    /// `CoInitializeEx failed with HRESULT == 0x80010106`.
    pub fn message(&self) -> (r: String)
        ensures
            r@ == self.spec_message(),
    {
        let mut s = String::from_str(self.method);
        s.append(" failed with HRESULT == 0x");
        append_hex(&mut s, self.to_u32(), 8);
        s
    }

    /// A link that searches the status code on hresult.info.
    pub fn hresult_info_search_link(&self) -> (r: String)
        ensures
            r@ == "https://www.hresult.info/Search?q=0x"@ + hex_of(status_bits(self.spec_hresult()), 8),
    {
        let mut s = String::from_str("https://www.hresult.info/Search?q=0x");
        append_hex(&mut s, self.to_u32(), 8);
        s
    }

    /// The status code read as an unsigned 32-bit value.
    pub(crate) fn to_u32(&self) -> (r: u32)
        ensures
            r as nat == status_bits(self.spec_hresult()),
    {
        if self.hr >= 0 {
            self.hr as u32
        } else {
            ((self.hr as i64) + 0x1_0000_0000i64) as u32
        }
    }
}

impl From<MethodHResult> for i32 {
    /// The status code of the error.
    fn from(e: MethodHResult) -> (r: i32) {
        e.hr
    }
}

impl vstd::std_specs::convert::FromSpecImpl<MethodHResult> for i32 {
    open spec fn obeys_from_spec() -> bool {
        true
    }

    open spec fn from_spec(e: MethodHResult) -> i32 {
        e.spec_hresult()
    }
}

} // verus!
