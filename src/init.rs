//! Initialization of the object model for the calling thread.

use crate::api::{one_call, Call, ComApi, Port};
use crate::errors::{succeeded, MethodHResult, S_FALSE};
use core::ops::{BitOr, BitOrAssign};
use vstd::prelude::*;

verus! {

broadcast use crate::errors::lemma_spec_new;

/// The flag value for apartment-threaded concurrency.
pub const COINIT_APARTMENTTHREADED: u32 = 0x2;

/// The flag value for multi-threaded concurrency.
pub const COINIT_MULTITHREADED: u32 = 0x0;

/// The flag value that disables DDE for OLE1 support.
pub const COINIT_DISABLE_OLE1DDE: u32 = 0x4;

/// The flag value that trades memory for speed.
pub const COINIT_SPEED_OVER_MEMORY: u32 = 0x8;

/// A concurrency model together with its flags, for initializing a thread.
#[derive(Clone, Copy, PartialEq, Eq, Structural, PartialOrd, Ord, Hash)]
pub struct CoInit(u32);

/// Flags that may be added to a [`CoInit`].
#[derive(Clone, Copy, PartialEq, Eq, Structural, PartialOrd, Ord, Hash)]
pub struct CoInitFlag(u32);

impl CoInit {
    /// The flags' value, as the object model takes it.
    pub closed spec fn spec_value(&self) -> u32 {
        self.0
    }

    /// The flags' value, as the object model takes it.
    pub fn value(&self) -> (r: u32)
        ensures
            r == self.spec_value(),
    {
        self.0
    }

    /// Apartment-threaded concurrency: one context confined to the thread.
    pub fn apartment_threaded() -> (r: Self)
        ensures
            r.spec_value() == COINIT_APARTMENTTHREADED,
    {
        CoInit(COINIT_APARTMENTTHREADED)
    }

    /// Multi-threaded concurrency: one context shared by the threads that join it.
    pub fn multi_threaded() -> (r: Self)
        ensures
            r.spec_value() == COINIT_MULTITHREADED,
    {
        CoInit(COINIT_MULTITHREADED)
    }

    /// These flags with `flag` added.
    pub fn with(self, flag: CoInitFlag) -> (r: Self)
        ensures
            r.spec_value() == self.spec_value() | flag.spec_value(),
    {
        CoInit(self.0 | flag.0)
    }

    /// Initializes the calling thread with these flags; see [`co_initialize_ex`].
    pub fn init<A: ComApi>(self, port: &mut Port<A>) -> (r: Result<bool, MethodHResult>)
        ensures
            one_call(old(port).log(), final(port).log()),
            final(port).log().last() matches Call::CoInitializeEx { coinit, hr }
                && coinit == self.spec_value() && r == spec_init_outcome(hr),
    {
        co_initialize_ex(port, self)
    }
}

impl CoInitFlag {
    /// The flag's value, as the object model takes it.
    pub closed spec fn spec_value(&self) -> u32 {
        self.0
    }

    /// The flag's value, as the object model takes it.
    pub fn value(&self) -> (r: u32)
        ensures
            r == self.spec_value(),
    {
        self.0
    }

    /// Disables DDE for OLE1 support.
    pub fn disable_ole1dde() -> (r: Self)
        ensures
            r.spec_value() == COINIT_DISABLE_OLE1DDE,
    {
        CoInitFlag(COINIT_DISABLE_OLE1DDE)
    }

    /// Uses more memory in an attempt to run faster.
    pub fn speed_over_memory() -> (r: Self)
        ensures
            r.spec_value() == COINIT_SPEED_OVER_MEMORY,
    {
        CoInitFlag(COINIT_SPEED_OVER_MEMORY)
    }

    /// Both flags.
    pub fn with(self, flag: CoInitFlag) -> (r: Self)
        ensures
            r.spec_value() == self.spec_value() | flag.spec_value(),
    {
        CoInitFlag(self.0 | flag.0)
    }
}

impl BitOr<CoInitFlag> for CoInit {
    type Output = CoInit;

    fn bitor(self, rhs: CoInitFlag) -> CoInit {
        self.with(rhs)
    }
}

impl BitOr<CoInit> for CoInitFlag {
    type Output = CoInit;

    fn bitor(self, rhs: CoInit) -> CoInit {
        rhs.with(self)
    }
}

impl BitOr<CoInitFlag> for CoInitFlag {
    type Output = CoInitFlag;

    fn bitor(self, rhs: CoInitFlag) -> CoInitFlag {
        self.with(rhs)
    }
}

impl vstd::std_specs::ops::BitOrSpecImpl<CoInitFlag> for CoInit {
    open spec fn obeys_bitor_spec() -> bool {
        true
    }

    open spec fn bitor_req(self, rhs: CoInitFlag) -> bool {
        true
    }

    closed spec fn bitor_spec(self, rhs: CoInitFlag) -> CoInit {
        CoInit(self.0 | rhs.0)
    }
}

impl vstd::std_specs::ops::BitOrSpecImpl<CoInit> for CoInitFlag {
    open spec fn obeys_bitor_spec() -> bool {
        true
    }

    open spec fn bitor_req(self, rhs: CoInit) -> bool {
        true
    }

    closed spec fn bitor_spec(self, rhs: CoInit) -> CoInit {
        CoInit(rhs.0 | self.0)
    }
}

impl vstd::std_specs::ops::BitOrSpecImpl<CoInitFlag> for CoInitFlag {
    open spec fn obeys_bitor_spec() -> bool {
        true
    }

    open spec fn bitor_req(self, rhs: CoInitFlag) -> bool {
        true
    }

    closed spec fn bitor_spec(self, rhs: CoInitFlag) -> CoInitFlag {
        CoInitFlag(self.0 | rhs.0)
    }
}

impl BitOrAssign<CoInitFlag> for CoInit {
    fn bitor_assign(&mut self, rhs: CoInitFlag) {
        *self = self.with(rhs);
    }
}

impl BitOrAssign<CoInitFlag> for CoInitFlag {
    fn bitor_assign(&mut self, rhs: CoInitFlag) {
        *self = self.with(rhs);
    }
}

/// What initializing a thread gives when the object model returned `hr`.
pub open spec fn spec_init_outcome(hr: i32) -> Result<bool, MethodHResult> {
    if !succeeded(hr) {
        Err(MethodHResult::spec_new("CoInitializeEx", hr))
    } else {
        Ok(hr != S_FALSE)
    }
}

/// The outcome of initializing a thread, from the status code `hr` that the
/// object model returned: the call's error when `hr` reports failure,
/// `Ok(false)` when the thread was already initialized, and `Ok(true)` for
/// every other success.
pub fn init_outcome(hr: i32) -> (r: Result<bool, MethodHResult>)
    ensures
        r == spec_init_outcome(hr),
        r is Ok <==> succeeded(hr),
        r matches Ok(fresh) ==> (fresh <==> hr != S_FALSE),
        r matches Err(e) ==> e.is("CoInitializeEx", hr),
{
    if hr < 0 {
        Err(MethodHResult::unchecked("CoInitializeEx", hr))
    } else {
        Ok(hr != S_FALSE)
    }
}

/// Initializes the object model for the calling thread, joining or creating a
/// context of the concurrency model that `coinit` names: one initialization
/// call with `coinit`'s flags, whose status decides as [`init_outcome`] does.
///
/// `Ok(true)`: the thread was initialized now. `Ok(false)`: it already was.
/// An error `RPC_E_CHANGED_MODE`: the thread was initialized for the other
/// concurrency model.
pub fn co_initialize_ex<A: ComApi>(port: &mut Port<A>, coinit: CoInit) -> (r: Result<bool, MethodHResult>)
    ensures
        one_call(old(port).log(), final(port).log()),
        final(port).log().last() matches Call::CoInitializeEx { coinit: flags, hr }
            && flags == coinit.spec_value() && r == spec_init_outcome(hr),
{
    let hr = port.co_initialize_ex(coinit.value());
    init_outcome(hr)
}

/// Initializes the calling thread into an apartment-threaded context, as user
/// interface threads use; see [`co_initialize_ex`].
pub fn sta<A: ComApi>(port: &mut Port<A>) -> (r: Result<bool, MethodHResult>)
    ensures
        one_call(old(port).log(), final(port).log()),
        final(port).log().last() matches Call::CoInitializeEx { coinit, hr }
            && coinit == COINIT_APARTMENTTHREADED && r == spec_init_outcome(hr),
{
    co_initialize_ex(port, CoInit::apartment_threaded())
}

/// Initializes the calling thread into the multi-threaded context; see [`co_initialize_ex`].
pub fn mta<A: ComApi>(port: &mut Port<A>) -> (r: Result<bool, MethodHResult>)
    ensures
        one_call(old(port).log(), final(port).log()),
        final(port).log().last() matches Call::CoInitializeEx { coinit, hr }
            && coinit == COINIT_MULTITHREADED && r == spec_init_outcome(hr),
{
    co_initialize_ex(port, CoInit::multi_threaded())
}

/// Closes the object model on the calling thread. Handles that the thread still
/// holds become unusable.
pub fn uninitialize<A: ComApi>(port: &mut Port<A>)
    ensures
        final(port).log() == old(port).log().push(Call::CoUninitialize),
{
    port.co_uninitialize();
}

/// Keeps the multi-threaded context alive, and puts the calling thread into it
/// if the thread is in no context yet.
pub struct MTAUsageScope {
    cookie: usize,
}

impl MTAUsageScope {
    /// The cookie that the object model handed out.
    pub closed spec fn spec_cookie(&self) -> usize {
        self.cookie
    }

    /// What keeping the context alive handed out: a scope when `hr` reports
    /// success, otherwise the call's error.
    pub fn from_increment(hr: i32, cookie: usize) -> (r: Result<Self, MethodHResult>)
        ensures
            r is Ok <==> succeeded(hr),
            r matches Ok(s) ==> s.spec_cookie() == cookie,
            r is Err ==> r == Err::<Self, MethodHResult>(MethodHResult::spec_new("CoIncrementMTAUsage", hr)),
    {
        if hr < 0 {
            Err(MethodHResult::unchecked("CoIncrementMTAUsage", hr))
        } else {
            Ok(MTAUsageScope { cookie })
        }
    }

    /// Keeps the multi-threaded context alive until the scope is released: one
    /// call, whose result decides as [`MTAUsageScope::from_increment`] does.
    pub fn new<A: ComApi>(port: &mut Port<A>) -> (r: Result<Self, MethodHResult>)
        ensures
            one_call(old(port).log(), final(port).log()),
            final(port).log().last() matches Call::CoIncrementMtaUsage { hr, cookie }
                && (r is Ok <==> succeeded(hr)) && (r matches Ok(s) ==> s.spec_cookie() == cookie)
                && (r is Err ==> r == Err::<Self, MethodHResult>(MethodHResult::spec_new("CoIncrementMTAUsage", hr))),
    {
        let (hr, cookie) = port.co_increment_mta_usage();
        Self::from_increment(hr, cookie)
    }

    /// Ends the scope: gives its cookie back, once. A failure means that the
    /// object model's count of users of the context is broken: the caller must
    /// not go on.
    pub fn release<A: ComApi>(self, port: &mut Port<A>) -> (r: Result<(), MethodHResult>)
        ensures
            one_call(old(port).log(), final(port).log()),
            final(port).log().last() matches Call::CoDecrementMtaUsage { cookie, hr }
                && cookie == self.spec_cookie() && r == MethodHResult::spec_check("CoDecrementMTAUsage", hr),
    {
        let hr = port.co_decrement_mta_usage(self.cookie);
        MethodHResult::check("CoDecrementMTAUsage", hr)
    }
}

} // verus!
