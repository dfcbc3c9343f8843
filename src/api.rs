//! The calling convention of the host object model.
//!
//! Objects are reached through addresses: an address of zero is the null
//! reference. Every call returns its status code and, where it hands out an
//! object, that object's address with one reference already counted for the
//! caller.

use vstd::prelude::*;

verus! {

/// A capability or class identifier.
#[derive(Clone, Copy, Debug, PartialEq, Eq, Hash)]
pub struct Guid {
    pub data1: u32,
    pub data2: u16,
    pub data3: u16,
    pub data4: [u8; 8],
}

/// A capability of the object model, named by its identifier.
///
/// An implementation returns one fixed identifier from `uuidof`; `iid` names
/// that identifier in contracts.
pub trait Interface {
    /// The identifier of the capability.
    spec fn iid() -> Guid;

    /// The identifier of the capability.
    fn uuidof() -> (r: Guid)
        ensures
            r == Self::iid(),
    ;
}

/// A capability that derives from the capability `B`.
///
/// An implementation computes `base_ptr` from its argument alone; `spec_base`
/// names that computation in contracts.
pub trait Derives<B: Interface>: Interface {
    /// The address of the `B` view of the object at `ptr`, as the derivation puts it.
    spec fn spec_base(ptr: usize) -> usize;

    /// The address of the `B` view of the object at `ptr`, found by following
    /// the derivation rather than by reinterpreting the address.
    fn base_ptr(ptr: usize) -> (r: usize)
        ensures
            r == Self::spec_base(ptr),
    ;
}

/// The root capability: every object has it, and reference counting and
/// capability queries go through it.
pub struct IUnknown;

impl Interface for IUnknown {
    open spec fn iid() -> Guid {
        Guid { data1: 0x00000000, data2: 0x0000, data3: 0x0000, data4: [0xc0, 0, 0, 0, 0, 0, 0, 0x46] }
    }

    fn uuidof() -> Guid {
        Guid { data1: 0x00000000, data2: 0x0000, data3: 0x0000, data4: [0xc0, 0, 0, 0, 0, 0, 0, 0x46] }
    }
}

/// The capability of a portable reference token.
pub struct IAgileReference;

impl Interface for IAgileReference {
    open spec fn iid() -> Guid {
        Guid { data1: 0xc03f6a43, data2: 0x65a4, data3: 0x9818, data4: [0x98, 0x7e, 0xe0, 0xb8, 0x10, 0xd2, 0xa6, 0xf2] }
    }

    fn uuidof() -> Guid {
        Guid { data1: 0xc03f6a43, data2: 0x65a4, data3: 0x9818, data4: [0x98, 0x7e, 0xe0, 0xb8, 0x10, 0xd2, 0xa6, 0xf2] }
    }
}

/// One entry of a batched creation request: the capability asked for, and,
/// once the call returns, the object's address and the entry's own status.
#[derive(Clone, Copy, Debug)]
pub struct MultiQi {
    pub iid: Guid,
    pub itf: usize,
    pub hr: i32,
}

/// The host object model.
///
/// Nothing is assumed of what these calls return. The library reaches them only
/// through a [`Port`], which records each call with its arguments and results.
pub trait ComApi {
    /// Counts one more reference to the object at `unk`, through its root capability.
    /// Returns the new count.
    fn add_ref(&self, unk: usize) -> u32;

    /// Releases one reference to the object at `unk`, through the release entry
    /// of the object's own function table. Returns the new count; at zero the
    /// object tears itself down.
    fn release(&self, unk: usize) -> u32;

    /// Asks the object at `unk` for the capability `iid`.
    fn query_interface(&self, unk: usize, iid: &Guid) -> (i32, usize);

    /// Creates an object of class `clsid` in process, aggregated by `outer`
    /// (zero for none), and asks it for the capability `iid`.
    fn co_create_instance(&self, clsid: &Guid, outer: usize, clsctx: u32, iid: &Guid) -> (i32, usize);

    /// Creates an object of class `clsid` from a sandboxed application and asks it
    /// for the first `count` capabilities of `results`, filling in each entry.
    fn co_create_instance_from_app(
        &self,
        clsid: &Guid,
        outer: usize,
        clsctx: u32,
        count: u32,
        results: &mut Vec<MultiQi>,
    ) -> i32;

    /// Registers the object at `unk`, as capability `iid`, in the lookup table of
    /// the calling context. Returns the status and the cookie.
    fn register_interface_in_global(&self, unk: usize, iid: &Guid) -> (i32, u32);

    /// Looks `cookie` up in the lookup table of the calling context.
    fn get_interface_from_global(&self, cookie: u32, iid: &Guid) -> (i32, usize);

    /// Removes `cookie` from the lookup table of the calling context.
    fn revoke_interface_from_global(&self, cookie: u32) -> i32;

    /// Mints a portable reference token for the object at `unk`, as capability
    /// `iid`, under the policy `options`.
    fn ro_get_agile_reference(&self, options: u32, iid: &Guid, unk: usize) -> (i32, usize);

    /// Asks the portable reference token at `agile` for a pointer to capability
    /// `iid` that the calling context may use.
    fn agile_resolve(&self, agile: usize, iid: &Guid) -> (i32, usize);

    /// Initializes the object model for the calling thread with the flags `coinit`.
    fn co_initialize_ex(&self, coinit: u32) -> i32;

    /// Closes the object model on the calling thread.
    fn co_uninitialize(&self);

    /// Keeps the multi-threaded context alive. Returns the status and a cookie.
    fn co_increment_mta_usage(&self) -> (i32, usize);

    /// Gives back a cookie of `co_increment_mta_usage`.
    fn co_decrement_mta_usage(&self, cookie: usize) -> i32;
}

/// One call made on the object model, with what it was handed and what it returned.
pub enum Call {
    AddRef { unk: usize },
    Release { unk: usize, count: u32 },
    QueryInterface { unk: usize, iid: Guid, hr: i32, ptr: usize },
    CoCreateInstance { clsid: Guid, outer: usize, clsctx: u32, iid: Guid, hr: i32, ptr: usize },
    CoCreateInstanceFromApp {
        clsid: Guid,
        outer: usize,
        clsctx: u32,
        count: u32,
        request: Seq<MultiQi>,
        response: Seq<MultiQi>,
        hr: i32,
    },
    RegisterInterfaceInGlobal { unk: usize, iid: Guid, hr: i32, cookie: u32 },
    GetInterfaceFromGlobal { cookie: u32, iid: Guid, hr: i32, ptr: usize },
    RevokeInterfaceFromGlobal { cookie: u32, hr: i32 },
    RoGetAgileReference { options: u32, iid: Guid, unk: usize, hr: i32, token: usize },
    AgileResolve { agile: usize, iid: Guid, hr: i32, ptr: usize },
    CoInitializeEx { coinit: u32, hr: i32 },
    CoUninitialize,
    CoIncrementMtaUsage { hr: i32, cookie: usize },
    CoDecrementMtaUsage { cookie: usize, hr: i32 },
}

/// `new` is `old` with exactly one call added at the end.
pub open spec fn one_call(old: Seq<Call>, new: Seq<Call>) -> bool {
    new.len() > 0 && new == old.push(new.last())
}

/// `new` is `old` with exactly two calls added at the end.
pub open spec fn two_calls(old: Seq<Call>, new: Seq<Call>) -> bool {
    new.len() > 1 && new == old.push(new[new.len() - 2]).push(new.last())
}

/// The object model, together with the record of every call made on it
/// through this port. Every operation of the library that reaches the object
/// model goes through a port, and its contract states what it added to the record.
pub struct Port<A> {
    api: A,
    log: Ghost<Seq<Call>>,
}

impl<A: ComApi> Port<A> {
    /// The calls made through this port, oldest first.
    pub closed spec fn log(&self) -> Seq<Call> {
        self.log@
    }

    /// A port on `api` through which no call was made yet.
    pub fn new(api: A) -> (r: Self)
        ensures
            r.log() == Seq::<Call>::empty(),
    {
        Port { api, log: Ghost(Seq::empty()) }
    }

    /// The object model behind the port.
    pub fn api(&self) -> &A {
        &self.api
    }

    /// Gives the object model back.
    pub fn into_api(self) -> A {
        self.api
    }

    fn record(&mut self, c: Ghost<Call>)
        ensures
            final(self).log() == old(self).log().push(c@),
            final(self).api == old(self).api,
    {
        self.log = Ghost(self.log@.push(c@));
    }

    pub(crate) fn add_ref(&mut self, unk: usize)
        ensures
            final(self).log() == old(self).log().push(Call::AddRef { unk }),
    {
        let _count = self.api.add_ref(unk);
        self.record(Ghost(Call::AddRef { unk }));
    }

    pub(crate) fn release(&mut self, unk: usize) -> (count: u32)
        ensures
            final(self).log() == old(self).log().push(Call::Release { unk, count }),
    {
        let count = self.api.release(unk);
        self.record(Ghost(Call::Release { unk, count }));
        count
    }

    pub(crate) fn query_interface(&mut self, unk: usize, iid: &Guid) -> (r: (i32, usize))
        ensures
            final(self).log() == old(self).log().push(Call::QueryInterface { unk, iid: *iid, hr: r.0, ptr: r.1 }),
    {
        let (hr, ptr) = self.api.query_interface(unk, iid);
        self.record(Ghost(Call::QueryInterface { unk, iid: *iid, hr, ptr }));
        (hr, ptr)
    }

    pub(crate) fn co_create_instance(&mut self, clsid: &Guid, outer: usize, clsctx: u32, iid: &Guid) -> (r: (i32, usize))
        ensures
            final(self).log() == old(self).log().push(
                Call::CoCreateInstance { clsid: *clsid, outer, clsctx, iid: *iid, hr: r.0, ptr: r.1 },
            ),
    {
        let (hr, ptr) = self.api.co_create_instance(clsid, outer, clsctx, iid);
        self.record(Ghost(Call::CoCreateInstance { clsid: *clsid, outer, clsctx, iid: *iid, hr, ptr }));
        (hr, ptr)
    }

    pub(crate) fn co_create_instance_from_app(
        &mut self,
        clsid: &Guid,
        outer: usize,
        clsctx: u32,
        count: u32,
        results: &mut Vec<MultiQi>,
    ) -> (hr: i32)
        ensures
            final(self).log() == old(self).log().push(
                Call::CoCreateInstanceFromApp {
                    clsid: *clsid,
                    outer,
                    clsctx,
                    count,
                    request: old(results)@,
                    response: final(results)@,
                    hr,
                },
            ),
    {
        let ghost request = results@;
        let hr = self.api.co_create_instance_from_app(clsid, outer, clsctx, count, results);
        self.record(
            Ghost(Call::CoCreateInstanceFromApp { clsid: *clsid, outer, clsctx, count, request, response: results@, hr }),
        );
        hr
    }

    pub(crate) fn register_interface_in_global(&mut self, unk: usize, iid: &Guid) -> (r: (i32, u32))
        ensures
            final(self).log() == old(self).log().push(
                Call::RegisterInterfaceInGlobal { unk, iid: *iid, hr: r.0, cookie: r.1 },
            ),
    {
        let (hr, cookie) = self.api.register_interface_in_global(unk, iid);
        self.record(Ghost(Call::RegisterInterfaceInGlobal { unk, iid: *iid, hr, cookie }));
        (hr, cookie)
    }

    pub(crate) fn get_interface_from_global(&mut self, cookie: u32, iid: &Guid) -> (r: (i32, usize))
        ensures
            final(self).log() == old(self).log().push(
                Call::GetInterfaceFromGlobal { cookie, iid: *iid, hr: r.0, ptr: r.1 },
            ),
    {
        let (hr, ptr) = self.api.get_interface_from_global(cookie, iid);
        self.record(Ghost(Call::GetInterfaceFromGlobal { cookie, iid: *iid, hr, ptr }));
        (hr, ptr)
    }

    pub(crate) fn revoke_interface_from_global(&mut self, cookie: u32) -> (hr: i32)
        ensures
            final(self).log() == old(self).log().push(Call::RevokeInterfaceFromGlobal { cookie, hr }),
    {
        let hr = self.api.revoke_interface_from_global(cookie);
        self.record(Ghost(Call::RevokeInterfaceFromGlobal { cookie, hr }));
        hr
    }

    pub(crate) fn ro_get_agile_reference(&mut self, options: u32, iid: &Guid, unk: usize) -> (r: (i32, usize))
        ensures
            final(self).log() == old(self).log().push(
                Call::RoGetAgileReference { options, iid: *iid, unk, hr: r.0, token: r.1 },
            ),
    {
        let (hr, token) = self.api.ro_get_agile_reference(options, iid, unk);
        self.record(Ghost(Call::RoGetAgileReference { options, iid: *iid, unk, hr, token }));
        (hr, token)
    }

    pub(crate) fn agile_resolve(&mut self, agile: usize, iid: &Guid) -> (r: (i32, usize))
        ensures
            final(self).log() == old(self).log().push(Call::AgileResolve { agile, iid: *iid, hr: r.0, ptr: r.1 }),
    {
        let (hr, ptr) = self.api.agile_resolve(agile, iid);
        self.record(Ghost(Call::AgileResolve { agile, iid: *iid, hr, ptr }));
        (hr, ptr)
    }

    pub(crate) fn co_initialize_ex(&mut self, coinit: u32) -> (hr: i32)
        ensures
            final(self).log() == old(self).log().push(Call::CoInitializeEx { coinit, hr }),
    {
        let hr = self.api.co_initialize_ex(coinit);
        self.record(Ghost(Call::CoInitializeEx { coinit, hr }));
        hr
    }

    pub(crate) fn co_uninitialize(&mut self)
        ensures
            final(self).log() == old(self).log().push(Call::CoUninitialize),
    {
        self.api.co_uninitialize();
        self.record(Ghost(Call::CoUninitialize));
    }

    pub(crate) fn co_increment_mta_usage(&mut self) -> (r: (i32, usize))
        ensures
            final(self).log() == old(self).log().push(Call::CoIncrementMtaUsage { hr: r.0, cookie: r.1 }),
    {
        let (hr, cookie) = self.api.co_increment_mta_usage();
        self.record(Ghost(Call::CoIncrementMtaUsage { hr, cookie }));
        (hr, cookie)
    }

    pub(crate) fn co_decrement_mta_usage(&mut self, cookie: usize) -> (hr: i32)
        ensures
            final(self).log() == old(self).log().push(Call::CoDecrementMtaUsage { cookie, hr }),
    {
        let hr = self.api.co_decrement_mta_usage(cookie);
        self.record(Ghost(Call::CoDecrementMtaUsage { cookie, hr }));
        hr
    }
}

} // verus!
