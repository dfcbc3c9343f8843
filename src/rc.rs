//! [`Rc`]: an owning, context-bound reference to a capability object.

use crate::api::{one_call, Call, ComApi, Derives, Guid, IUnknown, Interface, MultiQi, Port};
use crate::errors::{succeeded, MethodHResult, E_ARITHMETIC_OVERFLOW, E_UNEXPECTED};
use core::marker::PhantomData;
use vstd::prelude::*;

verus! {

broadcast use crate::errors::lemma_spec_new;

/// The context in which an in-process server runs.
pub const CLSCTX_INPROC_SERVER: u32 = 1;

/// An owned reference to the object at a non-null address, seen as capability `I`.
///
/// The handle counts as one reference of the object. It stays in the context
/// that made it: it is neither `Send` nor `Sync`.
pub struct Rc<I> {
    ptr: usize,
    phantom: PhantomData<I>,
    not_shareable: PhantomData<std::rc::Rc<()>>,
}

impl<I> View for Rc<I> {
    type V = usize;

    /// The address of the object.
    closed spec fn view(&self) -> usize {
        self.ptr
    }
}

impl<I> Rc<I> {
    #[verifier::type_invariant]
    spec fn non_null(self) -> bool {
        self.ptr != 0
    }

    /// The handle that adopting the address `ptr` makes.
    pub closed spec fn spec_adopt(ptr: usize) -> Rc<I> {
        Rc { ptr, phantom: PhantomData, not_shareable: PhantomData }
    }

    /// An adopted handle is on the address it adopted.
    pub proof fn lemma_adopt_view(ptr: usize)
        ensures
            Self::spec_adopt(ptr)@ == ptr,
    {
    }

    /// What adopting the address `ptr` gives: no handle for the null address.
    pub open spec fn spec_from_raw_opt(ptr: usize) -> Option<Rc<I>> {
        if ptr == 0 {
            None
        } else {
            Some(Self::spec_adopt(ptr))
        }
    }

    /// What a call named `method` that returned `hr` and `ptr` gives.
    pub open spec fn spec_from_result(method: &'static str, hr: i32, ptr: usize) -> Result<Rc<I>, MethodHResult> {
        if succeeded(hr) && ptr != 0 {
            Ok(Self::spec_adopt(ptr))
        } else {
            Err(MethodHResult::spec_new(method, hr))
        }
    }

    /// What a capability query that returned `hr` and `ptr` gives.
    pub open spec fn spec_from_query(hr: i32, ptr: usize) -> Option<Rc<I>> {
        if succeeded(hr) {
            Self::spec_from_raw_opt(ptr)
        } else {
            None
        }
    }

    /// What the entries of a batched creation give, once the object model filled them.
    pub open spec fn spec_from_entry(entries: Seq<MultiQi>) -> Result<Rc<I>, MethodHResult> {
        if entries.len() == 0 {
            Err(MethodHResult::spec_new("CoCreateInstanceFromApp(..., [0].hr)", E_UNEXPECTED))
        } else {
            Self::spec_from_result("CoCreateInstanceFromApp(..., [0].hr)", entries[0].hr, entries[0].itf)
        }
    }

    /// The address of the object's root capability. The root capability shares
    /// its layout with every capability, so it lies at the same address.
    pub open spec fn root(&self) -> usize {
        self@
    }

    /// Takes over the reference that `ptr` holds, without counting a new one.
    /// Gives `None` for the null address.
    pub fn from_raw_opt(ptr: usize) -> (r: Option<Self>)
        ensures
            r == Self::spec_from_raw_opt(ptr),
            r is Some <==> ptr != 0,
            r matches Some(h) ==> h@ == ptr,
    {
        if ptr == 0 {
            None
        } else {
            Some(Rc { ptr, phantom: PhantomData, not_shareable: PhantomData })
        }
    }

    /// Takes over the reference that the non-null `ptr` holds, without counting a new one.
    pub fn from_raw(ptr: usize) -> (r: Self)
        requires
            ptr != 0,
        ensures
            r == Self::spec_adopt(ptr),
            r@ == ptr,
    {
        Rc { ptr, phantom: PhantomData, not_shareable: PhantomData }
    }

    /// Takes over the reference that the non-null `ptr` holds, without counting a new one.
    pub fn from_raw_unchecked(ptr: usize) -> (r: Self)
        requires
            ptr != 0,
        ensures
            r@ == ptr,
    {
        Self::from_raw(ptr)
    }

    /// Adopts what a call named `method` handed out: a handle when `hr` reports
    /// success and `ptr` is not null, otherwise the call's error.
    pub fn from_result(method: &'static str, hr: i32, ptr: usize) -> (r: Result<Self, MethodHResult>)
        ensures
            r == Self::spec_from_result(method, hr, ptr),
            r is Ok <==> succeeded(hr) && ptr != 0,
            r matches Ok(h) ==> h@ == ptr,
            r matches Err(e) ==> e.is(method, hr),
    {
        match MethodHResult::check(method, hr) {
            Err(e) => Err(e),
            Ok(()) => match Self::from_raw_opt(ptr) {
                Some(h) => Ok(h),
                None => Err(MethodHResult::unchecked(method, hr)),
            },
        }
    }

    /// Adopts what a capability query handed out: a handle when `hr` reports
    /// success and `ptr` is not null; `None` for every other status, the
    /// absence of the capability among them.
    pub fn from_query(hr: i32, ptr: usize) -> (r: Option<Self>)
        ensures
            r == Self::spec_from_query(hr, ptr),
            r is Some <==> succeeded(hr) && ptr != 0,
            r matches Some(h) ==> h@ == ptr,
    {
        if hr < 0 {
            None
        } else {
            Self::from_raw_opt(ptr)
        }
    }

    /// The address of the object, for handing to the object model. The handle keeps its reference.
    pub fn as_ptr(&self) -> (r: usize)
        ensures
            r == self@,
            r != 0,
    {
        proof {
            use_type_invariant(self);
        }
        self.ptr
    }

    /// The address of the object's root capability. No count changes.
    pub fn as_iunknown_ptr(&self) -> (r: usize)
        ensures
            r == self.root(),
            r != 0,
    {
        self.as_ptr()
    }

    /// Gives up the handle without releasing its reference, and returns the address.
    /// Unless the receiver of the address takes the reference over, it leaks.
    pub fn into_raw(self) -> (r: usize)
        ensures
            r == self@,
            r != 0,
    {
        self.as_ptr()
    }

    /// Another handle on the same object: counts one more reference, through
    /// the root capability, and makes no other call.
    pub fn clone<A: ComApi>(&self, port: &mut Port<A>) -> (r: Self)
        ensures
            r == *self,
            final(port).log() == old(port).log().push(Call::AddRef { unk: self.root() }),
    {
        port.add_ref(self.as_iunknown_ptr());
        Rc { ptr: self.ptr, phantom: PhantomData, not_shareable: PhantomData }
    }

    /// Ends the handle: releases its one reference, once, through the release
    /// entry of the object's own function table, and makes no other call.
    /// Returns the count that the release left; at zero the object tore itself down.
    pub fn release<A: ComApi>(self, port: &mut Port<A>) -> (count: u32)
        ensures
            final(port).log() == old(port).log().push(Call::Release { unk: self.root(), count }),
    {
        port.release(self.as_iunknown_ptr())
    }

    /// The same object seen as its base capability `B`: `Ok` when the address
    /// that the derivation gives, `base`, is this handle's own, otherwise the
    /// handle back unchanged.
    pub fn up_at<B>(self, base: usize) -> (r: Result<Rc<B>, Self>)
        ensures
            r is Ok <==> base == self@,
            r matches Ok(b) ==> b@ == self@,
            r matches Err(h) ==> h == self,
    {
        proof {
            use_type_invariant(&self);
        }
        if base == self.ptr {
            Ok(Rc { ptr: self.ptr, phantom: PhantomData, not_shareable: PhantomData })
        } else {
            Err(self)
        }
    }
}

impl<I: Interface> Rc<I> {
    /// Asks the object, through its root capability, for the capability `J`:
    /// one query, whose result decides as [`Rc::from_query`] does. The query
    /// counts the reference of the new handle.
    pub fn try_cast<J: Interface, A: ComApi>(&self, port: &mut Port<A>) -> (r: Option<Rc<J>>)
        ensures
            one_call(old(port).log(), final(port).log()),
            final(port).log().last() matches Call::QueryInterface { unk, iid, hr, ptr }
                && unk == self.root() && iid == J::iid() && r == Rc::<J>::spec_from_query(hr, ptr),
    {
        let iid = J::uuidof();
        let (hr, ptr) = port.query_interface(self.as_iunknown_ptr(), &iid);
        Rc::from_query(hr, ptr)
    }

    /// The same object seen as its base capability `B`. The handle comes back
    /// unchanged when the derivation of `I` puts the base view anywhere but at
    /// the handle's own address: a capability whose derivation disagrees with
    /// its layout is refused.
    pub fn up<B: Interface>(self) -> (r: Result<Rc<B>, Self>)
        where I: Derives<B>,
        ensures
            r is Ok <==> <I as Derives<B>>::spec_base(self@) == self@,
            r matches Ok(b) ==> b@ == self@,
            r matches Err(h) ==> h == self,
    {
        let base = I::base_ptr(self.as_ptr());
        self.up_at(base)
    }

    /// Creates an object of class `clsid`, aggregated by `outer` if given, and
    /// asks it for capability `I`, in process.
    pub fn co_create<A: ComApi>(port: &mut Port<A>, clsid: Guid, outer: Option<&Rc<IUnknown>>) -> (r: Result<Self, MethodHResult>)
        ensures
            one_call(old(port).log(), final(port).log()),
            final(port).log().last() matches Call::CoCreateInstance { clsid: c, outer: o, clsctx, iid, hr, ptr }
                && c == clsid && o == spec_outer_ptr(outer) && clsctx == CLSCTX_INPROC_SERVER && iid == I::iid()
                && r == Self::spec_from_result("CoCreateInstance", hr, ptr),
    {
        Self::co_create_instance(port, clsid, outer, CLSCTX_INPROC_SERVER)
    }

    /// Creates an object of class `clsid` in the context `clsctx` and asks it for
    /// capability `I`: one creation call, whose result decides as [`Rc::from_result`] does.
    pub fn co_create_instance<A: ComApi>(
        port: &mut Port<A>,
        clsid: Guid,
        outer: Option<&Rc<IUnknown>>,
        clsctx: u32,
    ) -> (r: Result<Self, MethodHResult>)
        ensures
            one_call(old(port).log(), final(port).log()),
            final(port).log().last() matches Call::CoCreateInstance { clsid: c, outer: o, clsctx: x, iid, hr, ptr }
                && c == clsid && o == spec_outer_ptr(outer) && x == clsctx && iid == I::iid()
                && r == Self::spec_from_result("CoCreateInstance", hr, ptr),
    {
        let outer = outer_ptr(outer);
        let iid = I::uuidof();
        let (hr, ptr) = port.co_create_instance(&clsid, outer, clsctx, &iid);
        Self::from_result("CoCreateInstance", hr, ptr)
    }

    /// Creates an object of class `clsid` from a sandboxed application through a
    /// batched request of one entry, for capability `I`. The call's own status
    /// decides first, then the entry's, as [`Rc::from_entry`] does.
    pub fn co_create_instance_from_app<A: ComApi>(
        port: &mut Port<A>,
        clsid: Guid,
        outer: Option<&Rc<IUnknown>>,
        clsctx: u32,
    ) -> (r: Result<Self, MethodHResult>)
        ensures
            one_call(old(port).log(), final(port).log()),
            final(port).log().last() matches Call::CoCreateInstanceFromApp {
                clsid: c,
                outer: o,
                clsctx: x,
                count,
                request,
                response,
                hr,
            } && c == clsid && o == spec_outer_ptr(outer) && x == clsctx && count == 1
                && request == seq![MultiQi { iid: I::iid(), itf: 0, hr: 0 }]
                && r == if succeeded(hr) {
                    Self::spec_from_entry(response)
                } else {
                    Err(MethodHResult::spec_new("CoCreateInstanceFromApp", hr))
                },
    {
        let iid = I::uuidof();
        let mut mqi: Vec<MultiQi> = Vec::new();
        mqi.push(MultiQi { iid, itf: 0, hr: 0 });
        proof {
            assert(mqi@ == seq![MultiQi { iid: I::iid(), itf: 0, hr: 0 }]);
        }
        match co_create_instance_from_app(port, clsid, outer, clsctx, &mut mqi) {
            Ok(()) => Self::from_entry(&mqi),
            Err(e) => Err(e),
        }
    }

    /// Adopts the first entry of a batched creation: a handle when the entry's own
    /// status reports success and its address is not null, otherwise the entry's
    /// error. A batch that the object model emptied is an unexpected failure.
    pub fn from_entry(mqi: &Vec<MultiQi>) -> (r: Result<Self, MethodHResult>)
        ensures
            r == Self::spec_from_entry(mqi@),
            mqi@.len() > 0 ==> (r matches Ok(h) ==> h@ == mqi@[0].itf),
    {
        if mqi.len() == 0 {
            return Err(MethodHResult::unchecked("CoCreateInstanceFromApp(..., [0].hr)", E_UNEXPECTED));
        }
        let entry = mqi[0];
        Self::from_result("CoCreateInstanceFromApp(..., [0].hr)", entry.hr, entry.itf)
    }
}

/// Adopting the address that a clone of `h` gave up gives a handle on the same
/// root capability as `h`: `c` is what `h.clone(port)` returned, and `raw` what
/// `c.into_raw()` returned.
pub proof fn lemma_adopt_clone_into_raw<I>(h: Rc<I>, c: Rc<I>, raw: usize)
    requires
        h@ != 0,
        c@ == h@,
        raw == c@,
    ensures
        Rc::<I>::spec_from_raw_opt(raw) matches Some(a) && a.root() == h.root(),
{
}

/// The address of the outer object of an aggregation, or zero for none.
pub open spec fn spec_outer_ptr(outer: Option<&Rc<IUnknown>>) -> usize {
    match outer {
        Some(o) => o.root(),
        None => 0,
    }
}

/// The address of the outer object of an aggregation, or zero for none.
fn outer_ptr(outer: Option<&Rc<IUnknown>>) -> (r: usize)
    ensures
        r == spec_outer_ptr(outer),
{
    match outer {
        Some(o) => o.as_iunknown_ptr(),
        None => 0,
    }
}

/// The number of entries of a batched request, as the object model takes it:
/// an overflow error where the count does not fit in 32 bits.
pub fn batch_count(len: usize) -> (r: Result<u32, MethodHResult>)
    ensures
        r is Ok <==> len <= u32::MAX,
        r matches Ok(n) ==> n == len,
        r matches Err(e) ==> e == MethodHResult::spec_new("co_create_instance_from_app", E_ARITHMETIC_OVERFLOW),
{
    if len <= u32::MAX as usize {
        Ok(len as u32)
    } else {
        Err(MethodHResult::unchecked("co_create_instance_from_app", E_ARITHMETIC_OVERFLOW))
    }
}

/// Creates an object of class `clsid` from a sandboxed application and asks it
/// for each capability that `out` names, filling in each entry. Where the
/// number of entries does not fit in 32 bits, no call is made.
pub fn co_create_instance_from_app<A: ComApi>(
    port: &mut Port<A>,
    clsid: Guid,
    outer: Option<&Rc<IUnknown>>,
    clsctx: u32,
    out: &mut Vec<MultiQi>,
) -> (r: Result<(), MethodHResult>)
    ensures
        old(out)@.len() > u32::MAX ==> r == Err::<(), MethodHResult>(
            MethodHResult::spec_new("co_create_instance_from_app", E_ARITHMETIC_OVERFLOW),
        ) && final(out)@ == old(out)@ && final(port).log() == old(port).log(),
        old(out)@.len() <= u32::MAX ==> one_call(old(port).log(), final(port).log()),
        old(out)@.len() <= u32::MAX ==> (final(port).log().last() matches Call::CoCreateInstanceFromApp {
            clsid: c,
            outer: o,
            clsctx: x,
            count,
            request,
            response,
            hr,
        } && c == clsid && o == spec_outer_ptr(outer) && x == clsctx && count == old(out)@.len()
            && request == old(out)@ && response == final(out)@
            && r == MethodHResult::spec_check("CoCreateInstanceFromApp", hr)),
{
    let count = match batch_count(out.len()) {
        Ok(n) => n,
        Err(e) => return Err(e),
    };
    let outer = outer_ptr(outer);
    let hr = port.co_create_instance_from_app(&clsid, outer, clsctx, count, out);
    MethodHResult::check("CoCreateInstanceFromApp", hr)
}

} // verus!
