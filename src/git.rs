//! [`Git`]: a shareable reference kept as a cookie of the calling context's lookup table.

use crate::api::{one_call, two_calls, Call, ComApi, Interface, Port};
use crate::errors::{succeeded, MethodHResult};
use crate::rc::Rc;
use core::marker::PhantomData;
use std::sync::Arc;
use vstd::prelude::*;

verus! {

broadcast use crate::errors::lemma_spec_new;

/// Relies on std's `Arc::clone`: the new pointer shares the allocation of `a`,
/// so it reads the same value.
#[verifier::external_body]
fn arc_clone<T>(a: &Arc<T>) -> (r: Arc<T>)
    ensures
        *r == **a,
{
    Arc::clone(a)
}

/// Relies on std's `Arc::into_inner`: it hands out the shared value when `a`
/// was its last strong pointer, and `None` otherwise.
#[verifier::external_body]
fn arc_into_inner<T>(a: Arc<T>) -> (r: Option<T>)
    ensures
        r matches Some(v) ==> v == *a,
{
    Arc::into_inner(a)
}

/// The name under which registration failures are reported.
pub open spec fn register_method() -> &'static str {
    "IGlobalInterfaceTable::RegisterInterfaceInGlobal"
}

/// What revoking a registration that returned `hr` gives the last holder.
pub open spec fn spec_revoked(hr: i32) -> Result<bool, MethodHResult> {
    if succeeded(hr) {
        Ok(true)
    } else {
        Err(MethodHResult::spec_new("IGlobalInterfaceTable::RevokeInterfaceFromGlobal", hr))
    }
}

/// One row of a lookup table: a non-zero cookie, as the table handed it out.
struct Cookie<I> {
    cookie: u32,
    phantom: PhantomData<I>,
}

impl<I> View for Cookie<I> {
    type V = u32;

    closed spec fn view(&self) -> u32 {
        self.cookie
    }
}

impl<I> Cookie<I> {
    #[verifier::type_invariant]
    spec fn valid(self) -> bool {
        self.cookie != 0
    }

    fn value(&self) -> (r: u32)
        ensures
            r == self@,
            r != 0,
    {
        proof {
            use_type_invariant(self);
        }
        self.cookie
    }

    /// Removes the row from the calling context's table: one revocation of its cookie.
    fn revoke<A: ComApi>(self, port: &mut Port<A>) -> (r: Result<bool, MethodHResult>)
        ensures
            one_call(old(port).log(), final(port).log()),
            final(port).log().last() matches Call::RevokeInterfaceFromGlobal { cookie, hr }
                && cookie == self@ && r == spec_revoked(hr),
    {
        let hr = port.revoke_interface_from_global(self.value());
        if hr >= 0 {
            Ok(true)
        } else {
            Err(MethodHResult::unchecked("IGlobalInterfaceTable::RevokeInterfaceFromGlobal", hr))
        }
    }
}

impl<I: Interface> Cookie<I> {
    /// Registers the root capability of `rc`, as capability `I`, in the calling
    /// context's table; `rc` keeps its own reference. A registration that
    /// reports success with the reserved cookie zero still has its entry torn
    /// down, by a revocation of that cookie, and counts as failed.
    fn new<A: ComApi>(port: &mut Port<A>, rc: &Rc<I>) -> (r: Result<Self, MethodHResult>)
        ensures
            final(port).log().len() > old(port).log().len(),
            final(port).log()[old(port).log().len() as int] matches Call::RegisterInterfaceInGlobal {
                unk,
                iid,
                hr,
                cookie,
            } && unk == rc.root() && iid == I::iid() && if succeeded(hr) && cookie != 0 {
                one_call(old(port).log(), final(port).log()) && (r matches Ok(c) && c@ == cookie)
            } else if succeeded(hr) {
                two_calls(old(port).log(), final(port).log())
                    && (final(port).log().last() matches Call::RevokeInterfaceFromGlobal { cookie: zero, .. }
                    && zero == 0) && r == Err::<Self, MethodHResult>(MethodHResult::spec_new(register_method(), hr))
            } else {
                one_call(old(port).log(), final(port).log())
                    && r == Err::<Self, MethodHResult>(MethodHResult::spec_new(register_method(), hr))
            },
    {
        let iid = I::uuidof();
        let (hr, cookie) = port.register_interface_in_global(rc.as_iunknown_ptr(), &iid);
        if hr < 0 {
            Err(MethodHResult::unchecked("IGlobalInterfaceTable::RegisterInterfaceInGlobal", hr))
        } else if cookie == 0 {
            let _teardown = port.revoke_interface_from_global(cookie);
            Err(MethodHResult::unchecked("IGlobalInterfaceTable::RegisterInterfaceInGlobal", hr))
        } else {
            Ok(Cookie { cookie, phantom: PhantomData })
        }
    }

    /// Looks the row up in the calling context's table: one lookup, whose
    /// result decides as [`Rc::from_result`] does. The lookup counts the
    /// reference of the new handle.
    fn get<A: ComApi>(&self, port: &mut Port<A>) -> (r: Result<Rc<I>, MethodHResult>)
        ensures
            one_call(old(port).log(), final(port).log()),
            final(port).log().last() matches Call::GetInterfaceFromGlobal { cookie, iid, hr, ptr }
                && cookie == self@ && iid == I::iid()
                && r == Rc::<I>::spec_from_result("IGlobalInterfaceTable::GetInterfaceFromGlobal", hr, ptr),
    {
        let iid = I::uuidof();
        let (hr, ptr) = port.get_interface_from_global(self.value(), &iid);
        Rc::from_result("IGlobalInterfaceTable::GetInterfaceFromGlobal", hr, ptr)
    }
}

/// What a holder that let go does with what `Arc::into_inner` gave it: the
/// last holder (`Some`) revokes the registration, once; any other (`None`)
/// makes no call and returns `Ok(false)`.
fn revoke_if_last<I, A: ComApi>(last: Option<Cookie<I>>, port: &mut Port<A>) -> (r: Result<bool, MethodHResult>)
    ensures
        last is None ==> r == Ok::<bool, MethodHResult>(false) && final(port).log() == old(port).log(),
        last matches Some(c) ==> (one_call(old(port).log(), final(port).log())
            && (final(port).log().last() matches Call::RevokeInterfaceFromGlobal { cookie, hr }
            && cookie == c@ && r == spec_revoked(hr))),
{
    match last {
        Some(c) => c.revoke(port),
        None => Ok(false),
    }
}

/// Resolving a cookie: where the calling context's table reports success with
/// the registered object's own address (as the registering context's table
/// does), the handle that [`Git::resolve`] returns is on the root capability of
/// the registered handle `h`; where it reports a failure `hr` (as another
/// context's table does for a cookie it does not know), the error carries `hr`.
pub proof fn lemma_resolve_outcome<I>(h: Rc<I>, hr: i32, ptr: usize)
    requires
        h@ != 0,
    ensures
        succeeded(hr) && ptr == h.root() ==> (Rc::<I>::spec_from_result(
            "IGlobalInterfaceTable::GetInterfaceFromGlobal",
            hr,
            ptr,
        ) matches Ok(r) && r.root() == h.root()),
        !succeeded(hr) ==> (Rc::<I>::spec_from_result("IGlobalInterfaceTable::GetInterfaceFromGlobal", hr, ptr) matches Err(e)
            && e.spec_method() == "IGlobalInterfaceTable::GetInterfaceFromGlobal" && e.spec_hresult() == hr),
{
    Rc::<I>::lemma_adopt_view(ptr);
}

/// A shareable reference to a capability object, kept as one registration in the
/// lookup table of the context that made it.
///
/// Every clone shares the one registration; the last holder to let go revokes
/// it. Any context may resolve the cookie: each gets a handle of its own, or
/// an error where the table it reaches does not know the cookie.
pub struct Git<I> {
    shared: Arc<Cookie<I>>,
}

impl<I> View for Git<I> {
    type V = u32;

    /// The cookie of the registration.
    closed spec fn view(&self) -> u32 {
        (*self.shared)@
    }
}

impl<I> Git<I> {
    /// What a registration handed out: a shareable reference when `hr` reports
    /// success and the cookie is not zero, otherwise the registration's error.
    pub fn from_registration(hr: i32, cookie: u32) -> (r: Result<Self, MethodHResult>)
        ensures
            r is Ok <==> succeeded(hr) && cookie != 0,
            r matches Ok(g) ==> g@ == cookie,
            r is Err ==> r == Err::<Self, MethodHResult>(MethodHResult::spec_new(register_method(), hr)),
    {
        if hr < 0 || cookie == 0 {
            Err(MethodHResult::unchecked("IGlobalInterfaceTable::RegisterInterfaceInGlobal", hr))
        } else {
            Ok(Git { shared: Arc::new(Cookie { cookie, phantom: PhantomData }) })
        }
    }

    /// The cookie of the registration. It is never zero.
    pub fn cookie(&self) -> (r: u32)
        ensures
            r == self@,
            r != 0,
    {
        self.shared.value()
    }

    /// Another holder of the same registration: it shares the one row, and
    /// reaches no object model at all.
    pub fn clone(&self) -> (r: Self)
        ensures
            r@ == self@,
    {
        Git { shared: arc_clone(&self.shared) }
    }

    /// Lets go of this holder. A holder that is not the last makes no call and
    /// returns `Ok(false)`. The last holder revokes the registration's cookie,
    /// once, and returns `Ok(true)`, or the revocation's error. A failed
    /// revocation means that the table is corrupt: the caller must not go on.
    pub fn release<A: ComApi>(self, port: &mut Port<A>) -> (r: Result<bool, MethodHResult>)
        ensures
            r == Ok::<bool, MethodHResult>(false) ==> final(port).log() == old(port).log(),
            r != Ok::<bool, MethodHResult>(false) ==> (one_call(old(port).log(), final(port).log())
                && (final(port).log().last() matches Call::RevokeInterfaceFromGlobal { cookie, hr }
                && cookie == self@ && r == spec_revoked(hr))),
    {
        revoke_if_last(arc_into_inner(self.shared), port)
    }
}

impl<I: Interface> Git<I> {
    /// Registers `unk`'s root capability, as capability `I`, in the calling
    /// context's lookup table, and holds the cookie that the table returned.
    /// Whether another context can use the object is found out only when it
    /// resolves the cookie. A success with the reserved cookie zero has its
    /// entry revoked again and counts as failed.
    pub fn try_from_lazy<A: ComApi>(port: &mut Port<A>, unk: &Rc<I>) -> (r: Result<Self, MethodHResult>)
        ensures
            final(port).log().len() > old(port).log().len(),
            final(port).log()[old(port).log().len() as int] matches Call::RegisterInterfaceInGlobal {
                unk: u,
                iid,
                hr,
                cookie,
            } && u == unk.root() && iid == I::iid() && if succeeded(hr) && cookie != 0 {
                one_call(old(port).log(), final(port).log()) && (r matches Ok(g) && g@ == cookie)
            } else if succeeded(hr) {
                two_calls(old(port).log(), final(port).log())
                    && (final(port).log().last() matches Call::RevokeInterfaceFromGlobal { cookie: zero, .. }
                    && zero == 0) && r is Err && r == Err::<Self, MethodHResult>(MethodHResult::spec_new(register_method(), hr))
            } else {
                one_call(old(port).log(), final(port).log())
                    && r is Err && r == Err::<Self, MethodHResult>(MethodHResult::spec_new(register_method(), hr))
            },
    {
        match Cookie::new(port, unk) {
            Ok(c) => Ok(Git { shared: Arc::new(c) }),
            Err(e) => Err(e),
        }
    }

    /// A handle, for the calling context, on the registered object: one lookup
    /// of the cookie, whose result decides as [`Rc::from_result`] does. It
    /// fails with the lookup's status where the calling context's table does
    /// not know the cookie.
    pub fn resolve<A: ComApi>(&self, port: &mut Port<A>) -> (r: Result<Rc<I>, MethodHResult>)
        ensures
            one_call(old(port).log(), final(port).log()),
            final(port).log().last() matches Call::GetInterfaceFromGlobal { cookie, iid, hr, ptr }
                && cookie == self@ && iid == I::iid()
                && r == Rc::<I>::spec_from_result("IGlobalInterfaceTable::GetInterfaceFromGlobal", hr, ptr),
    {
        self.shared.get(port)
    }
}

} // verus!
