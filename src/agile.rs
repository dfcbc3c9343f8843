//! [`Agile`]: a shareable reference held through a portable reference token.

use crate::api::{one_call, Call, ComApi, Interface, Port};
use crate::errors::{succeeded, MethodHResult};
use crate::rc::Rc;
use core::marker::PhantomData;
use vstd::prelude::*;
use vstd::string::StringExecFns;

verus! {

broadcast use crate::errors::lemma_spec_new;

/// The policy under which a portable reference token is minted.
#[allow(non_camel_case_types)]
#[derive(Clone, Copy, PartialEq, Eq, Structural, PartialOrd, Ord, Hash)]
pub enum ReferenceOptions {
    /// Sets up portability at once, and fails if the object cannot be made portable.
    DEFAULT,
    /// Defers the set-up until the token is first resolved in another context.
    DELAYED_MARSHAL,
}

impl ReferenceOptions {
    /// The policy's value, as the object model takes it.
    pub open spec fn spec_value(&self) -> u32 {
        match self {
            ReferenceOptions::DEFAULT => 0,
            ReferenceOptions::DELAYED_MARSHAL => 1,
        }
    }

    /// The policy's value, as the object model takes it.
    pub fn value(&self) -> (r: u32)
        ensures
            r == self.spec_value(),
    {
        match self {
            ReferenceOptions::DEFAULT => 0,
            ReferenceOptions::DELAYED_MARSHAL => 1,
        }
    }

    /// The default policy: set up at once.
    pub fn from_unit(_u: ()) -> (r: Self)
        ensures
            r == ReferenceOptions::DEFAULT,
    {
        ReferenceOptions::DEFAULT
    }

    /// How the policy reads in diagnostics.
    pub open spec fn spec_debug_string(&self) -> Seq<char> {
        match self {
            ReferenceOptions::DEFAULT => "ReferenceOptions::DEFAULT"@,
            ReferenceOptions::DELAYED_MARSHAL => "ReferenceOptions::DELAYED_MARSHAL"@,
        }
    }

    /// How the policy reads in diagnostics: its name.
    pub fn debug_string(&self) -> (r: String)
        ensures
            r@ == self.spec_debug_string(),
    {
        match self {
            ReferenceOptions::DEFAULT => String::from_str("ReferenceOptions::DEFAULT"),
            ReferenceOptions::DELAYED_MARSHAL => String::from_str("ReferenceOptions::DELAYED_MARSHAL"),
        }
    }
}

impl Default for ReferenceOptions {
    fn default() -> (r: Self)
        ensures
            r == ReferenceOptions::DEFAULT,
    {
        ReferenceOptions::DEFAULT
    }
}

/// Minting and resolving a token for `h`: eager minting that reports a
/// failure `hr` (as a missing marshaller does) fails with `hr`; lazy minting
/// that reports success with a token holds that token; and a resolution that
/// reports success with `h`'s own address (as in the minting context) gives a
/// handle on `h`'s root capability, while one that reports a failure `rhr` (as
/// in a foreign context) fails with `rhr`.
pub proof fn lemma_mint_and_resolve<I>(h: Rc<I>, hr: i32, token: usize, rhr: i32, ptr: usize)
    requires
        h@ != 0,
    ensures
        !succeeded(hr) ==> (Agile::<I>::spec_from_token(hr, token) matches Err(e)
            && e.spec_method() == "RoGetAgileReference" && e.spec_hresult() == hr),
        succeeded(hr) && token != 0 ==> (Agile::<I>::spec_from_token(hr, token) matches Ok(a) && a@ == token),
        succeeded(rhr) && ptr == h.root() ==> (Rc::<I>::spec_from_result("IAgileReference::Resolve", rhr, ptr) matches Ok(r)
            && r.root() == h.root()),
        !succeeded(rhr) ==> (Rc::<I>::spec_from_result("IAgileReference::Resolve", rhr, ptr) matches Err(e)
            && e.spec_method() == "IAgileReference::Resolve" && e.spec_hresult() == rhr),
{
    Rc::<I>::lemma_adopt_view(ptr);
    Agile::<I>::lemma_adopt_view(token);
}

/// A shareable reference to a capability object, held as a portable reference
/// token. Any context may resolve the token; it fails where that context cannot
/// use the object safely.
pub struct Agile<I> {
    agile: usize,
    phantom: PhantomData<I>,
}

impl<I> View for Agile<I> {
    type V = usize;

    /// The address of the token.
    closed spec fn view(&self) -> usize {
        self.agile
    }
}

impl<I> Agile<I> {
    #[verifier::type_invariant]
    spec fn non_null(self) -> bool {
        self.agile != 0
    }

    /// The reference that holds the token at `token`.
    pub closed spec fn spec_adopt(token: usize) -> Agile<I> {
        Agile { agile: token, phantom: PhantomData }
    }

    /// An adopted token is held at its own address.
    pub proof fn lemma_adopt_view(token: usize)
        ensures
            Self::spec_adopt(token)@ == token,
    {
    }

    /// What minting that returned `hr` and `token` gives.
    pub open spec fn spec_from_token(hr: i32, token: usize) -> Result<Agile<I>, MethodHResult> {
        if succeeded(hr) && token != 0 {
            Ok(Self::spec_adopt(token))
        } else {
            Err(MethodHResult::spec_new("RoGetAgileReference", hr))
        }
    }

    /// What minting handed out: a shareable reference when `hr` reports success
    /// and the token is not null, otherwise the minting's error.
    pub fn from_token(hr: i32, token: usize) -> (r: Result<Self, MethodHResult>)
        ensures
            r == Self::spec_from_token(hr, token),
            r is Ok <==> succeeded(hr) && token != 0,
            r matches Ok(a) ==> a@ == token,
            r matches Err(e) ==> e.is("RoGetAgileReference", hr),
    {
        if hr < 0 || token == 0 {
            Err(MethodHResult::unchecked("RoGetAgileReference", hr))
        } else {
            Ok(Agile { agile: token, phantom: PhantomData })
        }
    }

    /// The address of the token, which this reference keeps.
    pub fn token(&self) -> (r: usize)
        ensures
            r == self@,
            r != 0,
    {
        proof {
            use_type_invariant(self);
        }
        self.agile
    }

    /// Another holder of the same token: counts one more reference to the
    /// token, and makes no other call.
    pub fn clone<A: ComApi>(&self, port: &mut Port<A>) -> (r: Self)
        ensures
            r == *self,
            final(port).log() == old(port).log().push(Call::AddRef { unk: self@ }),
    {
        port.add_ref(self.token());
        Agile { agile: self.agile, phantom: PhantomData }
    }

    /// Lets go of this holder: releases its one reference to the token, once,
    /// and makes no other call. Returns the count that the release left; at
    /// zero the token tore itself down.
    pub fn release<A: ComApi>(self, port: &mut Port<A>) -> (count: u32)
        ensures
            final(port).log() == old(port).log().push(Call::Release { unk: self@, count }),
    {
        port.release(self.token())
    }
}

impl<I: Interface> Agile<I> {
    /// Mints a token that is portable at once (policy `DEFAULT`). Fails where
    /// the object cannot be made portable, as when no marshaller is registered for `I`.
    pub fn try_from_eager<A: ComApi>(port: &mut Port<A>, unk: &Rc<I>) -> (r: Result<Self, MethodHResult>)
        ensures
            one_call(old(port).log(), final(port).log()),
            final(port).log().last() matches Call::RoGetAgileReference { options, iid, unk: u, hr, token }
                && options == ReferenceOptions::DEFAULT.spec_value() && iid == I::iid() && u == unk.root()
                && r == Self::spec_from_token(hr, token),
    {
        Self::ro_get_agile_reference(port, ReferenceOptions::DEFAULT, unk)
    }

    /// Mints a token whose portability is set up on first use in another
    /// context (policy `DELAYED_MARSHAL`). Resolving it may then fail in a
    /// context that cannot use the object.
    pub fn try_from_lazy<A: ComApi>(port: &mut Port<A>, unk: &Rc<I>) -> (r: Result<Self, MethodHResult>)
        ensures
            one_call(old(port).log(), final(port).log()),
            final(port).log().last() matches Call::RoGetAgileReference { options, iid, unk: u, hr, token }
                && options == ReferenceOptions::DELAYED_MARSHAL.spec_value() && iid == I::iid() && u == unk.root()
                && r == Self::spec_from_token(hr, token),
    {
        Self::ro_get_agile_reference(port, ReferenceOptions::DELAYED_MARSHAL, unk)
    }

    /// Mints a token for the root capability of `unk`, as capability `I`, under
    /// the policy `ro`: one minting call, whose result decides as
    /// [`Agile::from_token`] does. `unk` keeps its own reference.
    pub fn ro_get_agile_reference<A: ComApi>(
        port: &mut Port<A>,
        ro: ReferenceOptions,
        unk: &Rc<I>,
    ) -> (r: Result<Self, MethodHResult>)
        ensures
            one_call(old(port).log(), final(port).log()),
            final(port).log().last() matches Call::RoGetAgileReference { options, iid, unk: u, hr, token }
                && options == ro.spec_value() && iid == I::iid() && u == unk.root()
                && r == Self::spec_from_token(hr, token),
    {
        let iid = I::uuidof();
        let (hr, token) = port.ro_get_agile_reference(ro.value(), &iid, unk.as_iunknown_ptr());
        Self::from_token(hr, token)
    }

    /// A handle, for the calling context, on the object: one resolution by the
    /// token, whose result decides as [`Rc::from_result`] does. The token
    /// counts the reference of the new handle. Fails with the token's status
    /// where the calling context cannot use the object safely.
    pub fn resolve<A: ComApi>(&self, port: &mut Port<A>) -> (r: Result<Rc<I>, MethodHResult>)
        ensures
            one_call(old(port).log(), final(port).log()),
            final(port).log().last() matches Call::AgileResolve { agile, iid, hr, ptr }
                && agile == self@ && iid == I::iid()
                && r == Rc::<I>::spec_from_result("IAgileReference::Resolve", hr, ptr),
    {
        let iid = I::uuidof();
        let (hr, ptr) = port.agile_resolve(self.token(), &iid);
        Rc::from_result("IAgileReference::Resolve", hr, ptr)
    }
}

} // verus!
