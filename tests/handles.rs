use mcom::errors::{E_NOINTERFACE, REGDB_E_IIDNOTREG, RPC_E_CHANGED_MODE, S_FALSE, S_OK};
use mcom::init::{mta, sta, MTAUsageScope};
use mcom::rc::co_create_instance_from_app;
use mcom::{Agile, ComApi, Derives, Git, Guid, IUnknown, Interface, MethodHResult, MultiQi, Port, Rc};
use std::cell::{Cell, RefCell};
use std::collections::HashMap;

const E_INVALIDARG: i32 = 0x80070057u32 as i32;
const REGDB_E_CLASSNOTREG: i32 = 0x80040154u32 as i32;
const RPC_E_WRONG_THREAD: i32 = 0x8001010Eu32 as i32;

fn guid(n: u32) -> Guid {
    Guid { data1: n, data2: 0x1234, data3: 0x5678, data4: [1, 2, 3, 4, 5, 6, 7, 8] }
}

struct IFoo;
impl Interface for IFoo {
    fn iid() -> Guid {
        guid(1)
    }

    fn uuidof() -> Guid {
        Self::iid()
    }
}
impl Derives<IUnknown> for IFoo {
    fn spec_base(ptr: usize) -> usize {
        ptr
    }

    fn base_ptr(ptr: usize) -> usize {
        Self::spec_base(ptr)
    }
}

struct IBar;
impl Interface for IBar {
    fn iid() -> Guid {
        guid(2)
    }

    fn uuidof() -> Guid {
        Self::iid()
    }
}

/// A capability whose derivation puts its base view away from its own address.
struct IMisplaced;
impl Interface for IMisplaced {
    fn iid() -> Guid {
        guid(3)
    }

    fn uuidof() -> Guid {
        Self::iid()
    }
}
impl Derives<IUnknown> for IMisplaced {
    fn spec_base(ptr: usize) -> usize {
        ptr + 8
    }

    fn base_ptr(ptr: usize) -> usize {
        Self::spec_base(ptr)
    }
}

struct Obj {
    refs: u32,
    iids: Vec<Guid>,
    marshalable: bool,
}

struct Token {
    target: usize,
    home: u32,
    lazy: bool,
}

#[derive(Default, Clone, Copy)]
struct Counts {
    add_ref: u32,
    release: u32,
    to_zero: u32,
    revoke: u32,
    uninit: u32,
}

/// An object model in memory: objects with reference counts, one lookup table
/// per context, and portable tokens that remember the context that minted them.
struct MockCom {
    context: Cell<u32>,
    objects: RefCell<HashMap<usize, Obj>>,
    next_addr: Cell<usize>,
    tables: RefCell<HashMap<(u32, u32), usize>>,
    next_cookie: Cell<u32>,
    tokens: RefCell<HashMap<usize, Token>>,
    counts: Cell<Counts>,
    coinit: Cell<Option<u32>>,
    init_status: Cell<i32>,
    fixed_cookie: Cell<Option<u32>>,
    last_outer: Cell<usize>,
}

impl MockCom {
    fn new() -> Self {
        MockCom {
            context: Cell::new(1),
            objects: RefCell::new(HashMap::new()),
            next_addr: Cell::new(0x1000),
            tables: RefCell::new(HashMap::new()),
            next_cookie: Cell::new(1),
            tokens: RefCell::new(HashMap::new()),
            counts: Cell::new(Counts::default()),
            coinit: Cell::new(None),
            init_status: Cell::new(S_OK),
            fixed_cookie: Cell::new(None),
            last_outer: Cell::new(usize::MAX),
        }
    }

    fn allocate(&self, iids: Vec<Guid>, marshalable: bool) -> usize {
        let addr = self.next_addr.get();
        self.next_addr.set(addr + 0x1000);
        self.objects.borrow_mut().insert(addr, Obj { refs: 1, iids, marshalable });
        addr
    }

    /// A new object with one reference, for the caller to adopt.
    fn object(&self, marshalable: bool) -> usize {
        self.allocate(vec![IFoo::uuidof(), IMisplaced::uuidof()], marshalable)
    }

    fn refs(&self, addr: usize) -> u32 {
        self.objects.borrow().get(&addr).map_or(0, |o| o.refs)
    }

    fn alive(&self, addr: usize) -> bool {
        self.objects.borrow().contains_key(&addr)
    }

    fn counts(&self) -> Counts {
        self.counts.get()
    }

    fn bump(&self, f: impl FnOnce(&mut Counts)) {
        let mut c = self.counts.get();
        f(&mut c);
        self.counts.set(c);
    }

    fn enter(&self, context: u32) {
        self.context.set(context);
    }
}

impl ComApi for MockCom {
    fn add_ref(&self, unk: usize) -> u32 {
        self.bump(|c| c.add_ref += 1);
        let mut objects = self.objects.borrow_mut();
        let o = objects.get_mut(&unk).expect("add_ref on a dead object");
        o.refs += 1;
        o.refs
    }

    fn release(&self, unk: usize) -> u32 {
        self.bump(|c| c.release += 1);
        let left = {
            let mut objects = self.objects.borrow_mut();
            let o = objects.get_mut(&unk).expect("release on a dead object");
            o.refs -= 1;
            o.refs
        };
        if left == 0 {
            self.bump(|c| c.to_zero += 1);
            self.objects.borrow_mut().remove(&unk);
            let token = self.tokens.borrow_mut().remove(&unk);
            if let Some(t) = token {
                self.release(t.target);
            }
        }
        left
    }

    fn query_interface(&self, unk: usize, iid: &Guid) -> (i32, usize) {
        let found = {
            let objects = self.objects.borrow();
            let o = objects.get(&unk).expect("query on a dead object");
            *iid == IUnknown::uuidof() || o.iids.contains(iid)
        };
        if found {
            self.add_ref(unk);
            (S_OK, unk)
        } else {
            (E_NOINTERFACE, 0)
        }
    }

    fn co_create_instance(&self, clsid: &Guid, outer: usize, _clsctx: u32, iid: &Guid) -> (i32, usize) {
        self.last_outer.set(outer);
        if *clsid != guid(100) {
            return (REGDB_E_CLASSNOTREG, 0);
        }
        let obj = self.object(true);
        let (hr, ptr) = self.query_interface(obj, iid);
        self.release(obj);
        (hr, ptr)
    }

    fn co_create_instance_from_app(
        &self,
        clsid: &Guid,
        _outer: usize,
        _clsctx: u32,
        count: u32,
        results: &mut Vec<MultiQi>,
    ) -> i32 {
        if *clsid != guid(100) {
            return REGDB_E_CLASSNOTREG;
        }
        let obj = self.object(true);
        for entry in results.iter_mut().take(count as usize) {
            let (hr, ptr) = self.query_interface(obj, &entry.iid);
            entry.hr = hr;
            entry.itf = ptr;
        }
        self.release(obj);
        S_OK
    }

    fn register_interface_in_global(&self, unk: usize, _iid: &Guid) -> (i32, u32) {
        if let Some(c) = self.fixed_cookie.get() {
            return (S_OK, c);
        }
        let cookie = self.next_cookie.get();
        self.next_cookie.set(cookie + 1);
        self.add_ref(unk);
        self.tables.borrow_mut().insert((self.context.get(), cookie), unk);
        (S_OK, cookie)
    }

    fn get_interface_from_global(&self, cookie: u32, iid: &Guid) -> (i32, usize) {
        let found = self.tables.borrow().get(&(self.context.get(), cookie)).copied();
        match found {
            Some(unk) => self.query_interface(unk, iid),
            None => (E_INVALIDARG, 0),
        }
    }

    fn revoke_interface_from_global(&self, cookie: u32) -> i32 {
        self.bump(|c| c.revoke += 1);
        let found = self.tables.borrow_mut().remove(&(self.context.get(), cookie));
        match found {
            Some(unk) => {
                self.release(unk);
                S_OK
            }
            None => E_INVALIDARG,
        }
    }

    fn ro_get_agile_reference(&self, options: u32, _iid: &Guid, unk: usize) -> (i32, usize) {
        let marshalable = self.objects.borrow().get(&unk).expect("mint on a dead object").marshalable;
        if options == 0 && !marshalable {
            return (REGDB_E_IIDNOTREG, 0);
        }
        self.add_ref(unk);
        let token = self.allocate(vec![], true);
        self.tokens.borrow_mut().insert(token, Token { target: unk, home: self.context.get(), lazy: options == 1 });
        (S_OK, token)
    }

    fn agile_resolve(&self, agile: usize, iid: &Guid) -> (i32, usize) {
        let (target, usable) = {
            let tokens = self.tokens.borrow();
            let t = tokens.get(&agile).expect("resolve on a dead token");
            let marshalable = self.objects.borrow().get(&t.target).map_or(false, |o| o.marshalable);
            (t.target, t.home == self.context.get() || (!t.lazy && marshalable))
        };
        if usable {
            self.query_interface(target, iid)
        } else {
            (RPC_E_WRONG_THREAD, 0)
        }
    }

    fn co_initialize_ex(&self, coinit: u32) -> i32 {
        self.coinit.set(Some(coinit));
        self.init_status.get()
    }

    fn co_uninitialize(&self) {
        self.bump(|c| c.uninit += 1);
    }

    fn co_increment_mta_usage(&self) -> (i32, usize) {
        (S_OK, 0x77)
    }

    fn co_decrement_mta_usage(&self, cookie: usize) -> i32 {
        if cookie == 0x77 {
            S_OK
        } else {
            E_INVALIDARG
        }
    }
}

fn adopt(port: &Port<MockCom>, marshalable: bool) -> (usize, Rc<IFoo>) {
    let addr = port.api().object(marshalable);
    (addr, Rc::<IFoo>::from_raw(addr))
}

#[test]
fn adopt_null_gives_nothing() {
    assert!(Rc::<IFoo>::from_raw_opt(0).is_none());
    let h = Rc::<IFoo>::from_raw_opt(0x40).unwrap();
    assert_eq!(h.as_ptr(), 0x40);
    assert_eq!(h.into_raw(), 0x40);
    assert_eq!(Rc::<IFoo>::from_raw_unchecked(0x80).as_iunknown_ptr(), 0x80);
}

#[test]
fn clone_into_raw_adopt_round_trip() {
    let mut port = Port::new(MockCom::new());
    let (addr, h) = adopt(&port, true);
    let raw = h.clone(&mut port).into_raw();
    assert_eq!(port.api().refs(addr), 2);
    let back = Rc::<IFoo>::from_raw_opt(raw).unwrap();
    assert_eq!(back.as_iunknown_ptr(), h.as_iunknown_ptr());
    assert_eq!(back.as_iunknown_ptr(), addr);
    back.release(&mut port);
    h.release(&mut port);
    assert!(!port.api().alive(addr));
}

#[test]
fn last_release_tears_down_once() {
    let mut port = Port::new(MockCom::new());
    let (addr, h) = adopt(&port, true);
    let c1 = h.clone(&mut port);
    let c2 = c1.clone(&mut port);
    assert_eq!(port.api().refs(addr), 3);
    assert_eq!(port.api().counts().add_ref, 2);
    c1.release(&mut port);
    h.release(&mut port);
    assert_eq!(port.api().counts().to_zero, 0);
    assert!(port.api().alive(addr));
    c2.release(&mut port);
    assert_eq!(port.api().counts().to_zero, 1);
    assert_eq!(port.api().counts().release, 3);
    assert!(!port.api().alive(addr));
}

#[test]
fn try_cast_absent_without_capability() {
    let mut port = Port::new(MockCom::new());
    let (addr, h) = adopt(&port, true);
    assert!(h.try_cast::<IBar, _>(&mut port).is_none());
    assert_eq!(port.api().refs(addr), 1);
    h.release(&mut port);
}

#[test]
fn try_cast_present_counts_a_reference() {
    let mut port = Port::new(MockCom::new());
    let (addr, h) = adopt(&port, true);
    let unk = h.try_cast::<IUnknown, _>(&mut port).unwrap();
    assert_eq!(unk.as_ptr(), addr);
    assert_eq!(port.api().refs(addr), 2);
    unk.release(&mut port);
    h.release(&mut port);
    assert!(!port.api().alive(addr));
}

#[test]
fn from_query_reads_status_and_pointer() {
    assert!(Rc::<IBar>::from_query(E_NOINTERFACE, 0).is_none());
    assert!(Rc::<IBar>::from_query(E_NOINTERFACE, 0x40).is_none());
    assert!(Rc::<IBar>::from_query(E_INVALIDARG, 0x40).is_none());
    assert!(Rc::<IBar>::from_query(S_OK, 0).is_none());
    assert_eq!(Rc::<IBar>::from_query(S_OK, 0x40).unwrap().as_ptr(), 0x40);
    assert_eq!(Rc::<IBar>::from_query(S_FALSE, 0x50).unwrap().as_ptr(), 0x50);
}

#[test]
fn from_result_reports_failures() {
    let e = Rc::<IFoo>::from_result("Get", E_INVALIDARG, 0).map(|_| ()).unwrap_err();
    assert_eq!(e.method(), "Get");
    assert_eq!(e.hresult(), E_INVALIDARG);
    let e = Rc::<IFoo>::from_result("Get", S_OK, 0).map(|_| ()).unwrap_err();
    assert_eq!(e.hresult(), S_OK);
    assert_eq!(Rc::<IFoo>::from_result("Get", S_OK, 0x60).unwrap().as_ptr(), 0x60);
}

#[test]
fn up_checks_derivation_against_layout() {
    let mut port = Port::new(MockCom::new());
    let (addr, h) = adopt(&port, true);
    let base: Rc<IUnknown> = match h.up::<IUnknown>() {
        Ok(b) => b,
        Err(_) => panic!("IFoo's base lies at its own address"),
    };
    assert_eq!(base.as_ptr(), addr);
    base.release(&mut port);

    let addr = port.api().object(true);
    let m = Rc::<IMisplaced>::from_raw(addr);
    let m = match m.up::<IUnknown>() {
        Ok(_) => panic!("a misplaced base view must be refused"),
        Err(m) => m,
    };
    assert_eq!(m.as_ptr(), addr);
    m.release(&mut port);
}

#[test]
fn co_create_known_and_unknown_class() {
    let mut port = Port::new(MockCom::new());
    let h = Rc::<IFoo>::co_create(&mut port, guid(100), None).unwrap();
    assert_eq!(port.api().refs(h.as_ptr()), 1);
    h.release(&mut port);
    let e = Rc::<IFoo>::co_create(&mut port, guid(101), None).map(|_| ()).unwrap_err();
    assert_eq!(e.hresult(), REGDB_E_CLASSNOTREG);
    assert_eq!(e.method(), "CoCreateInstance");
    let e = Rc::<IBar>::co_create(&mut port, guid(100), None).map(|_| ()).unwrap_err();
    assert_eq!(e.hresult(), E_NOINTERFACE);
}

#[test]
fn co_create_from_app_uses_entry_status() {
    let mut port = Port::new(MockCom::new());
    let h = Rc::<IFoo>::co_create_instance_from_app(&mut port, guid(100), None, 1).unwrap();
    assert_eq!(port.api().refs(h.as_ptr()), 1);
    h.release(&mut port);
    let e = Rc::<IBar>::co_create_instance_from_app(&mut port, guid(100), None, 1).map(|_| ()).unwrap_err();
    assert_eq!(e.method(), "CoCreateInstanceFromApp(..., [0].hr)");
    assert_eq!(e.hresult(), E_NOINTERFACE);
    let e = Rc::<IFoo>::co_create_instance_from_app(&mut port, guid(7), None, 1).map(|_| ()).unwrap_err();
    assert_eq!(e.method(), "CoCreateInstanceFromApp");
    assert_eq!(e.hresult(), REGDB_E_CLASSNOTREG);
}

#[test]
fn batched_creation_fills_each_entry() {
    let mut port = Port::new(MockCom::new());
    let mut out = vec![
        MultiQi { iid: IFoo::uuidof(), itf: 0, hr: 0 },
        MultiQi { iid: IBar::uuidof(), itf: 0, hr: 0 },
    ];
    co_create_instance_from_app(&mut port, guid(100), None, 1, &mut out).unwrap();
    assert_eq!(out[0].hr, S_OK);
    assert_ne!(out[0].itf, 0);
    assert_eq!(out[1].hr, E_NOINTERFACE);
    Rc::<IFoo>::from_raw(out[0].itf).release(&mut port);
}

#[test]
fn from_entry_of_emptied_batch_fails() {
    let e = Rc::<IFoo>::from_entry(&vec![]).map(|_| ()).unwrap_err();
    assert_eq!(e.hresult() as u32, 0x8000FFFF);
    let ok = vec![MultiQi { iid: IFoo::uuidof(), itf: 0x90, hr: S_OK }];
    assert_eq!(Rc::<IFoo>::from_entry(&ok).unwrap().as_ptr(), 0x90);
}

#[test]
fn git_resolves_in_same_context_only() {
    let mut port = Port::new(MockCom::new());
    let (addr, h) = adopt(&port, true);
    let git = Git::try_from_lazy(&mut port, &h).unwrap();
    assert_ne!(git.cookie(), 0);
    let back = git.resolve(&mut port).unwrap();
    assert_eq!(back.as_iunknown_ptr(), h.as_iunknown_ptr());
    back.release(&mut port);

    port.api().enter(2);
    let e = git.resolve(&mut port).map(|_| ()).unwrap_err();
    assert_eq!(e.hresult(), E_INVALIDARG);
    assert_eq!(e.method(), "IGlobalInterfaceTable::GetInterfaceFromGlobal");

    port.api().enter(1);
    assert_eq!(git.release(&mut port).unwrap(), true);
    h.release(&mut port);
    assert!(!port.api().alive(addr));
}

#[test]
fn git_zero_cookie_is_a_failed_registration() {
    let mut port = Port::new(MockCom::new());
    port.api().fixed_cookie.set(Some(0));
    let (_, h) = adopt(&port, true);
    let e = Git::try_from_lazy(&mut port, &h).map(|_| ()).unwrap_err();
    assert_eq!(e.method(), "IGlobalInterfaceTable::RegisterInterfaceInGlobal");
    assert_eq!(e.hresult(), S_OK);
    assert_eq!(port.api().counts().revoke, 1);
    let e = Git::<IFoo>::from_registration(E_INVALIDARG, 5).map(|_| ()).unwrap_err();
    assert_eq!(e.hresult(), E_INVALIDARG);
    assert_eq!(Git::<IFoo>::from_registration(S_OK, 9).unwrap().cookie(), 9);
    h.release(&mut port);
}

fn revoke_once_after_clones(n: usize) {
    let mut port = Port::new(MockCom::new());
    let (addr, h) = adopt(&port, true);
    let git = Git::try_from_lazy(&mut port, &h).unwrap();
    let mut holders = vec![];
    for _ in 0..n {
        holders.push(git.clone());
    }
    assert!(holders.iter().all(|g| g.cookie() == git.cookie()));
    for g in holders {
        assert_eq!(g.release(&mut port).unwrap(), false);
        assert_eq!(port.api().counts().revoke, 0);
    }
    assert_eq!(git.release(&mut port).unwrap(), true);
    assert_eq!(port.api().counts().revoke, 1);
    assert_eq!(port.api().refs(addr), 1);
    h.release(&mut port);
}

#[test]
fn git_clones_revoke_once() {
    revoke_once_after_clones(0);
    revoke_once_after_clones(1);
    revoke_once_after_clones(5);
}

#[test]
fn agile_eager_fails_without_marshaller() {
    let mut port = Port::new(MockCom::new());
    let (addr, h) = adopt(&port, false);
    let e = Agile::try_from_eager(&mut port, &h).map(|_| ()).unwrap_err();
    assert_eq!(e.hresult(), REGDB_E_IIDNOTREG);
    assert_eq!(e.method(), "RoGetAgileReference");
    let e = Agile::ro_get_agile_reference(&mut port, mcom::ReferenceOptions::DEFAULT, &h).map(|_| ()).unwrap_err();
    assert_eq!(e.hresult(), REGDB_E_IIDNOTREG);

    let lazy = Agile::try_from_lazy(&mut port, &h).unwrap();
    let back = lazy.resolve(&mut port).unwrap();
    assert_eq!(back.as_iunknown_ptr(), addr);
    back.release(&mut port);

    port.api().enter(2);
    let e = lazy.resolve(&mut port).map(|_| ()).unwrap_err();
    assert_eq!(e.hresult(), RPC_E_WRONG_THREAD);
    assert_eq!(e.method(), "IAgileReference::Resolve");

    port.api().enter(1);
    let other = lazy.clone(&mut port);
    lazy.release(&mut port);
    assert!(port.api().alive(other.token()));
    let token = other.token();
    other.release(&mut port);
    assert!(!port.api().alive(token));
    h.release(&mut port);
    assert!(!port.api().alive(addr));
}

#[test]
fn agile_eager_resolves_anywhere() {
    let mut port = Port::new(MockCom::new());
    let (addr, h) = adopt(&port, true);
    let eager = Agile::try_from_eager(&mut port, &h).unwrap();
    port.api().enter(3);
    let back = eager.resolve(&mut port).unwrap();
    assert_eq!(back.as_ptr(), addr);
    back.release(&mut port);
    eager.release(&mut port);
    h.release(&mut port);
}

#[test]
fn agile_from_token_reads_status() {
    let e = Agile::<IFoo>::from_token(S_OK, 0).map(|_| ()).unwrap_err();
    assert_eq!(e.method(), "RoGetAgileReference");
    assert_eq!(e.hresult(), S_OK);
    let e = Agile::<IFoo>::from_token(REGDB_E_IIDNOTREG, 0x30).map(|_| ()).unwrap_err();
    assert_eq!(e.hresult(), REGDB_E_IIDNOTREG);
    assert_eq!(Agile::<IFoo>::from_token(S_OK, 0x30).unwrap().token(), 0x30);
}

#[test]
fn sta_and_mta_pass_their_flags() {
    let mut port = Port::new(MockCom::new());
    assert_eq!(sta(&mut port).unwrap(), true);
    assert_eq!(port.api().coinit.get(), Some(2));
    port.api().init_status.set(S_FALSE);
    assert_eq!(sta(&mut port).unwrap(), false);
    port.api().init_status.set(RPC_E_CHANGED_MODE);
    let e: MethodHResult = mta(&mut port).unwrap_err();
    assert_eq!(port.api().coinit.get(), Some(0));
    assert_eq!(e.hresult(), RPC_E_CHANGED_MODE);
    mcom::init::uninitialize(&mut port);
    assert_eq!(port.api().counts().uninit, 1);
}

#[test]
fn mta_usage_scope_round_trip() {
    let mut port = Port::new(MockCom::new());
    let scope = MTAUsageScope::new(&mut port).unwrap();
    scope.release(&mut port).unwrap();
    let e = MTAUsageScope::from_increment(E_INVALIDARG, 0).map(|_| ()).unwrap_err();
    assert_eq!(e.method(), "CoIncrementMTAUsage");
    assert!(MTAUsageScope::from_increment(S_OK, 5).unwrap().release(&mut port).is_err());
}

#[test]
fn co_create_hands_over_the_outer_root() {
    let mut port = Port::new(MockCom::new());
    let outer_addr = port.api().object(true);
    let outer = Rc::<IUnknown>::from_raw(outer_addr);
    let h = Rc::<IFoo>::co_create(&mut port, guid(100), Some(&outer)).unwrap();
    assert_eq!(port.api().last_outer.get(), outer_addr);
    let g = Rc::<IFoo>::co_create_instance(&mut port, guid(100), None, 1).unwrap();
    assert_eq!(port.api().last_outer.get(), 0);
    h.release(&mut port);
    g.release(&mut port);
    outer.release(&mut port);
}

#[test]
fn up_at_compares_addresses() {
    let h = Rc::<IFoo>::from_raw(0x100);
    let h = match h.up_at::<IUnknown>(0x108) {
        Ok(_) => panic!("a different base address must be refused"),
        Err(h) => h,
    };
    assert_eq!(h.up_at::<IUnknown>(0x100).map(|b| b.as_ptr()).ok(), Some(0x100));
}

#[test]
fn shareable_handles_are_send_and_sync() {
    fn shareable<T: Send + Sync>() {}
    shareable::<Git<IFoo>>();
    shareable::<Agile<IFoo>>();
}
