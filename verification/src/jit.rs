//! The process-wide runtime lifecycle and the domain registry.
//!
//! The embedded runtime moves through exactly three states, each entered at
//! most once per process: not yet started, running, and shut down for good.
//! [`Runtime`] is the checked state machine for those transitions, and also
//! the registry of every domain created so far. Handles record the domain
//! they were acquired under as a [`DomainToken`]; once that domain is freed,
//! the registry rejects the token, so a dangling foreign pointer is refused
//! here instead of being handed back to the runtime.
//!
//! The foreign startup, shutdown and entry-point calls themselves happen
//! outside this crate. A builder here checks everything that can be checked
//! first and hands out the marshaled arguments for the call; the raw outcome
//! of the call is then brought back to be absorbed into checked state.

use vstd::prelude::*;
use crate::domain::Domain;
use crate::error::{CallError, MarshalError};
use crate::handle::{Assembly, DomainToken};
use crate::marshal;

verus! {

/// Where the embedded runtime stands in its once-per-process lifecycle.
#[derive(Clone, Copy, Debug, PartialEq, Eq, Structural)]
pub enum RuntimeState {
    /// Startup has not happened yet.
    Uninitialized,
    /// Startup succeeded; domains can be created and code executed.
    Running,
    /// The runtime is gone for the rest of the process; no call is valid.
    ShutDown,
}

/// One registered domain: its foreign pointer and whether it is still alive.
/// A freed domain's slot stays in the registry, dead, so that stale tokens
/// keep being rejected.
#[derive(Clone, Copy, Debug, PartialEq, Eq, Structural)]
struct DomainSlot {
    ptr: usize,
    alive: bool,
}

/// The checked state machine for the runtime lifecycle, and the registry
/// that decides whether a [`DomainToken`] still names a live domain.
pub struct Runtime {
    state: RuntimeState,
    domains: Vec<DomainSlot>,
}

/// The marshaled arguments of the foreign startup call: the root domain
/// name and, if one was asked for, the runtime version, each as a
/// NUL-terminated byte vector.
#[derive(Debug)]
pub struct InitCall {
    /// C-string bytes of the root domain's name.
    pub name: Vec<u8>,
    /// C-string bytes of the requested runtime version, if any; with `None`
    /// the startup call that picks the default version is meant.
    pub version: Option<Vec<u8>>,
}

/// The argument of the foreign shutdown call: the root domain's pointer.
#[derive(Debug)]
pub struct CleanupCall {
    /// Foreign pointer of the root domain.
    pub domain_ptr: usize,
}

/// The marshaled arguments of the foreign entry-point call: a process-style
/// argument vector for the assembly's entry point.
#[derive(Debug)]
pub struct ExecCall {
    /// Foreign pointer of the domain to execute in.
    pub domain_ptr: usize,
    /// Foreign pointer of the assembly whose entry point runs.
    pub assembly_ptr: usize,
    /// Number of arguments, as the C ABI counts them.
    pub argc: i32,
    /// The arguments, each as NUL-terminated C-string bytes.
    pub argv: Vec<Vec<u8>>,
}

impl Runtime {
    /// The lifecycle state.
    pub closed spec fn state_spec(&self) -> RuntimeState {
        self.state
    }

    /// How many domains have ever been registered (alive or freed).
    pub closed spec fn domain_count(&self) -> nat {
        self.domains@.len()
    }

    /// Whether the domain at `index` is still alive.
    pub closed spec fn domain_alive(&self, index: int) -> bool {
        0 <= index < self.domains@.len() && self.domains@[index].alive
    }

    /// The foreign pointer of the domain at `index`.
    pub closed spec fn domain_ptr(&self, index: int) -> usize {
        self.domains@[index].ptr
    }

    /// Whether a token still names a live domain.
    pub open spec fn token_valid(&self, token: DomainToken) -> bool {
        self.domain_alive(token.index as int)
    }

    /// The registry's own invariant: no domain exists before startup, a
    /// running runtime has its root domain at the first slot, and no slot
    /// holds a null pointer.
    pub open spec fn wf(&self) -> bool {
        &&& (self.state_spec() is Uninitialized ==> self.domain_count() == 0)
        &&& (self.state_spec() is Running ==> self.domain_count() >= 1)
        &&& (forall|i: int| 0 <= i < self.domain_count() ==> #[trigger] self.domain_ptr(i) != 0)
    }

    /// A fresh, not-yet-started runtime.
    pub fn new() -> (r: Runtime)
        ensures
            r.state_spec() is Uninitialized,
            r.domain_count() == 0,
            r.wf(),
    {
        Runtime { state: RuntimeState::Uninitialized, domains: Vec::new() }
    }

    /// True while startup is still possible.
    pub fn can_init(&self) -> (r: bool)
        ensures
            r == (self.state_spec() is Uninitialized),
    {
        self.state == RuntimeState::Uninitialized
    }

    /// True while the runtime is running.
    pub fn is_running(&self) -> (r: bool)
        ensures
            r == (self.state_spec() is Running),
    {
        self.state == RuntimeState::Running
    }

    /// The lifecycle state, for matching in executable code.
    pub fn get_state(&self) -> (r: RuntimeState)
        ensures
            r == self.state_spec(),
    {
        self.state
    }

    /// Records a freshly created domain, absorbing the raw pointer the
    /// foreign creation call returned.
    ///
    /// Succeeds exactly when the runtime is running and the pointer is not
    /// null; the new domain is then alive at the end of the registry, under
    /// the returned token, and every earlier domain is untouched.
    pub fn register_domain(&mut self, raw: usize) -> (r: Result<DomainToken, CallError>)
        requires
            old(self).wf(),
        ensures
            final(self).wf(),
            r is Ok <==> old(self).state_spec() is Running && raw != 0,
            r is Ok ==> {
                &&& final(self).state_spec() == old(self).state_spec()
                &&& final(self).domain_count() == old(self).domain_count() + 1
                &&& final(self).domain_alive(old(self).domain_count() as int)
                &&& final(self).domain_ptr(old(self).domain_count() as int) == raw
                &&& forall|i: int|
                    0 <= i < old(self).domain_count() ==> #[trigger] final(self).domain_alive(i)
                        == old(self).domain_alive(i) && final(self).domain_ptr(i) == old(self).domain_ptr(i)
                &&& r->Ok_0 == (DomainToken { index: old(self).domain_count() as usize })
            },
            r is Err ==> *final(self) == *old(self),
            old(self).state_spec() is Uninitialized ==> r == Err::<DomainToken, CallError>(
                CallError::NotStarted,
            ),
            old(self).state_spec() is ShutDown ==> r == Err::<DomainToken, CallError>(
                CallError::ShutDown,
            ),
            old(self).state_spec() is Running && raw == 0 ==> r == Err::<DomainToken, CallError>(
                CallError::ForeignContract,
            ),
    {
        match self.state {
            RuntimeState::Uninitialized => Err(CallError::NotStarted),
            RuntimeState::ShutDown => Err(CallError::ShutDown),
            RuntimeState::Running => {
                if raw == 0 {
                    return Err(CallError::ForeignContract);
                }
                let token = DomainToken { index: self.domains.len() };
                self.domains.push(DomainSlot { ptr: raw, alive: true });
                proof {
                    assert forall|i: int| 0 <= i < self.domain_count() implies #[trigger] self.domain_ptr(i) != 0 by {
                        if i < old(self).domain_count() {
                            assert(old(self).domain_ptr(i) != 0);
                        }
                    }
                }
                Ok(token)
            },
        }
    }

    /// Marks the domain behind `token` dead in the registry.
    ///
    /// Succeeds exactly when the runtime is running, the domain is alive,
    /// and it is not the root domain unless `force` permits that. All other
    /// domains are untouched.
    pub fn free_domain(&mut self, token: DomainToken, force: bool) -> (r: Result<
        usize,
        CallError,
    >)
        requires
            old(self).wf(),
        ensures
            final(self).wf(),
            r is Ok <==> old(self).state_spec() is Running && old(self).token_valid(token) && (
            token.index != 0 || force),
            r is Ok ==> {
                &&& final(self).state_spec() == old(self).state_spec()
                &&& final(self).domain_count() == old(self).domain_count()
                &&& !final(self).domain_alive(token.index as int)
                &&& forall|i: int|
                    0 <= i < old(self).domain_count() && i != token.index ==> #[trigger] final(self).domain_alive(i) == old(self).domain_alive(i)
                &&& forall|i: int|
                    0 <= i < old(self).domain_count() ==> #[trigger] final(self).domain_ptr(i)
                        == old(self).domain_ptr(i)
                &&& r->Ok_0 == old(self).domain_ptr(token.index as int)
            },
            r is Err ==> *final(self) == *old(self),
            old(self).state_spec() is Uninitialized ==> r == Err::<usize, CallError>(
                CallError::NotStarted,
            ),
            old(self).state_spec() is ShutDown ==> r == Err::<usize, CallError>(
                CallError::ShutDown,
            ),
            old(self).state_spec() is Running && !old(self).token_valid(token) ==> r == Err::<
                usize,
                CallError,
            >(CallError::UseAfterFree),
            old(self).state_spec() is Running && old(self).token_valid(token) && token.index == 0
                && !force ==> r == Err::<usize, CallError>(CallError::InvalidOperation),
    {
        match self.state {
            RuntimeState::Uninitialized => Err(CallError::NotStarted),
            RuntimeState::ShutDown => Err(CallError::ShutDown),
            RuntimeState::Running => {
                if !self.token_live(token) {
                    return Err(CallError::UseAfterFree);
                }
                if token.index == 0 && !force {
                    return Err(CallError::InvalidOperation);
                }
                let ptr = self.domains[token.index].ptr;
                self.domains.set(token.index, DomainSlot { ptr, alive: false });
                proof {
                    assert forall|i: int| 0 <= i < self.domain_count() implies #[trigger] self.domain_ptr(i) != 0 by {
                        assert(old(self).domain_ptr(i) != 0);
                    }
                }
                Ok(ptr)
            },
        }
    }

    /// Decides whether `token` still names a live domain.
    pub fn token_live(&self, token: DomainToken) -> (r: bool)
        ensures
            r == self.token_valid(token),
    {
        token.index < self.domains.len() && self.domains[token.index].alive
    }
}

/// Prepares the one-per-process startup call.
///
/// Succeeds exactly when startup has not happened yet and both the domain
/// name and the requested version (if any) can become C strings; the runtime
/// itself does not change until [`init`] absorbs the call's outcome.
pub fn init_request(rt: &Runtime, name: &str, version: Option<&str>) -> (r: Result<
    InitCall,
    CallError,
>)
    ensures
        r is Ok <==> rt.state_spec() is Uninitialized && marshal::nul_free(name@) && (version
            matches Some(v) ==> marshal::nul_free(v@)),
        r is Ok ==> r->Ok_0.name@ == marshal::cstr_of(name@),
        r is Ok ==> (r->Ok_0.version is Some <==> version is Some),
        version matches Some(v) ==> (r is Ok ==> r->Ok_0.version.unwrap()@ == marshal::cstr_of(v@)),
        rt.state_spec() is Running ==> r == Err::<InitCall, CallError>(CallError::AlreadyStarted),
        rt.state_spec() is ShutDown ==> r == Err::<InitCall, CallError>(CallError::ShutDown),
        rt.state_spec() is Uninitialized && !marshal::nul_free(name@) ==> r == Err::<
            InitCall,
            CallError,
        >(CallError::Marshal(MarshalError::InteriorNul)),
        rt.state_spec() is Uninitialized && marshal::nul_free(name@) && (version matches Some(v)
            && !marshal::nul_free(v@)) ==> r == Err::<InitCall, CallError>(
            CallError::Marshal(MarshalError::InteriorNul),
        ),
{
    match rt.get_state() {
        RuntimeState::Running => Err(CallError::AlreadyStarted),
        RuntimeState::ShutDown => Err(CallError::ShutDown),
        RuntimeState::Uninitialized => {
            let name_c = match marshal::to_cstring_bytes(name) {
                Ok(v) => v,
                Err(e) => {
                    return Err(CallError::Marshal(e));
                },
            };
            let version_c = match version {
                Some(v) => match marshal::to_cstring_bytes(v) {
                    Ok(b) => Some(b),
                    Err(e) => {
                        return Err(CallError::Marshal(e));
                    },
                },
                None => None,
            };
            Ok(InitCall { name: name_c, version: version_c })
        },
    }
}

/// Absorbs the outcome of the startup call: the raw root domain pointer the
/// runtime returned.
///
/// Succeeds exactly when startup was still possible and the pointer is not
/// null; the runtime is then running with the root domain as its first
/// registered domain. A null pointer means startup failed for good: the
/// runtime cannot be started a second time in the same process, so the
/// state moves to shut down and the error is reported.
pub fn init(rt: &mut Runtime, raw_root: usize) -> (r: Result<Domain, CallError>)
    requires
        old(rt).wf(),
    ensures
        final(rt).wf(),
        r is Ok <==> old(rt).state_spec() is Uninitialized && raw_root != 0,
        r is Ok ==> {
            &&& final(rt).state_spec() is Running
            &&& final(rt).domain_count() == 1
            &&& final(rt).domain_alive(0)
            &&& final(rt).domain_ptr(0) == raw_root
            &&& r->Ok_0.token() == (DomainToken { index: 0 })
            &&& r->Ok_0.raw() == raw_root
        },
        !(old(rt).state_spec() is Uninitialized) ==> *final(rt) == *old(rt),
        old(rt).state_spec() is Running ==> r == Err::<Domain, CallError>(
            CallError::AlreadyStarted,
        ),
        old(rt).state_spec() is ShutDown ==> r == Err::<Domain, CallError>(CallError::ShutDown),
        old(rt).state_spec() is Uninitialized && raw_root == 0 ==> r == Err::<Domain, CallError>(
            CallError::ForeignContract,
        ) && final(rt).state_spec() is ShutDown && final(rt).domain_count() == 0,
{
    match rt.state {
        RuntimeState::Running => Err(CallError::AlreadyStarted),
        RuntimeState::ShutDown => Err(CallError::ShutDown),
        RuntimeState::Uninitialized => {
            if raw_root == 0 {
                rt.state = RuntimeState::ShutDown;
                Err(CallError::ForeignContract)
            } else {
                rt.state = RuntimeState::Running;
                rt.domains.push(DomainSlot { ptr: raw_root, alive: true });
                Ok(Domain::registered(raw_root, DomainToken { index: 0 }))
            }
        },
    }
}

/// Prepares the one-per-process shutdown call.
///
/// Succeeds exactly when the runtime is running, `root` is its root domain
/// and that domain is still alive. The runtime is then shut down for the
/// rest of the process and every registered domain is dead: every handle
/// acquired under any of them is rejected from here on.
pub fn cleanup(rt: &mut Runtime, root: &Domain) -> (r: Result<CleanupCall, CallError>)
    requires
        old(rt).wf(),
    ensures
        final(rt).wf(),
        r is Ok <==> old(rt).state_spec() is Running && root.token().index == 0 && old(rt).token_valid(root.token()),
        r is Ok ==> {
            &&& final(rt).state_spec() is ShutDown
            &&& final(rt).domain_count() == old(rt).domain_count()
            &&& forall|i: int| !final(rt).domain_alive(i)
            &&& r->Ok_0.domain_ptr == old(rt).domain_ptr(0)
        },
        r is Err ==> *final(rt) == *old(rt),
        old(rt).state_spec() is Uninitialized ==> r == Err::<CleanupCall, CallError>(
            CallError::NotStarted,
        ),
        old(rt).state_spec() is ShutDown ==> r == Err::<CleanupCall, CallError>(
            CallError::ShutDown,
        ),
        old(rt).state_spec() is Running && root.token().index != 0 ==> r == Err::<
            CleanupCall,
            CallError,
        >(CallError::InvalidOperation),
        old(rt).state_spec() is Running && root.token().index == 0 && !old(rt).token_valid(
            root.token(),
        ) ==> r == Err::<CleanupCall, CallError>(CallError::UseAfterFree),
{
    match rt.state {
        RuntimeState::Uninitialized => Err(CallError::NotStarted),
        RuntimeState::ShutDown => Err(CallError::ShutDown),
        RuntimeState::Running => {
            if root.token_exec().index != 0 {
                return Err(CallError::InvalidOperation);
            }
            if !rt.token_live(root.token_exec()) {
                return Err(CallError::UseAfterFree);
            }
            let ptr = rt.domains[0].ptr;
            let n = rt.domains.len();
            let mut i: usize = 0;
            while i < n
                invariant
                    i <= n,
                    n == rt.domains@.len(),
                    rt.state == RuntimeState::Running,
                    forall|k: int|
                        0 <= k < n ==> #[trigger] rt.domains@[k].ptr == old(rt).domain_ptr(k),
                    forall|k: int| 0 <= k < i ==> !(#[trigger] rt.domains@[k].alive),
                decreases n - i,
            {
                let p = rt.domains[i].ptr;
                rt.domains.set(i, DomainSlot { ptr: p, alive: false });
                i = i + 1;
            }
            rt.state = RuntimeState::ShutDown;
            Ok(CleanupCall { domain_ptr: ptr })
        },
    }
}

/// Prepares the entry-point call: a domain, an assembly loaded in it, and a
/// process-style argument vector. The managed entry point's integer exit
/// code is the call's result and needs no interpretation on this side.
///
/// Succeeds exactly when the runtime is running, the domain and the
/// assembly's owning domain are alive, the argument count fits the C ABI's
/// count type, and every argument can become a C string. The produced
/// vector holds exactly the given arguments, in order, each NUL-terminated.
pub fn exec(rt: &Runtime, domain: &Domain, assembly: &Assembly, args: &Vec<String>) -> (r: Result<
    ExecCall,
    CallError,
>)
    requires
        domain.wf(),
        assembly.wf(),
    ensures
        r is Ok <==> {
            &&& rt.state_spec() is Running
            &&& rt.token_valid(domain.token())
            &&& rt.token_valid(assembly.origin())
            &&& args@.len() <= i32::MAX
            &&& forall|k: int| 0 <= k < args@.len() ==> marshal::nul_free(#[trigger] args@[k]@)
        },
        r is Ok ==> {
            &&& r->Ok_0.domain_ptr == domain.raw()
            &&& r->Ok_0.assembly_ptr == assembly.raw()
            &&& r->Ok_0.argc == args@.len()
            &&& r->Ok_0.argv@.len() == args@.len()
            &&& forall|k: int|
                0 <= k < args@.len() ==> #[trigger] r->Ok_0.argv@[k]@ == marshal::cstr_of(
                    args@[k]@,
                )
        },
        rt.state_spec() is Uninitialized ==> r == Err::<ExecCall, CallError>(
            CallError::NotStarted,
        ),
        rt.state_spec() is ShutDown ==> r == Err::<ExecCall, CallError>(CallError::ShutDown),
        rt.state_spec() is Running && !(rt.token_valid(domain.token()) && rt.token_valid(
            assembly.origin(),
        )) ==> r == Err::<ExecCall, CallError>(CallError::UseAfterFree),
{
    if !rt.is_running() {
        if rt.can_init() {
            return Err(CallError::NotStarted);
        }
        return Err(CallError::ShutDown);
    }
    if !rt.token_live(domain.token_exec()) {
        return Err(CallError::UseAfterFree);
    }
    if !rt.token_live(assembly.get_origin()) {
        return Err(CallError::UseAfterFree);
    }
    if args.len() > 0x7fff_ffff {
        return Err(CallError::InvalidOperation);
    }
    let mut argv: Vec<Vec<u8>> = Vec::new();
    let n = args.len();
    let mut i: usize = 0;
    while i < n
        invariant
            i <= n,
            n == args@.len(),
            rt.state_spec() is Running,
            rt.token_valid(domain.token()),
            rt.token_valid(assembly.origin()),
            argv@.len() == i,
            forall|k: int| 0 <= k < i ==> #[trigger] argv@[k]@ == marshal::cstr_of(args@[k]@),
            forall|k: int| 0 <= k < i ==> marshal::nul_free(#[trigger] args@[k]@),
        decreases n - i,
    {
        let c = match marshal::to_cstring_bytes(args[i].as_str()) {
            Ok(v) => v,
            Err(e) => {
                return Err(CallError::Marshal(e));
            },
        };
        argv.push(c);
        i = i + 1;
    }
    Ok(
        ExecCall {
            domain_ptr: domain.get_ptr(),
            assembly_ptr: assembly.get_ptr(),
            argc: args.len() as i32,
            argv,
        },
    )
}

} // verus!
