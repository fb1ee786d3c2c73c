//! Domains: isolated execution contexts inside the runtime.
//!
//! A domain is created while the runtime is running and freed individually;
//! freeing it invalidates every handle acquired under it. The registry in
//! [`crate::jit::Runtime`] records each domain and decides, through the
//! tokens handles carry, whether a handle's owning domain is still alive.
//! Freeing the root domain is only allowed with `force`, as part of full
//! shutdown.

use vstd::prelude::*;
use crate::error::{CallError, MarshalError};
use crate::handle::DomainToken;
use crate::jit::Runtime;
use crate::marshal;

verus! {

/// An isolated execution context (app-domain) inside the runtime: a
/// non-owning wrapper around the domain's foreign pointer, together with
/// the token under which it stands in the registry.
#[derive(Clone, Copy, Debug)]
pub struct Domain {
    ptr: usize,
    token: DomainToken,
}

impl PartialEq for Domain {
    /// Pointer identity, as for every entity the runtime owns.
    fn eq(&self, other: &Domain) -> (r: bool) {
        self.ptr == other.ptr
    }
}

impl vstd::std_specs::cmp::PartialEqSpecImpl for Domain {
    open spec fn obeys_eq_spec() -> bool {
        true
    }

    open spec fn eq_spec(&self, other: &Domain) -> bool {
        self.raw() == other.raw()
    }
}

/// The marshaled arguments of the foreign assembly-open call.
#[derive(Debug)]
pub struct AssemblyOpenCall {
    /// Foreign pointer of the domain to load into.
    pub domain_ptr: usize,
    /// C-string bytes of the assembly's path.
    pub path: Vec<u8>,
}

/// The marshaled arguments of the foreign configuration call.
#[derive(Debug)]
pub struct SetConfigCall {
    /// Foreign pointer of the domain being configured.
    pub domain_ptr: usize,
    /// C-string bytes of the configuration's base directory.
    pub base_directory: Vec<u8>,
    /// C-string bytes of the configuration file's name.
    pub filename: Vec<u8>,
}

/// The arguments of the foreign domain-free call.
#[derive(Debug)]
pub struct FreeCall {
    /// Foreign pointer of the domain being freed.
    pub domain_ptr: usize,
    /// Whether freeing the root domain is permitted.
    pub force: bool,
}

impl Domain {
    /// The wrapped foreign pointer.
    pub closed spec fn raw(&self) -> usize {
        self.ptr
    }

    /// The registry token of this domain.
    pub closed spec fn token(&self) -> DomainToken {
        self.token
    }

    /// A present domain never wraps a null pointer.
    pub open spec fn wf(&self) -> bool {
        self.raw() != 0
    }

    /// Builds the handle for a domain the registry has just recorded.
    pub(crate) fn registered(raw: usize, token: DomainToken) -> (r: Domain)
        requires
            raw != 0,
        ensures
            r.raw() == raw,
            r.token() == token,
            r.wf(),
    {
        Domain { ptr: raw, token }
    }

    /// Wraps a raw foreign pointer: absent exactly when the pointer is null.
    /// The token must be the one under which the registry recorded this
    /// domain; a made-up token is harmless, since every operation checks the
    /// token against the registry before using the pointer.
    pub fn from_ptr(raw: usize, token: DomainToken) -> (r: Option<Domain>)
        ensures
            r is Some <==> raw != 0,
            r is Some ==> r.unwrap().raw() == raw && r.unwrap().token() == token,
    {
        if raw == 0 {
            None
        } else {
            Some(Domain { ptr: raw, token })
        }
    }

    /// A pure projection of the wrapped pointer; never null.
    pub fn get_ptr(&self) -> (r: usize)
        requires
            self.wf(),
        ensures
            r == self.raw(),
            r != 0,
    {
        self.ptr
    }

    /// The registry token of this domain.
    pub fn token_exec(&self) -> (r: DomainToken)
        ensures
            r == self.token(),
    {
        self.token
    }

    /// Absorbs the outcome of the foreign domain-creation call and registers
    /// the new domain.
    ///
    /// Succeeds exactly when the runtime is running and the returned pointer
    /// is not null; the new domain is then alive at the end of the registry
    /// and every earlier domain is untouched.
    pub fn create(rt: &mut Runtime, raw: usize) -> (r: Result<Domain, CallError>)
        requires
            old(rt).wf(),
        ensures
            final(rt).wf(),
            r is Ok <==> old(rt).state_spec() is Running && raw != 0,
            r is Ok ==> {
                &&& final(rt).state_spec() == old(rt).state_spec()
                &&& final(rt).domain_count() == old(rt).domain_count() + 1
                &&& final(rt).domain_alive(old(rt).domain_count() as int)
                &&& final(rt).domain_ptr(old(rt).domain_count() as int) == raw
                &&& forall|i: int|
                    0 <= i < old(rt).domain_count() ==> #[trigger] final(rt).domain_alive(i)
                        == old(rt).domain_alive(i) && final(rt).domain_ptr(i) == old(rt).domain_ptr(i)
                &&& r->Ok_0.raw() == raw
                &&& r->Ok_0.token() == (DomainToken { index: old(rt).domain_count() as usize })
                &&& r->Ok_0.wf()
            },
            r is Err ==> *final(rt) == *old(rt),
            old(rt).state_spec() is Uninitialized ==> r == Err::<Domain, CallError>(
                CallError::NotStarted,
            ),
            old(rt).state_spec() is ShutDown ==> r == Err::<Domain, CallError>(
                CallError::ShutDown,
            ),
            old(rt).state_spec() is Running && raw == 0 ==> r == Err::<Domain, CallError>(
                CallError::ForeignContract,
            ),
    {
        match rt.register_domain(raw) {
            Ok(token) => Ok(Domain::registered(raw, token)),
            Err(e) => Err(e),
        }
    }

    /// Prepares the foreign assembly-open call for a path inside this
    /// domain.
    ///
    /// Succeeds exactly when the runtime is running, this domain is alive
    /// and the path can become a C string. The outcome of the call is
    /// absorbed with [`crate::handle::Assembly::from_ptr`] under this
    /// domain's token: absent when the file is missing, unreadable or not a
    /// valid assembly — the runtime does not distinguish those causes, so
    /// neither can this layer.
    pub fn assembly_open(&self, rt: &Runtime, path: &str) -> (r: Result<
        AssemblyOpenCall,
        CallError,
    >)
        requires
            self.wf(),
        ensures
            r is Ok <==> rt.state_spec() is Running && rt.token_valid(self.token())
                && marshal::nul_free(path@),
            r is Ok ==> r->Ok_0.domain_ptr == self.raw() && r->Ok_0.path@ == marshal::cstr_of(
                path@,
            ),
            rt.state_spec() is Uninitialized ==> r == Err::<AssemblyOpenCall, CallError>(
                CallError::NotStarted,
            ),
            rt.state_spec() is ShutDown ==> r == Err::<AssemblyOpenCall, CallError>(
                CallError::ShutDown,
            ),
            rt.state_spec() is Running && !rt.token_valid(self.token()) ==> r == Err::<
                AssemblyOpenCall,
                CallError,
            >(CallError::UseAfterFree),
            rt.state_spec() is Running && rt.token_valid(self.token()) && !marshal::nul_free(
                path@,
            ) ==> r == Err::<AssemblyOpenCall, CallError>(
                CallError::Marshal(MarshalError::InteriorNul),
            ),
    {
        if !rt.is_running() {
            if rt.can_init() {
                return Err(CallError::NotStarted);
            }
            return Err(CallError::ShutDown);
        }
        if !rt.token_live(self.token_exec()) {
            return Err(CallError::UseAfterFree);
        }
        match marshal::to_cstring_bytes(path) {
            Ok(path_c) => Ok(AssemblyOpenCall { domain_ptr: self.get_ptr(), path: path_c }),
            Err(e) => Err(CallError::Marshal(e)),
        }
    }

    /// Prepares the foreign configuration call that points this domain's
    /// configuration at `filename` inside `base_directory`.
    ///
    /// Succeeds exactly when the runtime is running, this domain is alive
    /// and both strings can become C strings.
    pub fn set_config(&self, rt: &Runtime, base_directory: &str, filename: &str) -> (r: Result<
        SetConfigCall,
        CallError,
    >)
        requires
            self.wf(),
        ensures
            r is Ok <==> rt.state_spec() is Running && rt.token_valid(self.token())
                && marshal::nul_free(base_directory@) && marshal::nul_free(filename@),
            r is Ok ==> {
                &&& r->Ok_0.domain_ptr == self.raw()
                &&& r->Ok_0.base_directory@ == marshal::cstr_of(base_directory@)
                &&& r->Ok_0.filename@ == marshal::cstr_of(filename@)
            },
            rt.state_spec() is Uninitialized ==> r == Err::<SetConfigCall, CallError>(
                CallError::NotStarted,
            ),
            rt.state_spec() is ShutDown ==> r == Err::<SetConfigCall, CallError>(
                CallError::ShutDown,
            ),
            rt.state_spec() is Running && !rt.token_valid(self.token()) ==> r == Err::<
                SetConfigCall,
                CallError,
            >(CallError::UseAfterFree),
    {
        if !rt.is_running() {
            if rt.can_init() {
                return Err(CallError::NotStarted);
            }
            return Err(CallError::ShutDown);
        }
        if !rt.token_live(self.token_exec()) {
            return Err(CallError::UseAfterFree);
        }
        let bd = match marshal::to_cstring_bytes(base_directory) {
            Ok(v) => v,
            Err(e) => {
                return Err(CallError::Marshal(e));
            },
        };
        let fname = match marshal::to_cstring_bytes(filename) {
            Ok(v) => v,
            Err(e) => {
                return Err(CallError::Marshal(e));
            },
        };
        Ok(SetConfigCall { domain_ptr: self.get_ptr(), base_directory: bd, filename: fname })
    }

    /// Prepares the foreign domain-free call and marks this domain dead in
    /// the registry.
    ///
    /// Succeeds exactly when the runtime is running, this domain is alive,
    /// and it is not the root domain unless `force` permits that (the root
    /// is freed only as part of full shutdown). Afterwards every handle
    /// acquired under this domain is rejected; all other domains are
    /// untouched.
    pub fn free(&self, rt: &mut Runtime, force: bool) -> (r: Result<FreeCall, CallError>)
        requires
            old(rt).wf(),
            self.wf(),
        ensures
            final(rt).wf(),
            r is Ok <==> old(rt).state_spec() is Running && old(rt).token_valid(self.token()) && (
            self.token().index != 0 || force),
            r is Ok ==> {
                &&& final(rt).state_spec() == old(rt).state_spec()
                &&& final(rt).domain_count() == old(rt).domain_count()
                &&& !final(rt).domain_alive(self.token().index as int)
                &&& forall|i: int|
                    0 <= i < old(rt).domain_count() && i != self.token().index ==> #[trigger] final(rt).domain_alive(i) == old(rt).domain_alive(i)
                &&& forall|i: int|
                    0 <= i < old(rt).domain_count() ==> #[trigger] final(rt).domain_ptr(i) == old(rt).domain_ptr(i)
                &&& r->Ok_0.domain_ptr == old(rt).domain_ptr(self.token().index as int)
                &&& r->Ok_0.force == force
            },
            r is Err ==> *final(rt) == *old(rt),
            old(rt).state_spec() is Uninitialized ==> r == Err::<FreeCall, CallError>(
                CallError::NotStarted,
            ),
            old(rt).state_spec() is ShutDown ==> r == Err::<FreeCall, CallError>(
                CallError::ShutDown,
            ),
            old(rt).state_spec() is Running && !old(rt).token_valid(self.token()) ==> r == Err::<
                FreeCall,
                CallError,
            >(CallError::UseAfterFree),
            old(rt).state_spec() is Running && old(rt).token_valid(self.token())
                && self.token().index == 0 && !force ==> r == Err::<FreeCall, CallError>(
                CallError::InvalidOperation,
            ),
    {
        // The pointer handed to the foreign call is the one the registry
        // recorded for this token, so a mismatched handle cannot redirect
        // the free.
        match rt.free_domain(self.token_exec(), force) {
            Ok(recorded_ptr) => Ok(FreeCall { domain_ptr: recorded_ptr, force }),
            Err(e) => Err(e),
        }
    }
}

/// A domain that the registry holds dead rejects every token that names it:
/// a token is valid only while its slot is alive, so after a domain is
/// freed, all handles acquired under it — whichever they are — fail the
/// registry check together, instead of reaching the runtime as dangling
/// pointers.
pub proof fn lemma_freed_domain_rejects_all_tokens(rt: Runtime, index: int, t: DomainToken)
    requires
        !rt.domain_alive(index),
        t.index == index,
    ensures
        !rt.token_valid(t),
{
}

} // verus!
