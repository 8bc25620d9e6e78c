use vstd::prelude::*;
use crate::error::{fails_with, DSSError, ErrorKind};

verus! {

/// Whether a handle is the process-wide default instance or one created on request.
#[derive(Clone, Copy, Debug, PartialEq, Eq, Structural)]
pub enum ContextKind {
    Prime,
    Actor,
}

/// Where a handle stands in its life.
#[derive(Clone, Copy, Debug, PartialEq, Eq, Structural)]
pub enum ContextState {
    Active,
    Disposed,
}

/// The categories of engine-owned result buffers.
#[derive(Clone, Copy, Debug, PartialEq, Eq, Structural)]
pub enum BufferKind {
    Float64,
    Int32,
    Int8,
    Text,
}

/// Addresses of one result buffer: where its element count lives and where
/// the address of its data lives.
#[derive(Clone, Copy, Debug, PartialEq, Eq, Structural)]
pub struct BufferLocation {
    pub count: usize,
    pub data: usize,
}

/// What the engine's one-time registration call hands out for a context.
#[derive(Clone, Copy, Debug, PartialEq, Eq, Structural)]
pub struct Registration {
    pub error_number: usize,
    pub float64: BufferLocation,
    pub int32: BufferLocation,
    pub int8: BufferLocation,
    pub text: BufferLocation,
}

/// Both addresses of a buffer came back non-null.
pub open spec fn location_set(l: BufferLocation) -> bool {
    l.count != 0 && l.data != 0
}

/// Registration succeeded: every address came back non-null.
pub open spec fn registered(r: Registration) -> bool {
    &&& r.error_number != 0
    &&& location_set(r.float64)
    &&& location_set(r.int32)
    &&& location_set(r.int8)
    &&& location_set(r.text)
}

/// The addresses registered for one buffer category.
pub open spec fn location_of(r: Registration, kind: BufferKind) -> BufferLocation {
    match kind {
        BufferKind::Float64 => r.float64,
        BufferKind::Int32 => r.int32,
        BufferKind::Int8 => r.int8,
        BufferKind::Text => r.text,
    }
}

/// The state a disposal moves a handle to, or `None` where disposal is refused:
/// only an active actor may be disposed, and the prime handle never is.
pub open spec fn dispose_step(kind: ContextKind, state: ContextState) -> Option<ContextState> {
    if kind == ContextKind::Actor && state == ContextState::Active {
        Some(ContextState::Disposed)
    } else {
        None
    }
}

/// `e` is the engine's report of the error flag `flag` with text `description`.
pub open spec fn engine_error(flag: i32, description: Seq<char>, e: DSSError) -> bool {
    e.kind == ErrorKind::Engine && e.number == flag && e.message@ == description
}

/// The result of checking the error flag of an active handle that held `flag`:
/// success exactly when the flag was clear, the engine's error otherwise.
pub open spec fn error_outcome(flag: i32, description: Seq<char>, r: Result<(), DSSError>) -> bool {
    if flag == 0 {
        r is Ok
    } else {
        r is Err && engine_error(flag, description, r->Err_0)
    }
}

/// The error flag after a check through a handle in `state`: cleared on an
/// active handle, untouched on a disposed one.
pub open spec fn flag_after(state: ContextState, flag: i32) -> i32 {
    if state == ContextState::Active {
        0
    } else {
        flag
    }
}

/// An element count reported for a buffer at address `data` may be read: it is
/// not negative, and no elements are claimed at a null address.
pub open spec fn count_valid(count: i32, data: usize) -> bool {
    count >= 0 && (count > 0 ==> data != 0)
}

/// A buffer may be read after a call through a handle in `state`: the handle
/// is active, the error flag was clear and the count is valid.
pub open spec fn readable(state: ContextState, flag: i32, count: i32, data: usize) -> bool {
    state == ContextState::Active && flag == 0 && count_valid(count, data)
}

/// How a read that is not `readable` is refused, before any buffer is touched:
/// a disposed handle by a lifecycle error, a set flag by the engine's error,
/// an invalid count by a marshaling error.
pub open spec fn refused_before_read<T>(
    state: ContextState,
    flag: i32,
    description: Seq<char>,
    r: Result<T, DSSError>,
) -> bool {
    if state == ContextState::Disposed {
        fails_with(r, ErrorKind::Lifecycle)
    } else if flag != 0 {
        r is Err && engine_error(flag, description, r->Err_0)
    } else {
        fails_with(r, ErrorKind::Marshaling)
    }
}

/// One engine context: its token, its kind, its place in the lifecycle and the
/// addresses registered for it.
pub struct DSSContext {
    ctx_ptr: usize,
    kind: ContextKind,
    state: ContextState,
    registration: Registration,
}

impl DSSContext {
    pub closed spec fn token(&self) -> usize {
        self.ctx_ptr
    }

    pub closed spec fn kind(&self) -> ContextKind {
        self.kind
    }

    pub closed spec fn state(&self) -> ContextState {
        self.state
    }

    pub closed spec fn regs(&self) -> Registration {
        self.registration
    }

    /// A handle exists only for a non-null token whose registration succeeded.
    #[verifier::type_invariant]
    spec fn wf(&self) -> bool {
        self.ctx_ptr != 0 && registered(self.registration)
    }

    fn register(ctx_ptr: usize, kind: ContextKind, registration: Registration) -> (r: Result<
        DSSContext,
        DSSError,
    >)
        ensures
            r is Ok <==> (ctx_ptr != 0 && registered(registration)),
            r is Err ==> fails_with(r, ErrorKind::ContextCreation) && r->Err_0.number == 0,
            ctx_ptr == 0 ==> r is Err && r->Err_0.message@ == "Could not create a new DSS Context"@,
            ctx_ptr != 0 && !registered(registration) ==> r is Err && r->Err_0.message@
                == "Could not register the DSS Context"@,
            r matches Ok(c) ==> {
                &&& c.token() == ctx_ptr
                &&& c.kind() == kind
                &&& c.state() == ContextState::Active
                &&& c.regs() == registration
            },
    {
        if ctx_ptr == 0 {
            return Err(DSSError::raised(ErrorKind::ContextCreation, "Could not create a new DSS Context"));
        }
        let complete = registration.error_number != 0 && registration.float64.count != 0
            && registration.float64.data != 0 && registration.int32.count != 0
            && registration.int32.data != 0 && registration.int8.count != 0
            && registration.int8.data != 0 && registration.text.count != 0
            && registration.text.data != 0;
        if !complete {
            return Err(DSSError::raised(ErrorKind::ContextCreation, "Could not register the DSS Context"));
        }
        Ok(DSSContext { ctx_ptr, kind, state: ContextState::Active, registration })
    }

    /// Wraps the engine's default instance, given its token and registration.
    pub fn prime(ctx_ptr: usize, registration: Registration) -> (r: Result<DSSContext, DSSError>)
        ensures
            r is Ok <==> (ctx_ptr != 0 && registered(registration)),
            r is Err ==> fails_with(r, ErrorKind::ContextCreation) && r->Err_0.number == 0,
            ctx_ptr == 0 ==> r is Err && r->Err_0.message@ == "Could not create a new DSS Context"@,
            ctx_ptr != 0 && !registered(registration) ==> r is Err && r->Err_0.message@
                == "Could not register the DSS Context"@,
            r matches Ok(c) ==> {
                &&& c.token() == ctx_ptr
                &&& c.kind() == ContextKind::Prime
                &&& c.state() == ContextState::Active
                &&& c.regs() == registration
            },
    {
        DSSContext::register(ctx_ptr, ContextKind::Prime, registration)
    }

    /// Wraps a freshly allocated engine instance; a null token means the engine
    /// could not allocate one.
    pub fn new(ctx_ptr: usize, registration: Registration) -> (r: Result<DSSContext, DSSError>)
        ensures
            r is Ok <==> (ctx_ptr != 0 && registered(registration)),
            r is Err ==> fails_with(r, ErrorKind::ContextCreation) && r->Err_0.number == 0,
            ctx_ptr == 0 ==> r is Err && r->Err_0.message@ == "Could not create a new DSS Context"@,
            ctx_ptr != 0 && !registered(registration) ==> r is Err && r->Err_0.message@
                == "Could not register the DSS Context"@,
            r matches Ok(c) ==> {
                &&& c.token() == ctx_ptr
                &&& c.kind() == ContextKind::Actor
                &&& c.state() == ContextState::Active
                &&& c.regs() == registration
            },
    {
        DSSContext::register(ctx_ptr, ContextKind::Actor, registration)
    }

    /// The engine token of this context.
    pub fn ctx_ptr(&self) -> (r: usize)
        ensures
            r == self.token(),
            r != 0,
    {
        proof {
            use_type_invariant(self);
        }
        self.ctx_ptr
    }

    pub fn is_prime(&self) -> (r: bool)
        ensures
            r == (self.kind() == ContextKind::Prime),
    {
        self.kind == ContextKind::Prime
    }

    /// Address of the engine's error flag for this context.
    pub fn error_number_addr(&self) -> (r: usize)
        ensures
            r == self.regs().error_number,
            r != 0,
    {
        proof {
            use_type_invariant(self);
        }
        self.registration.error_number
    }

    /// Addresses of one result buffer of this context.
    pub fn buffer(&self, kind: BufferKind) -> (r: BufferLocation)
        ensures
            r == location_of(self.regs(), kind),
            location_set(r),
    {
        proof {
            use_type_invariant(self);
        }
        match kind {
            BufferKind::Float64 => self.registration.float64,
            BufferKind::Int32 => self.registration.int32,
            BufferKind::Int8 => self.registration.int8,
            BufferKind::Text => self.registration.text,
        }
    }

    /// Refuses any operation on a disposed handle.
    pub fn ensure_active(&self) -> (r: Result<(), DSSError>)
        ensures
            r is Ok <==> self.state() == ContextState::Active,
            r is Err ==> fails_with(r, ErrorKind::Lifecycle),
    {
        match self.state {
            ContextState::Active => Ok(()),
            ContextState::Disposed => Err(
                DSSError::raised(ErrorKind::Lifecycle, "The DSS Context was already disposed"),
            ),
        }
    }

    /// Marks an active actor as disposed. `Ok` means the engine must now be
    /// asked to release the instance; an error means nothing is to be released.
    pub fn dispose(&mut self) -> (r: Result<(), DSSError>)
        ensures
            r is Ok <==> dispose_step(old(self).kind(), old(self).state()) is Some,
            r is Err ==> fails_with(r, ErrorKind::Lifecycle) && *final(self) == *old(self),
            r is Ok ==> {
                &&& Some(final(self).state()) == dispose_step(old(self).kind(), old(self).state())
                &&& final(self).kind() == old(self).kind()
                &&& final(self).token() == old(self).token()
                &&& final(self).regs() == old(self).regs()
            },
    {
        match self.kind {
            ContextKind::Prime => Err(
                DSSError::raised(ErrorKind::Lifecycle, "The prime DSS Context cannot be disposed"),
            ),
            ContextKind::Actor => match self.state {
                ContextState::Active => {
                    proof {
                        use_type_invariant(&*self);
                    }
                    self.state = ContextState::Disposed;
                    Ok(())
                },
                ContextState::Disposed => Err(
                    DSSError::raised(ErrorKind::Lifecycle, "The DSS Context was already disposed"),
                ),
            },
        }
    }

    /// Reads and clears the engine's error flag. `description` is the engine's
    /// text for the error, fetched before the flag is cleared; it is only read
    /// when the flag is set. A disposed handle is refused and its flag untouched.
    pub fn DSSError(&self, flag: &mut i32, description: String) -> (r: Result<(), DSSError>)
        ensures
            self.state() == ContextState::Disposed ==> fails_with(r, ErrorKind::Lifecycle)
                && *final(flag) == *old(flag),
            self.state() == ContextState::Active ==> {
                &&& *final(flag) == 0
                &&& error_outcome(*old(flag), description@, r)
            },
    {
        self.ensure_active()?;
        let number = *flag;
        if number == 0 {
            Ok(())
        } else {
            *flag = 0;
            Err(DSSError::engine(number, description))
        }
    }
}

/// The outcome of an activation call (of a bus, by index or name) that returns
/// a status, given the check of the error flag made right after it. A negative
/// status is a failure even when the engine set no error.
pub fn activation_outcome(status: i32, checked: Result<(), DSSError>) -> (r: Result<(), DSSError>)
    ensures
        status >= 0 ==> r == checked,
        status < 0 && checked is Err ==> r == checked,
        status < 0 && checked is Ok ==> fails_with(r, ErrorKind::Engine) && r->Err_0.number == 0
            && r->Err_0.message@ == "Could not activate bus"@,
{
    if status < 0 {
        match checked {
            Err(e) => Err(e),
            Ok(()) => Err(DSSError::raised(ErrorKind::Engine, "Could not activate bus")),
        }
    } else {
        checked
    }
}

/// Disposal reaches the engine at most once per handle, and never for the
/// prime handle: once a disposal has been accepted, the next one is refused.
pub proof fn lemma_dispose_at_most_once(kind: ContextKind, state: ContextState)
    ensures
        dispose_step(ContextKind::Prime, state) is None,
        dispose_step(kind, state) matches Some(next) ==> dispose_step(kind, next) is None,
{
}

/// Each error is observed once. A check of an active handle whose flag was set
/// reports it and leaves the flag clear; the next check, with no failing call
/// in between, finds that cleared flag and passes.
pub proof fn lemma_error_clear_once(
    flag: i32,
    first_description: Seq<char>,
    first: Result<(), DSSError>,
    second_description: Seq<char>,
    second: Result<(), DSSError>,
)
    requires
        flag != 0,
        error_outcome(flag, first_description, first),
        error_outcome(flag_after(ContextState::Active, flag), second_description, second),
    ensures
        first is Err && engine_error(flag, first_description, first->Err_0),
        second is Ok,
{
}

} // verus!
