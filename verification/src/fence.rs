//! Fence synchronization: the capability interface the boundary dispatches
//! through, the mapping from raw driver wait outcomes to boundary results,
//! and a fence whose native primitive lives in host memory.

use vstd::prelude::*;
use vstd::slice::slice_index_get;
use crate::interop::{InteropResult, ResultError, ResultErrorKind};

verus! {

/// Outcome of a driver-level wait call on a set of fences.
#[derive(Clone, Copy, PartialEq, Eq, Structural, Debug)]
pub enum DriverWaitStatus {
    /// The wait condition was met before the timeout elapsed.
    Completed,
    /// The timeout elapsed first.
    TimedOut,
    /// The driver failed; carries the driver's raw result code.
    Failed(i32),
}

/// Maps the raw outcome of a driver wait call to the boundary contract:
/// completion is `true`, a timeout is a normal outcome encoded as `false`
/// (never an error), and only a driver failure is an error.
pub fn interpret_wait_status(status: DriverWaitStatus) -> (r: Result<bool, ResultError>)
    ensures
        status == DriverWaitStatus::Completed ==> r == Ok::<bool, ResultError>(true),
        status == DriverWaitStatus::TimedOut ==> r == Ok::<bool, ResultError>(false),
        status is Failed ==> {
            &&& r matches Err(e)
            &&& e.spec_kind() == ResultErrorKind::Device
        },
{
    match status {
        DriverWaitStatus::Completed => Ok(true),
        DriverWaitStatus::TimedOut => Ok(false),
        DriverWaitStatus::Failed(_) => Err(
            ResultError::new(ResultErrorKind::Device, "driver wait on fences failed".to_owned()),
        ),
    }
}

/// Maps the raw outcome of a driver fence-status query to the boundary
/// contract: a driver failure becomes a device error, anything else is the
/// reported signal state.
pub fn interpret_status_query(status: Result<bool, i32>) -> (r: InteropResult<bool>)
    ensures
        status matches Ok(b) ==> r == InteropResult::<bool>::Success(b),
        status is Err ==> {
            &&& !r.spec_is_ok()
            &&& r.spec_error().spec_kind() == ResultErrorKind::Device
        },
{
    match status {
        Ok(b) => InteropResult::with_ok(b),
        Err(_) => InteropResult::with_err(
            ResultError::new(ResultErrorKind::Device, "driver fence status query failed".to_owned()),
        ),
    }
}

/// A synchronization primitive with two states, unsignaled and signaled. The
/// transition to signaled is made only by driver-side work completing; this
/// layer never signals a fence itself. The boundary reaches every concrete
/// backend only through this interface.
pub trait GraphicsFence: Sized {
    /// Whether the underlying native primitive has been completed.
    spec fn signaled(&self) -> bool;

    /// Whether operations on this fence can fail at the driver level.
    spec fn can_fail(&self) -> bool;

    /// The device/pool that owns the underlying primitive's allocation.
    spec fn device_id(&self) -> int;

    /// Blocks the calling thread until the fence is signaled or `timeout`
    /// nanoseconds elapse (`0` polls once, `u64::MAX` waits indefinitely).
    /// Returns `true` when signaled and `false` on timeout; a timeout is
    /// never an error, and only a driver failure is.
    fn wait(&self, timeout: u64) -> (r: InteropResult<bool>)
        ensures
            r.spec_is_ok() ==> r.spec_value() == self.signaled(),
            !r.spec_is_ok() ==> r.spec_error().spec_kind() == ResultErrorKind::Device,
            !self.can_fail() ==> r.spec_is_ok(),
    ;

    /// Non-blocking status check.
    fn is_signaled(&self) -> (r: InteropResult<bool>)
        ensures
            r.spec_is_ok() ==> r.spec_value() == self.signaled(),
            !r.spec_is_ok() ==> r.spec_error().spec_kind() == ResultErrorKind::Device,
            !self.can_fail() ==> r.spec_is_ok(),
    ;

    /// Waits on a set of fences: with `wait_all` the result is `true` exactly
    /// when every fence is signaled, without it exactly when at least one is.
    /// Every fence must share the owning device/pool of the fence the call is
    /// issued through: the underlying driver wait operates on a single device
    /// context.
    fn wait_multiple(&self, fences: &[&Self], wait_all: bool, timeout: u64) -> (r: Result<
        bool,
        ResultError,
    >)
        requires
            fences@.len() >= 1,
            forall|i: int| 0 <= i < fences@.len() ==> fences@[i].device_id() == self.device_id(),
        ensures
            r matches Ok(b) ==> (wait_all ==> (b <==> (forall|i: int|
                0 <= i < fences@.len() ==> fences@[i].signaled()))),
            r matches Ok(b) ==> (!wait_all ==> (b <==> (exists|i: int|
                0 <= i < fences@.len() && fences@[i].signaled()))),
            r matches Err(e) ==> e.spec_kind() == ResultErrorKind::Device,
            !self.can_fail() ==> r is Ok,
    ;
}

/// Boundary call: blocks until the fence signals or `timeout_ns` elapses
/// (`0` polls once, `u64::MAX` waits indefinitely).
pub fn fence_wait<F: GraphicsFence>(handle: &F, timeout_ns: u64) -> (r: InteropResult<bool>)
    ensures
        r.spec_is_ok() ==> r.spec_value() == handle.signaled(),
        !r.spec_is_ok() ==> r.spec_error().spec_kind() == ResultErrorKind::Device,
        !handle.can_fail() ==> r.spec_is_ok(),
{
    handle.wait(timeout_ns)
}

/// Boundary call: non-blocking status check of a fence.
pub fn fence_is_signaled<F: GraphicsFence>(handle: &F) -> (r: InteropResult<bool>)
    ensures
        r.spec_is_ok() ==> r.spec_value() == handle.signaled(),
        !r.spec_is_ok() ==> r.spec_error().spec_kind() == ResultErrorKind::Device,
        !handle.can_fail() ==> r.spec_is_ok(),
{
    handle.is_signaled()
}

/// Boundary call: waits on a set of fences together. Every fence must share
/// the owning device/pool of the fence the call is issued through (the
/// caller upholds this; it is not checked at runtime against the driver).
pub fn fence_wait_multiple<F: GraphicsFence>(
    handle: &F,
    handles: &[&F],
    wait_all: bool,
    timeout_ns: u64,
) -> (r: Result<bool, ResultError>)
    requires
        handles@.len() >= 1,
        forall|i: int| 0 <= i < handles@.len() ==> handles@[i].device_id() == handle.device_id(),
    ensures
        r matches Ok(b) ==> (wait_all ==> (b <==> (forall|i: int|
            0 <= i < handles@.len() ==> handles@[i].signaled()))),
        r matches Ok(b) ==> (!wait_all ==> (b <==> (exists|i: int|
            0 <= i < handles@.len() && handles@[i].signaled()))),
        r matches Err(e) ==> e.spec_kind() == ResultErrorKind::Device,
        !handle.can_fail() ==> r is Ok,
{
    handle.wait_multiple(handles, wait_all, timeout_ns)
}

/// A fence whose native primitive lives in host memory. Operations on it
/// never fail at the driver level, and whether it is signaled is immediate,
/// so a wait never blocks past the state the primitive is in.
pub struct HostFence {
    /// Whether the underlying primitive has been completed.
    pub completed: bool,
    /// The device/pool that owns the primitive.
    pub device: u64,
}

impl HostFence {
    /// An unsignaled fence owned by the given device/pool.
    pub fn new(device: u64) -> (f: HostFence)
        ensures
            !f.signaled(),
            f.device_id() == device,
    {
        HostFence { completed: false, device }
    }

    /// Records completion of the underlying primitive: the transition that
    /// driver-side work makes when it finishes. This layer itself never
    /// signals a fence; this stands for the driver's side of the contract.
    pub fn complete(&mut self)
        ensures
            final(self).signaled(),
            final(self).device_id() == old(self).device_id(),
    {
        self.completed = true;
    }
}

impl GraphicsFence for HostFence {
    open spec fn signaled(&self) -> bool {
        self.completed
    }

    open spec fn can_fail(&self) -> bool {
        false
    }

    open spec fn device_id(&self) -> int {
        self.device as int
    }

    fn wait(&self, _timeout: u64) -> (r: InteropResult<bool>)
    {
        InteropResult::with_ok(self.completed)
    }

    fn is_signaled(&self) -> (r: InteropResult<bool>)
    {
        InteropResult::with_ok(self.completed)
    }

    fn wait_multiple(&self, fences: &[&HostFence], wait_all: bool, _timeout: u64) -> (r: Result<
        bool,
        ResultError,
    >)
    {
        let n: usize = fences.len();
        let mut i: usize = 0;
        if wait_all {
            while i < n
                invariant
                    wait_all,
                    n == fences@.len(),
                    i <= n,
                    forall|j: int| 0 <= j < i ==> fences@[j].signaled(),
                decreases n - i,
            {
                let f: &HostFence = *slice_index_get(fences, i);
                if !f.completed {
                    proof {
                        assert(!fences@[i as int].signaled());
                    }
                    return Ok(false);
                }
                i = i + 1;
            }
            Ok(true)
        } else {
            while i < n
                invariant
                    !wait_all,
                    n == fences@.len(),
                    i <= n,
                    forall|j: int| 0 <= j < i ==> !fences@[j].signaled(),
                decreases n - i,
            {
                let f: &HostFence = *slice_index_get(fences, i);
                if f.completed {
                    proof {
                        assert(fences@[i as int].signaled());
                    }
                    return Ok(true);
                }
                i = i + 1;
            }
            Ok(false)
        }
    }
}

} // verus!
