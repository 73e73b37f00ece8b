//! The life of a resource of the driver: acquired once, released once.
//!
//! The pointer to the resource stays outside this module. What is decided
//! here is whether an acquisition succeeded, whether the pointer may still
//! be used, and whether the release function has to be called.

use crate::error::{check_status, Result, UhdError, UHD_ERROR_NONE};
use vstd::prelude::*;

verus! {

/// Where a resource stands in its life.
#[derive(Clone, Copy, Debug, PartialEq, Eq, Structural)]
pub enum HandleState {
    /// The resource is owned, and its pointer may be handed to the driver.
    Owned,
    /// The resource was released. Its pointer must not be used again.
    Released,
}

/// The outcomes of a run of release calls: for each call, whether it had
/// the release function called.
pub open spec fn release_run(state: HandleState, calls: nat) -> Seq<bool>
    decreases calls,
{
    if calls == 0 {
        Seq::empty()
    } else {
        seq![state == HandleState::Owned] + release_run(HandleState::Released, (calls - 1) as nat)
    }
}

/// The number of entries of `outcomes` that are set.
pub open spec fn count_set(outcomes: Seq<bool>) -> nat
    decreases outcomes.len(),
{
    if outcomes.len() == 0 {
        0
    } else {
        count_set(outcomes.drop_first()) + if outcomes[0] {
            1nat
        } else {
            0nat
        }
    }
}

impl HandleState {
    /// Judges an acquisition: the resource is owned if the allocator
    /// reported success and gave a pointer. An error status is translated;
    /// success without a pointer is the error `Unknown`.
    pub fn acquire(status: u32, is_null: bool) -> (res: Result<HandleState>)
        ensures
            res is Ok <==> status == UHD_ERROR_NONE && !is_null,
            res is Ok ==> res->Ok_0 == HandleState::Owned,
            res is Err && status != UHD_ERROR_NONE ==> UhdError::spec_from_sys(status) == Some(
                res->Err_0,
            ),
            res is Err && status == UHD_ERROR_NONE ==> res->Err_0 == UhdError::Unknown,
    {
        match check_status(status) {
            Ok(()) => if is_null {
                Err(UhdError::Unknown)
            } else {
                Ok(HandleState::Owned)
            },
            Err(kind) => Err(kind),
        }
    }

    /// Takes over a resource that another call of the driver produced.
    pub fn from_raw() -> (state: HandleState)
        ensures
            state == HandleState::Owned,
    {
        HandleState::Owned
    }

    /// Whether the pointer may be handed to the driver.
    pub fn is_owned(&self) -> (owned: bool)
        ensures
            owned == (*self == HandleState::Owned),
    {
        match self {
            HandleState::Owned => true,
            HandleState::Released => false,
        }
    }

    /// Releases the resource. Returns whether the release function has to
    /// be called now: it has if the resource was owned, and never after.
    pub fn release(&mut self) -> (call: bool)
        ensures
            call == (*old(self) == HandleState::Owned),
            *final(self) == HandleState::Released,
    {
        let call = self.is_owned();
        *self = HandleState::Released;
        call
    }

    /// However often an owned resource is released, the release function is
    /// called once: at the first release, and at no later one.
    pub proof fn lemma_released_once(calls: nat)
        requires
            calls > 0,
        ensures
            count_set(release_run(HandleState::Owned, calls)) == 1,
            release_run(HandleState::Owned, calls)[0],
            count_set(release_run(HandleState::Released, calls)) == 0,
        decreases calls,
    {
        Self::lemma_never_again(calls);
        Self::lemma_never_again((calls - 1) as nat);
        let run = release_run(HandleState::Owned, calls);
        assert(run.drop_first() =~= release_run(HandleState::Released, (calls - 1) as nat));
    }

    /// Releasing a released resource never has the release function
    /// called.
    pub proof fn lemma_never_again(calls: nat)
        ensures
            count_set(release_run(HandleState::Released, calls)) == 0,
        decreases calls,
    {
        if calls > 0 {
            Self::lemma_never_again((calls - 1) as nat);
            let run = release_run(HandleState::Released, calls);
            assert(run.drop_first() =~= release_run(HandleState::Released, (calls - 1) as nat));
        }
    }
}

} // verus!
