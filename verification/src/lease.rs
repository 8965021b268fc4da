//! The interface lease: exclusive use of one USB interface, with a
//! teardown plan that releases the claim first and reattaches the kernel
//! driver only if this lease detached it. The plan is fixed by the lease's
//! state alone — it does not depend on how any teardown call turns out, so
//! a failing release still leaves the reattach to run after it.

use vstd::prelude::*;

verus! {

/// Exclusive use of one USB interface for a programming session.
#[derive(Clone, Copy, PartialEq, Eq, Structural, Debug)]
pub struct InterfaceLease {
    pub interface_number: u8,
    pub did_detach_kernel_driver: bool,
    pub is_claimed: bool,
}

/// One step of tearing a lease down, in the order the plan gives.
#[derive(Clone, Copy, PartialEq, Eq, Structural, Debug)]
pub enum TeardownAction {
    /// Release the claimed interface (best-effort; an error here is not
    /// actionable and must not stop the reattach).
    ReleaseInterface,
    /// Reattach the kernel driver this lease detached, so the host keeps
    /// its normal driver after the tool exits.
    ReattachKernelDriver,
}

/// The teardown plan of a lease: release if claimed, then reattach only if
/// this lease detached the kernel driver, in that order.
pub open spec fn spec_teardown_steps(l: InterfaceLease) -> Seq<TeardownAction> {
    (if l.is_claimed {
        seq![TeardownAction::ReleaseInterface]
    } else {
        Seq::<TeardownAction>::empty()
    }) + (if l.did_detach_kernel_driver {
        seq![TeardownAction::ReattachKernelDriver]
    } else {
        Seq::<TeardownAction>::empty()
    })
}

impl InterfaceLease {
    /// A lease over `interface_number` on which nothing has happened yet.
    pub fn begin(interface_number: u8) -> (r: InterfaceLease)
        ensures
            r == (InterfaceLease {
                interface_number,
                did_detach_kernel_driver: false,
                is_claimed: false,
            }),
    {
        InterfaceLease { interface_number, did_detach_kernel_driver: false, is_claimed: false }
    }

    /// Records that this lease detached the kernel driver from the
    /// interface. Only a lease that detached it may reattach it later.
    pub fn on_detached(&mut self)
        ensures
            *final(self) == (InterfaceLease { did_detach_kernel_driver: true, ..*old(self) }),
    {
        self.did_detach_kernel_driver = true;
    }

    /// Records that the interface claim succeeded.
    pub fn on_claimed(&mut self)
        ensures
            *final(self) == (InterfaceLease { is_claimed: true, ..*old(self) }),
    {
        self.is_claimed = true;
    }

    /// The ordered teardown plan: exactly [`spec_teardown_steps`]. Run the
    /// steps in order, each best-effort; the plan never depends on an
    /// earlier step's outcome.
    pub fn teardown_steps(&self) -> (r: Vec<TeardownAction>)
        ensures
            r@ == spec_teardown_steps(*self),
    {
        let mut r: Vec<TeardownAction> = Vec::new();
        if self.is_claimed {
            r.push(TeardownAction::ReleaseInterface);
        }
        if self.did_detach_kernel_driver {
            r.push(TeardownAction::ReattachKernelDriver);
        }
        proof {
            assert(r@ =~= spec_teardown_steps(*self));
        }
        r
    }
}

/// Teardown is ordered and exact: the release (present exactly when the
/// interface is claimed) always stands before the reattach (present
/// exactly when this lease detached the kernel driver), and nothing else
/// is in the plan.
pub proof fn lemma_teardown_order(l: InterfaceLease)
    ensures
        spec_teardown_steps(l).contains(TeardownAction::ReleaseInterface) == l.is_claimed,
        spec_teardown_steps(l).contains(TeardownAction::ReattachKernelDriver)
            == l.did_detach_kernel_driver,
        forall|i: int, j: int|
            0 <= i < j < spec_teardown_steps(l).len() ==> !(#[trigger] spec_teardown_steps(l)[i]
                == TeardownAction::ReattachKernelDriver && #[trigger] spec_teardown_steps(l)[j]
                == TeardownAction::ReleaseInterface),
{
    let s = spec_teardown_steps(l);
    if l.is_claimed {
        assert(s[0] == TeardownAction::ReleaseInterface);
        assert(s.contains(TeardownAction::ReleaseInterface));
    }
    if l.did_detach_kernel_driver {
        assert(s.last() == TeardownAction::ReattachKernelDriver);
        assert(s.contains(TeardownAction::ReattachKernelDriver));
    }
}

} // verus!
