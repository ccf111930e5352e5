//! The access coordinator: many readers or one writer.
//!
//! It guards no data. It keeps statements that write apart from all others
//! within one process; between processes the store looks after itself. It
//! only decides who may enter: waiting is the caller's business.

use vstd::prelude::*;

verus! {

/// How a statement wants to enter.
#[derive(Debug, Clone, Copy, PartialEq, Eq, Structural)]
pub enum AccessMode {
    /// Together with any number of others that share.
    Shared,
    /// Alone.
    Exclusive,
}

/// Who is inside.
pub struct AccessView {
    pub sharing: nat,
    pub exclusive: bool,
}

/// Nobody inside.
pub open spec fn idle() -> AccessView {
    AccessView { sharing: 0, exclusive: false }
}

/// No one shares with one who is in alone.
pub open spec fn consistent(access: AccessView) -> bool {
    access.exclusive ==> access.sharing == 0
}

/// Whether one more may enter in `mode`.
pub open spec fn admits(access: AccessView, mode: AccessMode) -> bool {
    match mode {
        AccessMode::Shared => !access.exclusive && access.sharing < u64::MAX,
        AccessMode::Exclusive => !access.exclusive && access.sharing == 0,
    }
}

/// Whether someone is inside in `mode`.
pub open spec fn holds(access: AccessView, mode: AccessMode) -> bool {
    match mode {
        AccessMode::Shared => access.sharing > 0,
        AccessMode::Exclusive => access.exclusive,
    }
}

/// Who is inside after one more has entered in `mode`.
pub open spec fn entered(access: AccessView, mode: AccessMode) -> AccessView {
    match mode {
        AccessMode::Shared => AccessView { sharing: access.sharing + 1, ..access },
        AccessMode::Exclusive => AccessView { exclusive: true, ..access },
    }
}

/// Who is inside after one who was inside in `mode` has left.
pub open spec fn left(access: AccessView, mode: AccessMode) -> AccessView {
    match mode {
        AccessMode::Shared => AccessView { sharing: (access.sharing - 1) as nat, ..access },
        AccessMode::Exclusive => AccessView { exclusive: false, ..access },
    }
}

/// The coordinator of one process.
pub struct AccessCoordinator {
    sharing: u64,
    exclusive: bool,
}

impl View for AccessCoordinator {
    type V = AccessView;

    closed spec fn view(&self) -> AccessView {
        AccessView { sharing: self.sharing as nat, exclusive: self.exclusive }
    }
}

impl AccessCoordinator {
    #[verifier::type_invariant]
    spec fn well_formed(self) -> bool {
        self.exclusive ==> self.sharing == 0
    }

    /// A coordinator with nobody inside.
    pub fn new() -> (access: AccessCoordinator)
        ensures
            access@ == idle(),
    {
        AccessCoordinator { sharing: 0, exclusive: false }
    }

    /// Whether one more may enter in `mode` now.
    pub fn admits(&self, mode: AccessMode) -> (yes: bool)
        ensures
            yes == admits(self@, mode),
            consistent(self@),
    {
        proof {
            use_type_invariant(self);
        }
        match mode {
            AccessMode::Shared => !self.exclusive && self.sharing < u64::MAX,
            AccessMode::Exclusive => !self.exclusive && self.sharing == 0,
        }
    }

    /// Lets one more in, in `mode`, if that is admitted; otherwise nothing
    /// changes and the caller has to wait.
    pub fn try_acquire(&mut self, mode: AccessMode) -> (inside: bool)
        ensures
            inside == admits(old(self)@, mode),
            final(self)@ == (if inside {
                entered(old(self)@, mode)
            } else {
                old(self)@
            }),
            consistent(final(self)@),
    {
        proof {
            use_type_invariant(&*self);
        }
        if !self.admits(mode) {
            return false;
        }
        match mode {
            AccessMode::Shared => {
                self.sharing = self.sharing + 1;
            },
            AccessMode::Exclusive => {
                self.exclusive = true;
            },
        }
        true
    }

    /// Lets one out who was inside in `mode`. Where nobody was, nothing
    /// changes.
    pub fn release(&mut self, mode: AccessMode) -> (was_inside: bool)
        ensures
            was_inside == holds(old(self)@, mode),
            final(self)@ == (if was_inside {
                left(old(self)@, mode)
            } else {
                old(self)@
            }),
            consistent(final(self)@),
    {
        proof {
            use_type_invariant(&*self);
        }
        match mode {
            AccessMode::Shared => {
                if self.sharing == 0 {
                    return false;
                }
                self.sharing = self.sharing - 1;
            },
            AccessMode::Exclusive => {
                if !self.exclusive {
                    return false;
                }
                self.exclusive = false;
            },
        }
        true
    }
}

/// Those who share do not keep each other out: where one has entered to
/// share, another may, as long as the count has room.
pub proof fn sharing_admits_sharing(access: AccessView)
    requires
        consistent(access),
        admits(access, AccessMode::Shared),
        access.sharing + 1 < u64::MAX,
    ensures
        admits(entered(access, AccessMode::Shared), AccessMode::Shared),
{
}

/// While anyone is inside, nobody enters alone.
pub proof fn occupied_refuses_exclusive(access: AccessView, mode: AccessMode)
    requires
        consistent(access),
        admits(access, mode),
    ensures
        !admits(entered(access, mode), AccessMode::Exclusive),
{
}

/// While one is inside alone, nobody enters at all.
pub proof fn exclusive_refuses_all(access: AccessView, mode: AccessMode)
    requires
        consistent(access),
        admits(access, AccessMode::Exclusive),
    ensures
        !admits(entered(access, AccessMode::Exclusive), mode),
{
}

/// Entering and leaving keep the state consistent, and one who leaves
/// right after entering leaves everything as it was.
pub proof fn enter_then_leave_restores(access: AccessView, mode: AccessMode)
    requires
        consistent(access),
        admits(access, mode),
    ensures
        consistent(entered(access, mode)),
        holds(entered(access, mode), mode),
        left(entered(access, mode), mode) == access,
{
}

/// Where nobody is inside, anyone is admitted.
pub proof fn idle_admits_all(mode: AccessMode)
    ensures
        admits(idle(), mode),
{
}

} // verus!
