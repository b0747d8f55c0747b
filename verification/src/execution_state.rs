//! The execution state of one stock.

use vstd::prelude::*;

verus! {

/// Where the runner of one stock stands.
#[derive(Debug, Clone, Copy, PartialEq, Eq, Structural)]
pub enum ExecutionState {
    /// No position.
    Flat,
    /// A signal is valid and no order has been placed.
    SignalArmed,
    /// An entry order waits for its fill.
    EntryPending,
    /// An entry order was filled in part.
    EntryPartial,
    /// A position is held.
    Open,
    /// An exit order was placed and is being verified.
    ExitPending,
    /// An exit left something behind, which is being sold again.
    ExitPartial,
    /// A person has to look; nothing is done automatically.
    ManualIntervention,
    /// The system cannot be relied on; new entries are blocked.
    Degraded,
}

impl Default for ExecutionState {
    fn default() -> (r: Self)
        ensures
            r == ExecutionState::Flat,
    {
        ExecutionState::Flat
    }
}

impl ExecutionState {
    /// The name under which a state is stored and logged.
    pub open spec fn name(self) -> Seq<char> {
        match self {
            ExecutionState::Flat => "flat"@,
            ExecutionState::SignalArmed => "signal_armed"@,
            ExecutionState::EntryPending => "entry_pending"@,
            ExecutionState::EntryPartial => "entry_partial"@,
            ExecutionState::Open => "open"@,
            ExecutionState::ExitPending => "exit_pending"@,
            ExecutionState::ExitPartial => "exit_partial"@,
            ExecutionState::ManualIntervention => "manual_intervention"@,
            ExecutionState::Degraded => "degraded"@,
        }
    }

    /// No order is out and no position is held.
    pub open spec fn idle(self) -> bool {
        self is Flat || self is SignalArmed
    }

    /// A position is held and no exit is under way.
    pub open spec fn manageable(self) -> bool {
        self is Open || self is EntryPartial
    }

    /// The name under which a state is stored and logged.
    pub fn label(self) -> (r: &'static str)
        ensures
            r@ == self.name(),
    {
        match self {
            ExecutionState::Flat => "flat",
            ExecutionState::SignalArmed => "signal_armed",
            ExecutionState::EntryPending => "entry_pending",
            ExecutionState::EntryPartial => "entry_partial",
            ExecutionState::Open => "open",
            ExecutionState::ExitPending => "exit_pending",
            ExecutionState::ExitPartial => "exit_partial",
            ExecutionState::ManualIntervention => "manual_intervention",
            ExecutionState::Degraded => "degraded",
        }
    }

    /// Whether a new entry order may be placed.
    pub fn can_place_entry(self) -> (r: bool)
        ensures
            r == self.idle(),
    {
        matches!(self, ExecutionState::Flat | ExecutionState::SignalArmed)
    }

    /// Whether a position may be closed automatically.
    pub fn can_auto_exit(self) -> (r: bool)
        ensures
            r == (self.manageable() || self is ExitPartial),
    {
        matches!(
            self,
            ExecutionState::Open | ExecutionState::EntryPartial | ExecutionState::ExitPartial
        )
    }

    /// Whether take-profit, stop and time rules apply.
    pub fn is_manageable_position(self) -> (r: bool)
        ensures
            r == self.manageable(),
    {
        matches!(self, ExecutionState::Open | ExecutionState::EntryPartial)
    }

    /// The state that four separate flags describe.  The first flag that is set decides.
    pub open spec fn of_flags(
        has_position: bool,
        exit_pending: bool,
        manual: bool,
        degraded: bool,
    ) -> ExecutionState {
        if manual {
            ExecutionState::ManualIntervention
        } else if exit_pending {
            ExecutionState::ExitPending
        } else if has_position {
            ExecutionState::Open
        } else if degraded {
            ExecutionState::Degraded
        } else {
            ExecutionState::Flat
        }
    }

    /// The state that four separate flags describe.
    pub fn derive_from_legacy(
        has_position: bool,
        exit_pending: bool,
        manual: bool,
        degraded: bool,
    ) -> (r: Self)
        ensures
            r == Self::of_flags(has_position, exit_pending, manual, degraded),
    {
        if manual {
            ExecutionState::ManualIntervention
        } else if exit_pending {
            ExecutionState::ExitPending
        } else if has_position {
            ExecutionState::Open
        } else if degraded {
            ExecutionState::Degraded
        } else {
            ExecutionState::Flat
        }
    }
}

/// Two states with the same name are the same state.
pub proof fn state_names_are_distinct(a: ExecutionState, b: ExecutionState)
    requires
        a.name() == b.name(),
    ensures
        a == b,
{
    reveal_strlit("flat");
    reveal_strlit("signal_armed");
    reveal_strlit("entry_pending");
    reveal_strlit("entry_partial");
    reveal_strlit("open");
    reveal_strlit("exit_pending");
    reveal_strlit("exit_partial");
    reveal_strlit("manual_intervention");
    reveal_strlit("degraded");
    assert("flat"@.len() == 4 && "open"@.len() == 4);
    assert("signal_armed"@.len() == 12 && "exit_pending"@.len() == 12);
    assert("exit_partial"@.len() == 12);
    assert("entry_pending"@.len() == 13 && "entry_partial"@.len() == 13);
    assert("manual_intervention"@.len() == 19 && "degraded"@.len() == 8);
    assert("flat"@[0] != "open"@[0]);
    assert("signal_armed"@[0] != "exit_pending"@[0]);
    assert("signal_armed"@[0] != "exit_partial"@[0]);
    assert("exit_pending"@[6] != "exit_partial"@[6]);
    assert("entry_pending"@[7] != "entry_partial"@[7]);
}

/// No state allows a new entry and a managed position at once, and a state that needs a person
/// or cannot be relied on allows neither an entry nor an automatic exit.
pub proof fn entry_and_management_exclude_each_other(s: ExecutionState)
    ensures
        !(s.idle() && s.manageable()),
        s is ManualIntervention || s is Degraded || s is ExitPending ==> !s.idle()
            && !s.manageable(),
{
}

/// Entries are placed only by who is flat or has a signal, and only a position that is open or was
/// filled in part is managed.
pub proof fn only_settled_states_act(s: ExecutionState)
    ensures
        s.idle() <==> s == ExecutionState::Flat || s == ExecutionState::SignalArmed,
        s.manageable() <==> s == ExecutionState::Open || s == ExecutionState::EntryPartial,
{
}

/// What four flags describe: a person comes before an exit, an exit before a position, a position
/// before trouble.
pub proof fn flags_describe_by_weight(has_position: bool, exit_pending: bool, degraded: bool)
    ensures
        ExecutionState::of_flags(has_position, exit_pending, true, degraded)
            == ExecutionState::ManualIntervention,
        ExecutionState::of_flags(has_position, true, false, degraded)
            == ExecutionState::ExitPending,
        ExecutionState::of_flags(true, false, false, degraded) == ExecutionState::Open,
        ExecutionState::of_flags(false, false, false, true) == ExecutionState::Degraded,
        ExecutionState::of_flags(false, false, false, false) == ExecutionState::Flat,
{
}

} // verus!
