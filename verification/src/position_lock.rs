//! The lock that lets only one of several stocks be entered at a time.

use crate::text::same_text;
use vstd::prelude::*;

verus! {

/// Who may enter.
#[derive(Debug, Clone)]
pub enum PositionLockState {
    /// Anyone may enter.
    Free,
    /// `code` has an entry order out.  `preempted` asks it to give way.
    Pending { code: String, preempted: bool },
    /// The stock holds a position.
    Held(String),
    /// The stock holds a position that a person has to deal with.
    ManualHeld(String),
}

/// The lock, with stock codes as texts.
pub enum LockModel {
    Free,
    Pending(Seq<char>, bool),
    Held(Seq<char>),
    ManualHeld(Seq<char>),
}

impl LockModel {
    /// The stock that holds the lock in its own right, and not for a person's sake.
    pub open spec fn held_by(self, code: Seq<char>) -> bool {
        match self {
            LockModel::Held(c) => c == code,
            LockModel::Pending(c, _) => c == code,
            _ => false,
        }
    }

    /// Another stock than `code` holds a position.
    pub open spec fn position_elsewhere(self, code: Seq<char>) -> bool {
        match self {
            LockModel::Held(c) => c != code,
            LockModel::ManualHeld(c) => c != code,
            _ => false,
        }
    }

    /// After `code` gave up its own hold.
    pub open spec fn released(self, code: Seq<char>) -> LockModel {
        if self.held_by(code) {
            LockModel::Free
        } else {
            self
        }
    }

    /// After the entry of `code` was filled: it holds the lock, unless that is kept for a person.
    pub open spec fn confirmed(self, code: Seq<char>) -> LockModel {
        if self is ManualHeld {
            self
        } else {
            LockModel::Held(code)
        }
    }

    /// After `code` asked to be kept for a person: granted unless another stock holds a position.
    pub open spec fn kept_for_manual(self, code: Seq<char>) -> LockModel {
        if self.position_elsewhere(code) {
            self
        } else {
            LockModel::ManualHeld(code)
        }
    }

    /// After `code` asked to enter.  A free lock is taken; another stock that waits for its fill
    /// is asked to give way.
    pub open spec fn after_entry_request(self, code: Seq<char>) -> LockModel {
        match self {
            LockModel::Free => LockModel::Pending(code, false),
            LockModel::Pending(c, _) if c != code => LockModel::Pending(c, true),
            _ => self,
        }
    }
}

impl Default for PositionLockState {
    fn default() -> (r: Self)
        ensures
            r@ == LockModel::Free,
    {
        PositionLockState::Free
    }
}

impl PositionLockState {
    /// The lock, with stock codes as texts.
    pub open spec fn view(&self) -> LockModel {
        match *self {
            PositionLockState::Free => LockModel::Free,
            PositionLockState::Pending { code, preempted } => LockModel::Pending(code@, preempted),
            PositionLockState::Held(code) => LockModel::Held(code@),
            PositionLockState::ManualHeld(code) => LockModel::ManualHeld(code@),
        }
    }

    /// Asks to enter `code`.  The answer is yes exactly where the lock was free.
    pub fn request_entry(&mut self, code: &str) -> (granted: bool)
        ensures
            granted == (old(self)@ is Free),
            final(self)@ == old(self)@.after_entry_request(code@),
    {
        let (next, granted): (Option<PositionLockState>, bool) = match &*self {
            PositionLockState::Free => (
                Some(PositionLockState::Pending { code: code.to_owned(), preempted: false }),
                true,
            ),
            PositionLockState::Pending { code: waiting, preempted } => {
                if same_text(waiting.as_str(), code) || *preempted {
                    (None, false)
                } else {
                    (
                        Some(
                            PositionLockState::Pending { code: waiting.clone(), preempted: true },
                        ),
                        false,
                    )
                }
            },
            PositionLockState::Held(_) => (None, false),
            PositionLockState::ManualHeld(_) => (None, false),
        };
        if let Some(n) = next {
            *self = n;
        }
        granted
    }

    /// The entry of `code` was filled: it holds the lock, whatever was asked meanwhile.  Only a lock
    /// that is kept for a person stays kept; where that is for another stock, the stock is reported.
    pub fn confirm_held(&mut self, code: &str) -> (kept_for: Option<String>)
        ensures
            final(self)@ == old(self)@.confirmed(code@),
            match kept_for {
                Some(holder) => old(self)@ == LockModel::ManualHeld(holder@) && holder@ != code@,
                None => !(old(self)@ is ManualHeld) || old(self)@ == LockModel::ManualHeld(code@),
            },
    {
        if let PositionLockState::ManualHeld(holder) = &*self {
            return if same_text(holder.as_str(), code) {
                None
            } else {
                Some(holder.clone())
            };
        }
        *self = PositionLockState::Held(code.to_owned());
        None
    }

    /// Whether the stock that waits for its fill was asked to give way.
    pub fn is_preempted(&self) -> (r: bool)
        ensures
            r == (self@ matches LockModel::Pending(_, p) && p),
    {
        match self {
            PositionLockState::Pending { preempted, .. } => *preempted,
            _ => false,
        }
    }

    /// Keeps the lock for a person to deal with `code`.  Where another stock holds a position
    /// the lock stays as it is, and its holder is reported.
    pub fn keep_for_manual(&mut self, code: &str) -> (conflict: Option<String>)
        ensures
            final(self)@ == old(self)@.kept_for_manual(code@),
            match conflict {
                Some(holder) => old(self)@.position_elsewhere(code@) && (old(self)@
                    == LockModel::Held(holder@) || old(self)@ == LockModel::ManualHeld(holder@)),
                None => !old(self)@.position_elsewhere(code@),
            },
    {
        let conflict: Option<String> = match &*self {
            PositionLockState::Held(holder) | PositionLockState::ManualHeld(holder) => {
                if same_text(holder.as_str(), code) {
                    None
                } else {
                    Some(holder.clone())
                }
            },
            _ => None,
        };
        if conflict.is_none() {
            *self = PositionLockState::ManualHeld(code.to_owned());
        }
        conflict
    }
}

/// Frees the lock where `code` itself holds it, and leaves it alone otherwise.
pub fn release_lock_if_self_held(lock: &mut PositionLockState, code: &str)
    ensures
        final(lock)@ == old(lock)@.released(code@),
{
    let own: bool = match &*lock {
        PositionLockState::Held(holder) => same_text(holder.as_str(), code),
        PositionLockState::Pending { code: waiting, .. } => same_text(waiting.as_str(), code),
        _ => false,
    };
    if own {
        *lock = PositionLockState::Free;
    }
}

/// What the runners do to the lock while they enter and close positions.
pub enum LockRequest {
    Enter(Seq<char>),
    Confirm(Seq<char>),
    Release(Seq<char>),
    Manual(Seq<char>),
}

/// The lock after one request.
pub open spec fn lock_step(m: LockModel, request: LockRequest) -> LockModel {
    match request {
        LockRequest::Enter(code) => m.after_entry_request(code),
        LockRequest::Confirm(code) => m.confirmed(code),
        LockRequest::Release(code) => m.released(code),
        LockRequest::Manual(code) => m.kept_for_manual(code),
    }
}

/// The lock after several requests, in their order.
pub open spec fn lock_run(m: LockModel, requests: Seq<LockRequest>) -> LockModel
    decreases requests.len(),
{
    if requests.len() == 0 {
        m
    } else {
        lock_step(lock_run(m, requests.drop_last()), requests.last())
    }
}

/// A lock that is kept for a person stays kept, whatever the runners of all stocks ask for and
/// whichever of their entries are filled.  Only a restart, which puts the lock back from what was
/// saved, or a person changes it.
pub proof fn manual_hold_survives(code: Seq<char>, requests: Seq<LockRequest>)
    ensures
        lock_run(LockModel::ManualHeld(code), requests) == LockModel::ManualHeld(code),
    decreases requests.len(),
{
    if requests.len() > 0 {
        manual_hold_survives(code, requests.drop_last());
    }
}

/// While one stock holds a position, no request of another stock takes the lock away, and none of
/// them is let in.  A fill of another stock is left out: it goes before.
pub proof fn held_lock_survives_others(code: Seq<char>, requests: Seq<LockRequest>)
    requires
        forall|i: int|
            0 <= i < requests.len() ==> match #[trigger] requests[i] {
                LockRequest::Enter(_) => true,
                LockRequest::Confirm(c) => c == code,
                LockRequest::Release(c) => c != code,
                LockRequest::Manual(c) => c != code,
            },
    ensures
        lock_run(LockModel::Held(code), requests) == LockModel::Held(code),
    decreases requests.len(),
{
    if requests.len() > 0 {
        assert forall|i: int|
            0 <= i < requests.drop_last().len() implies match #[trigger] requests.drop_last()[i] {
            LockRequest::Enter(_) => true,
            LockRequest::Confirm(c) => c == code,
            LockRequest::Release(c) => c != code,
            LockRequest::Manual(c) => c != code,
        } by {
            assert(requests.drop_last()[i] == requests[i]);
        }
        held_lock_survives_others(code, requests.drop_last());
        let last = requests[requests.len() - 1];
        assert(requests.last() == last);
    }
}

/// After one stock was let in, no stock is let in until the lock is given up.
pub proof fn entry_excludes_entry(m: LockModel, first: Seq<char>, second: Seq<char>)
    requires
        m is Free,
    ensures
        !(m.after_entry_request(first) is Free),
        !(m.after_entry_request(first).after_entry_request(second) is Free),
        m.after_entry_request(first).after_entry_request(second).held_by(first),
        m.after_entry_request(first).after_entry_request(second).released(first) is Free,
{
}

/// Giving up frees the lock only for the stock that held it in its own right.
pub proof fn release_is_own_only(m: LockModel, code: Seq<char>)
    ensures
        m.released(code) is Free ==> m is Free || m.held_by(code),
        m is ManualHeld ==> m.released(code) == m,
        m.released(code).released(code) == m.released(code),
{
}

/// Who asks for a free lock gets it; who asks while another waits for its fill makes that one give
/// way; and no other request to enter changes anything.
pub proof fn entry_requests_do_this(m: LockModel, code: Seq<char>, other: Seq<char>, asked: bool)
    requires
        code != other,
    ensures
        LockModel::Free.after_entry_request(code) == LockModel::Pending(code, false),
        LockModel::Pending(other, asked).after_entry_request(code) == LockModel::Pending(
            other,
            true,
        ),
        LockModel::Pending(code, asked).after_entry_request(code) == LockModel::Pending(
            code,
            asked,
        ),
        LockModel::Held(other).after_entry_request(code) == LockModel::Held(other),
        LockModel::Held(code).after_entry_request(code) == LockModel::Held(code),
        m is ManualHeld ==> m.after_entry_request(code) == m,
{
}

/// Whose entry is filled holds the lock, whoever had it, unless it is kept for a person.
pub proof fn fills_take_the_lock(m: LockModel, code: Seq<char>)
    ensures
        !(m is ManualHeld) ==> m.confirmed(code) == LockModel::Held(code),
        m is ManualHeld ==> m.confirmed(code) == m,
{
}

/// Giving up frees the lock for who held it or waited for a fill, and changes nothing else.
pub proof fn giving_up_frees_ones_own(m: LockModel, code: Seq<char>, other: Seq<char>, asked: bool)
    requires
        code != other,
    ensures
        LockModel::Held(code).released(code) == LockModel::Free,
        LockModel::Pending(code, asked).released(code) == LockModel::Free,
        LockModel::Held(other).released(code) == LockModel::Held(other),
        LockModel::Pending(other, asked).released(code) == LockModel::Pending(other, asked),
        m is ManualHeld || m is Free ==> m.released(code) == m,
{
}

/// A person gets the lock for a stock, unless another stock holds a position.
pub proof fn persons_get_the_lock(code: Seq<char>, other: Seq<char>, waiting: Seq<char>, asked: bool)
    requires
        code != other,
    ensures
        LockModel::Free.kept_for_manual(code) == LockModel::ManualHeld(code),
        LockModel::Pending(waiting, asked).kept_for_manual(code) == LockModel::ManualHeld(code),
        LockModel::Held(code).kept_for_manual(code) == LockModel::ManualHeld(code),
        LockModel::ManualHeld(code).kept_for_manual(code) == LockModel::ManualHeld(code),
        LockModel::Held(other).kept_for_manual(code) == LockModel::Held(other),
        LockModel::ManualHeld(other).kept_for_manual(code) == LockModel::ManualHeld(other),
{
}

} // verus!
