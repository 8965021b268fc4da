//! The programming session orchestrator: a state machine that sequences
//! the mode check, the interface lease, one macro-assignment command per
//! pedal with a liveness check after each, and the persistence command.
//! The USB work runs outside: the loop asks for the next command, issues
//! it through the transmitter, and reports each result and liveness check
//! back. Assignments live only in device RAM until persisted, so a
//! disconnection aborts the session and is reported as changes lost —
//! never as success.

use vstd::prelude::*;

use crate::protocol::{CMD_SAVE_TO_EEPROM, CMD_SET_KEY_MACRO};
use crate::locator::ScanOutcome;

verus! {

/// One pedal's intended assignment, by pedal position.
#[derive(Clone, Copy, PartialEq, Eq, Structural, Debug)]
pub struct PedalAssignment {
    pub pedal_index: u8,
    pub modifiers: u8,
    pub key_code: u8,
}

impl PedalAssignment {
    /// Validity: a real pedal position, and no modifier-only assignment on
    /// an empty key code — every action resolves to a concrete key.
    pub open spec fn wf(&self) -> bool {
        self.pedal_index <= 2 && (self.key_code == 0 ==> self.modifiers == 0)
    }
}

/// The advisory read-back verdict for one pedal.
#[derive(Clone, Copy, PartialEq, Eq, Structural, Debug)]
pub enum Verification {
    /// A read-back echoed the assignment.
    Verified,
    /// A read-back answered with different bytes.
    Mismatched,
    /// No read-back layout matched, or the firmware does not answer.
    Unsupported,
}

/// What happened to one pedal during the session.
#[derive(Clone, Copy, PartialEq, Eq, Structural, Debug)]
pub struct PedalOutcome {
    /// Whether the session reached this pedal's transfer at all.
    pub attempted: bool,
    /// Whether some wire format was accepted for this pedal.
    pub succeeded: bool,
    /// The index, in the hypothesis list, of the accepted format.
    pub hypothesis: Option<usize>,
    /// The advisory read-back verdict.
    pub verified: Verification,
}

/// The outcome a pedal starts the session with.
pub open spec fn spec_blank_outcome() -> PedalOutcome {
    PedalOutcome { attempted: false, succeeded: false, hypothesis: None, verified: Verification::Unsupported }
}

/// Why a session aborted.
#[derive(Clone, Copy, PartialEq, Eq, Structural, Debug)]
pub enum AbortReason {
    /// No device of this vendor appeared at all.
    DeviceNotFound,
    /// Only a play-mode device appeared: show the mode-switch guidance and
    /// attempt no transfer.
    WrongMode,
    /// Detaching the kernel driver or claiming the interface failed.
    PermissionDenied,
    /// The device left the bus mid-session; unsaved changes are lost.
    Disconnected,
}

/// Where the session stands.
#[derive(Clone, Copy, PartialEq, Eq, Structural, Debug)]
pub enum SessionPhase {
    /// Nothing has happened yet.
    Idle,
    /// A programming-mode device was found.
    ModeChecked,
    /// The interface is exclusively held.
    InterfaceLeased,
    /// The pedal at this position is to be programmed next.
    Programming { pedal: u8 },
    /// All pedals done; the save-to-EEPROM command is to be issued.
    Persisting,
    /// The session ran to its end (the save command was issued, whatever
    /// it returned).
    Done,
    /// The session stopped early; see the abort reason.
    Aborted,
}

/// The terminal report: three independent axes, never collapsed into one
/// flag, plus the per-pedal outcomes gathered before any abort.
#[derive(Debug)]
pub struct SessionReport {
    pub all_pedals_ok: bool,
    pub eeprom_save_ok: bool,
    pub disconnected_mid_session: bool,
    pub abort: Option<AbortReason>,
    pub outcomes: Vec<PedalOutcome>,
}

/// A programming session over exactly three pedal assignments.
pub struct Session {
    pub assignments: Vec<PedalAssignment>,
    pub phase: SessionPhase,
    pub outcomes: Vec<PedalOutcome>,
    pub save_attempted: bool,
    pub save_ok: bool,
    pub disconnected: bool,
    pub abort: Option<AbortReason>,
}

impl Session {
    /// Validity: three assignments in pedal order, each well-formed, one
    /// outcome slot per pedal, any programming position in range — and the
    /// disconnection guarantee: a session that saw the device vanish is
    /// aborted and never issued the save command, so a disconnection is
    /// never reported as a persisted success.
    pub open spec fn wf(&self) -> bool {
        &&& self.assignments@.len() == 3
        &&& self.outcomes@.len() == 3
        &&& forall|i: int|
            0 <= i < 3 ==> (#[trigger] self.assignments@[i]).wf() && self.assignments@[i].pedal_index
                == i
        &&& (self.phase matches SessionPhase::Programming { pedal } ==> pedal <= 2)
        &&& (self.save_attempted ==> self.phase == SessionPhase::Done)
        &&& (self.save_ok ==> self.save_attempted)
        &&& (self.disconnected ==> self.phase == SessionPhase::Aborted && !self.save_attempted
            && !self.save_ok)
    }

    /// A fresh session over three assignments, one per pedal in order.
    pub fn new(assignments: Vec<PedalAssignment>) -> (r: Session)
        requires
            assignments@.len() == 3,
            forall|i: int|
                0 <= i < 3 ==> (#[trigger] assignments@[i]).wf() && assignments@[i].pedal_index
                    == i,
        ensures
            r.wf(),
            r.assignments@ == assignments@,
            r.phase == SessionPhase::Idle,
            r.outcomes@ =~= seq![spec_blank_outcome(), spec_blank_outcome(), spec_blank_outcome()],
            !r.save_attempted && !r.save_ok && !r.disconnected,
            r.abort is None,
    {
        let mut outcomes: Vec<PedalOutcome> = Vec::new();
        let blank = PedalOutcome {
            attempted: false,
            succeeded: false,
            hypothesis: None,
            verified: Verification::Unsupported,
        };
        outcomes.push(blank);
        outcomes.push(blank);
        outcomes.push(blank);
        Session {
            assignments,
            phase: SessionPhase::Idle,
            outcomes,
            save_attempted: false,
            save_ok: false,
            disconnected: false,
            abort: None,
        }
    }

    /// Feeds the mode check: a programming-mode device lets the session
    /// proceed; a play-only scan aborts with the wrong-mode guidance and
    /// no transfer is ever attempted; an empty scan aborts as not found.
    pub fn on_mode_check(&mut self, scan: ScanOutcome)
        requires
            old(self).wf(),
            old(self).phase == SessionPhase::Idle,
        ensures
            final(self).wf(),
            *final(self) == (match scan {
                ScanOutcome::ProgramFound => Session {
                    phase: SessionPhase::ModeChecked,
                    ..*old(self)
                },
                ScanOutcome::PlayOnly => Session {
                    phase: SessionPhase::Aborted,
                    abort: Some(AbortReason::WrongMode),
                    ..*old(self)
                },
                ScanOutcome::NotFound => Session {
                    phase: SessionPhase::Aborted,
                    abort: Some(AbortReason::DeviceNotFound),
                    ..*old(self)
                },
            }),
    {
        match scan {
            ScanOutcome::ProgramFound => {
                self.phase = SessionPhase::ModeChecked;
            },
            ScanOutcome::PlayOnly => {
                self.phase = SessionPhase::Aborted;
                self.abort = Some(AbortReason::WrongMode);
            },
            ScanOutcome::NotFound => {
                self.phase = SessionPhase::Aborted;
                self.abort = Some(AbortReason::DeviceNotFound);
            },
        }
    }

    /// Feeds the lease acquisition's outcome: a failure to detach or claim
    /// is a permissions problem and aborts the session.
    pub fn on_lease(&mut self, ok: bool)
        requires
            old(self).wf(),
            old(self).phase == SessionPhase::ModeChecked,
        ensures
            final(self).wf(),
            *final(self) == (if ok {
                Session { phase: SessionPhase::InterfaceLeased, ..*old(self) }
            } else {
                Session {
                    phase: SessionPhase::Aborted,
                    abort: Some(AbortReason::PermissionDenied),
                    ..*old(self)
                }
            }),
    {
        if ok {
            self.phase = SessionPhase::InterfaceLeased;
        } else {
            self.phase = SessionPhase::Aborted;
            self.abort = Some(AbortReason::PermissionDenied);
        }
    }

    /// Begins programming at the first pedal.
    pub fn start_programming(&mut self)
        requires
            old(self).wf(),
            old(self).phase == SessionPhase::InterfaceLeased,
        ensures
            final(self).wf(),
            *final(self) == (Session {
                phase: SessionPhase::Programming { pedal: 0 },
                ..*old(self)
            }),
    {
        self.phase = SessionPhase::Programming { pedal: 0 };
    }

    /// The next logical command to put through the transmitter: one
    /// macro-assignment per pedal ({pedal, modifiers, key} after the
    /// opcode), then the save-to-EEPROM command with an empty payload.
    /// In every other phase — in particular after an abort — there is no
    /// command: an aborted session never reaches the save transfer.
    pub fn next_command(&self) -> (r: Option<(u8, Vec<u8>)>)
        requires
            self.wf(),
        ensures
            match self.phase {
                SessionPhase::Programming { pedal } => r matches Some((op, payload)) && op
                    == CMD_SET_KEY_MACRO && payload@ =~= seq![
                    self.assignments@[pedal as int].pedal_index,
                    self.assignments@[pedal as int].modifiers,
                    self.assignments@[pedal as int].key_code,
                ],
                SessionPhase::Persisting => r matches Some((op, payload)) && op
                    == CMD_SAVE_TO_EEPROM && payload@ =~= Seq::<u8>::empty(),
                _ => r is None,
            },
    {
        match self.phase {
            SessionPhase::Programming { pedal } => {
                let a = &self.assignments[pedal as usize];
                let mut payload: Vec<u8> = Vec::new();
                payload.push(a.pedal_index);
                payload.push(a.modifiers);
                payload.push(a.key_code);
                Some((CMD_SET_KEY_MACRO, payload))
            },
            SessionPhase::Persisting => Some((CMD_SAVE_TO_EEPROM, Vec::new())),
            _ => None,
        }
    }

    /// Feeds one pedal's transfer outcome, its advisory read-back verdict,
    /// and the liveness check made after the transfer. The pedal's outcome
    /// is recorded either way; a vanished device aborts the session at
    /// once (the changes were RAM-only and are lost), otherwise the
    /// session moves to the next pedal, or to persisting after the last —
    /// the passed liveness check doubling as the one required immediately
    /// before the save.
    pub fn on_pedal_result(
        &mut self,
        accepted: Option<usize>,
        verified: Verification,
        still_connected: bool,
    )
        requires
            old(self).wf(),
            old(self).phase matches SessionPhase::Programming { pedal },
        ensures
            final(self).wf(),
            old(self).phase matches SessionPhase::Programming { pedal } ==> {
                &&& final(self).outcomes@ == old(self).outcomes@.update(
                    pedal as int,
                    PedalOutcome {
                        attempted: true,
                        succeeded: accepted is Some,
                        hypothesis: accepted,
                        verified,
                    },
                )
                &&& final(self).phase == (if !still_connected {
                    SessionPhase::Aborted
                } else if pedal < 2 {
                    SessionPhase::Programming { pedal: (pedal + 1) as u8 }
                } else {
                    SessionPhase::Persisting
                })
                &&& final(self).disconnected == (old(self).disconnected || !still_connected)
                &&& final(self).abort == (if !still_connected {
                    Some(AbortReason::Disconnected)
                } else {
                    old(self).abort
                })
                &&& final(self).assignments@ == old(self).assignments@
                &&& final(self).save_attempted == old(self).save_attempted
                &&& final(self).save_ok == old(self).save_ok
            },
    {
        let pedal = match self.phase {
            SessionPhase::Programming { pedal } => pedal,
            _ => 0,
        };
        let succeeded = accepted.is_some();
        self.outcomes[pedal as usize] = PedalOutcome {
            attempted: true,
            succeeded,
            hypothesis: accepted,
            verified,
        };
        if !still_connected {
            self.phase = SessionPhase::Aborted;
            self.disconnected = true;
            self.abort = Some(AbortReason::Disconnected);
        } else if pedal < 2 {
            self.phase = SessionPhase::Programming { pedal: pedal + 1 };
        } else {
            self.phase = SessionPhase::Persisting;
        }
    }

    /// Feeds the save command's outcome; the session then ran to its end.
    /// A failed save does not abort anything — it is reported as its own
    /// axis of the terminal report.
    pub fn on_save_result(&mut self, accepted: Option<usize>)
        requires
            old(self).wf(),
            old(self).phase == SessionPhase::Persisting,
        ensures
            final(self).wf(),
            *final(self) == (Session {
                phase: SessionPhase::Done,
                save_attempted: true,
                save_ok: accepted is Some,
                ..*old(self)
            }),
    {
        self.save_attempted = true;
        self.save_ok = accepted.is_some();
        self.phase = SessionPhase::Done;
    }

    /// The terminal report: whether every pedal's transfer was accepted,
    /// whether the EEPROM save was accepted, and whether the device
    /// disconnected mid-session — three independent axes — plus the
    /// per-pedal outcomes gathered so far.
    pub fn report(&self) -> (r: SessionReport)
        requires
            self.wf(),
            self.phase == SessionPhase::Done || self.phase == SessionPhase::Aborted,
        ensures
            r.all_pedals_ok == (forall|i: int| 0 <= i < 3 ==> (#[trigger] self.outcomes@[i]).succeeded),
            r.eeprom_save_ok == self.save_ok,
            r.disconnected_mid_session == self.disconnected,
            r.abort == self.abort,
            r.outcomes@ == self.outcomes@,
    {
        let mut all_ok = true;
        let mut i: usize = 0;
        while i < 3
            invariant
                i <= 3,
                self.outcomes@.len() == 3,
                all_ok == (forall|j: int| 0 <= j < i ==> (#[trigger] self.outcomes@[j]).succeeded),
            decreases 3 - i,
        {
            if !self.outcomes[i].succeeded {
                all_ok = false;
            }
            i = i + 1;
        }
        SessionReport {
            all_pedals_ok: all_ok,
            eeprom_save_ok: self.save_ok,
            disconnected_mid_session: self.disconnected,
            abort: self.abort,
            outcomes: self.outcomes.clone(),
        }
    }
}

} // verus!
