//! The live report monitor's decoder: normalizing raw HID reads to the
//! canonical 8-byte boot-keyboard report, and turning report changes into
//! press and release events. The polling loop itself does the reads and
//! hands every buffer here.

use vstd::prelude::*;

verus! {

/// The canonical form of a raw HID read, if it holds a boot-keyboard
/// report: a buffer shorter than 8 bytes holds none; a buffer of 9 or more
/// bytes whose layout shows a leading report-id byte (first and third byte
/// zero, yet the report is not blank) is taken from offset 1; anything
/// else is taken from offset 0.
pub open spec fn spec_normalized_report(data: Seq<u8>) -> Option<Seq<u8>> {
    if data.len() < 8 {
        None
    } else {
        let prefixed = data.len() >= 9 && data[0] == 0 && data[2] == 0 && (data[1] != 0
            || exists|i: int| 3 <= i < 9 && #[trigger] data[i] != 0);
        if prefixed {
            Some(data.subrange(1, 9))
        } else {
            Some(data.subrange(0, 8))
        }
    }
}

/// The key codes pressed in a report: the non-zero bytes of `s`, in order.
pub open spec fn spec_nonzero_keys(s: Seq<u8>) -> Seq<u8>
    decreases s.len(),
{
    if s.len() == 0 {
        Seq::<u8>::empty()
    } else {
        spec_nonzero_keys(s.drop_last()) + (if s.last() != 0 {
            seq![s.last()]
        } else {
            Seq::<u8>::empty()
        })
    }
}

/// Normalizes one raw HID read to the canonical 8-byte boot-keyboard
/// report, exactly as [`spec_normalized_report`] describes.
pub fn normalize_boot_keyboard_report(data: &[u8]) -> (r: Option<[u8; 8]>)
    ensures
        match r {
            Some(rep) => spec_normalized_report(data@) == Some(rep@),
            None => spec_normalized_report(data@) is None,
        },
{
    if data.len() < 8 {
        return None;
    }
    let mut tail_nonzero = false;
    if data.len() >= 9 {
        let mut i: usize = 3;
        while i < 9
            invariant
                3 <= i <= 9,
                data@.len() >= 9,
                tail_nonzero == exists|j: int| 3 <= j < i && #[trigger] data@[j] != 0,
            decreases 9 - i,
        {
            if data[i] != 0 {
                tail_nonzero = true;
            }
            i = i + 1;
        }
    }
    let prefixed = data.len() >= 9 && data[0] == 0 && data[2] == 0 && (data[1] != 0
        || tail_nonzero);
    let off: usize = if prefixed {
        1
    } else {
        0
    };
    let mut rep = [0u8; 8];
    let mut i: usize = 0;
    while i < 8
        invariant
            i <= 8,
            off <= 1,
            off + 8 <= data@.len(),
            forall|j: int| 0 <= j < i ==> rep@[j] == data@[off + j],
        decreases 8 - i,
    {
        rep[i] = data[off + i];
        i = i + 1;
    }
    proof {
        if prefixed {
            assert(rep@ =~= data@.subrange(1, 9));
        } else {
            assert(rep@ =~= data@.subrange(0, 8));
        }
    }
    Some(rep)
}

/// A decoded change of the boot-keyboard report.
pub enum PedalEvent {
    /// Some modifier or key is down: the modifier bitmask and the pressed
    /// key codes, in slot order.
    Press { modifiers: u8, keys: Vec<u8> },
    /// The report returned to all-zero.
    Release,
}

/// Whether a canonical report shows any modifier or key down.
pub open spec fn spec_report_active(rep: Seq<u8>) -> bool {
    rep[0] != 0 || spec_nonzero_keys(rep.subrange(2, 8)).len() != 0
}

/// The monitor's state between reads: the last report seen, initially
/// all-zero. Identical consecutive reports are suppressed.
pub struct MonitorState {
    pub last_report: [u8; 8],
}

/// What one feeding of raw data does to the monitor: no report or a
/// repeated report changes nothing; a changed report is remembered and
/// becomes a press event (with its modifiers and pressed keys) or, if
/// blank, a release event.
pub open spec fn on_data_post(
    pre: MonitorState,
    post: MonitorState,
    data: Seq<u8>,
    r: Option<PedalEvent>,
) -> bool {
    match spec_normalized_report(data) {
        None => post == pre && r is None,
        Some(rep) => if rep == pre.last_report@ {
            post == pre && r is None
        } else {
            post.last_report@ == rep && (if spec_report_active(rep) {
                match r {
                    Some(PedalEvent::Press { modifiers, keys }) => modifiers == rep[0] && keys@
                        == spec_nonzero_keys(rep.subrange(2, 8)),
                    _ => false,
                }
            } else {
                r matches Some(PedalEvent::Release)
            })
        },
    }
}

impl MonitorState {
    /// A fresh monitor that has seen only the blank report.
    pub fn new() -> (r: MonitorState)
        ensures
            r.last_report@ =~= seq![0u8, 0u8, 0u8, 0u8, 0u8, 0u8, 0u8, 0u8],
    {
        MonitorState { last_report: [0u8; 8] }
    }

    /// Feeds one raw read to the monitor. A buffer that holds no report or
    /// repeats the previous one yields nothing and changes nothing; a
    /// changed report is remembered and yields a press event with its
    /// modifiers and pressed keys, or a release event if it is blank.
    pub fn on_data(&mut self, data: &[u8]) -> (r: Option<PedalEvent>)
        ensures
            on_data_post(*old(self), *final(self), data@, r),
    {
        let rep = match normalize_boot_keyboard_report(data) {
            None => {
                return None;
            },
            Some(rep) => rep,
        };
        let mut same = true;
        let mut i: usize = 0;
        while i < 8
            invariant
                i <= 8,
                same == (forall|j: int| 0 <= j < i ==> rep@[j] == self.last_report@[j]),
            decreases 8 - i,
        {
            if rep[i] != self.last_report[i] {
                same = false;
            }
            i = i + 1;
        }
        if same {
            proof {
                assert(rep@ =~= self.last_report@);
            }
            return None;
        }
        proof {
            assert(rep@ != self.last_report@);
        }
        self.last_report = rep;
        let modifiers = rep[0];
        let mut keys: Vec<u8> = Vec::new();
        let mut i: usize = 2;
        while i < 8
            invariant
                2 <= i <= 8,
                keys@ == spec_nonzero_keys(rep@.subrange(2, i as int)),
            decreases 8 - i,
        {
            proof {
                assert(rep@.subrange(2, i + 1).drop_last() =~= rep@.subrange(2, i as int));
                assert(rep@.subrange(2, i + 1).last() == rep@[i as int]);
            }
            if rep[i] != 0 {
                keys.push(rep[i]);
            }
            i = i + 1;
        }
        if modifiers != 0 || keys.len() > 0 {
            Some(PedalEvent::Press { modifiers, keys })
        } else {
            Some(PedalEvent::Release)
        }
    }
}

} // verus!
