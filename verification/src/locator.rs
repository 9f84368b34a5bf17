//! The device locator: find an input-event node that supports rumble.
//!
//! Given an explicit device path the locator only opens that path and never
//! scans. Otherwise it walks the input-device directory's `event<N>` nodes
//! in enumeration order, probing each — open it, query its force-feedback
//! capability bitmask — and accepts the first node whose bitmask has the
//! rumble bit set. A candidate that cannot be opened or queried is skipped;
//! only when no candidate qualifies does the scan fail.
//!
//! As with the controller, the locator is a state machine: the unverified
//! driver loop performs each returned [`LocateAction`] (the opens, the
//! directory listing, the capability ioctl) and reports what happened; every
//! decision is made here.

use vstd::prelude::*;

use crate::effect::FF_RUMBLE;

verus! {

/// Why no device handle was produced.
#[derive(Clone, Copy, Debug, PartialEq, Eq)]
pub enum LocateError {
    /// The explicit path could not be opened; the OS error says why.
    OpenFailed { os_error: i32 },
    /// No scanned candidate advertised rumble support, or the directory
    /// could not be read.
    DeviceNotFound,
}

/// What probing one candidate node yielded.
#[derive(Debug, PartialEq, Eq)]
pub enum CandidateOutcome {
    /// The node could not be opened for writing.
    OpenFailed,
    /// The capability query ioctl failed.
    QueryFailed,
    /// The force-feedback capability bitmask, one bit per feature code.
    Bits { words: Vec<u64> },
}

/// Which handle the locator settled on.
#[derive(Clone, Copy, Debug, PartialEq, Eq)]
pub enum Located {
    /// The explicitly given path, now open.
    Explicit,
    /// The candidate probed under this index, still open from its probe.
    ScannedCandidate { index: usize },
}

/// What the driver loop must do next.
#[derive(Clone, Copy, Debug, PartialEq, Eq)]
pub enum LocateAction {
    /// Open the explicit device path for writing.
    OpenExplicitPath,
    /// List the input-device directory and keep the `event<N>` entries, in
    /// enumeration order.
    ListDirectory,
    /// Open the candidate with this index and query its capability bitmask.
    ProbeCandidate { index: usize },
    /// Location is over, with this result.
    Finish { result: Result<Located, LocateError> },
}

/// What the directory listing yielded.
#[derive(Clone, Copy, Debug, PartialEq, Eq)]
pub enum DirectoryEvent {
    /// The directory could not be read.
    Unreadable,
    /// It held this many `event<N>` candidates.
    Listed { candidates: usize },
}

/// Where the locator stands.
#[derive(Clone, Copy, Debug, PartialEq, Eq)]
pub enum LocatePhase {
    /// Nothing has been asked for yet.
    Start,
    /// The explicit path is being opened.
    AwaitExplicitOpen,
    /// The input-device directory is being listed.
    AwaitDirectory,
    /// Candidate `next` of `total` is being probed.
    Probing { next: usize, total: usize },
    /// Location is over.
    Done { result: Result<Located, LocateError> },
}

/// One device search, explicit or scanning.
pub struct Locator {
    /// Whether an explicit device path was supplied.
    pub explicit: bool,
    pub phase: LocatePhase,
    /// The outcomes of the candidates probed and rejected so far.
    pub probed: Ghost<Seq<CandidateOutcome>>,
}

/// Whether the rumble feature bit is set in a capability bitmask of 64-bit
/// words, bit `k` living at bit `k % 64` of word `k / 64`.
pub open spec fn spec_has_rumble(words: Seq<u64>) -> bool {
    &&& FF_RUMBLE as int / 64 < words.len()
    &&& (words[FF_RUMBLE as int / 64] >> (FF_RUMBLE as u64 % 64)) & 1 == 1
}

/// Test the rumble feature bit of a capability bitmask. A bitmask too short
/// to hold the bit does not advertise rumble.
pub fn has_rumble_bit(words: &Vec<u64>) -> (r: bool)
    ensures
        r == spec_has_rumble(words@),
{
    let word: usize = FF_RUMBLE as usize / 64;
    let bit: u64 = FF_RUMBLE as u64 % 64;
    if word < words.len() {
        (words[word] >> bit) & 1 == 1
    } else {
        false
    }
}

/// Whether a probed candidate advertised rumble support; one that failed to
/// open or to answer the query did not.
pub open spec fn spec_candidate_has_rumble(outcome: CandidateOutcome) -> bool {
    outcome matches CandidateOutcome::Bits { words } && spec_has_rumble(words@)
}

/// Whether a probed candidate advertised rumble support.
pub fn candidate_has_rumble(outcome: &CandidateOutcome) -> (r: bool)
    ensures
        r == spec_candidate_has_rumble(*outcome),
{
    match outcome {
        CandidateOutcome::Bits { words } => has_rumble_bit(words),
        _ => false,
    }
}

/// Whether a directory entry's name follows the `event<N>` convention:
/// the bytes `event` followed by one or more decimal digits.
pub open spec fn spec_is_event_node_name(name: Seq<u8>) -> bool {
    &&& name.len() > 5
    &&& name[0] == 101u8
    &&& name[1] == 118u8
    &&& name[2] == 101u8
    &&& name[3] == 110u8
    &&& name[4] == 116u8
    &&& forall|i: int| 5 <= i < name.len() ==> 48u8 <= #[trigger] name[i] <= 57u8
}

/// Test whether a directory entry's name (as bytes) follows the `event<N>`
/// convention.
pub fn is_event_node_name(name: &[u8]) -> (r: bool)
    ensures
        r == spec_is_event_node_name(name@),
{
    if name.len() < 6 {
        return false;
    }
    if name[0] != 101u8 || name[1] != 118u8 || name[2] != 101u8 || name[3] != 110u8 || name[4] != 116u8 {
        return false;
    }
    let mut i: usize = 5;
    while i < name.len()
        invariant
            5 <= i <= name@.len(),
            forall|j: int| 5 <= j < i ==> 48u8 <= #[trigger] name@[j] <= 57u8,
        decreases name@.len() - i,
    {
        let c = name[i];
        if c < 48u8 || c > 57u8 {
            return false;
        }
        i = i + 1;
    }
    true
}

impl Locator {
    /// An explicit search never scans; a scanning search has probed, and
    /// rejected, exactly the candidates before the one it stands at.
    pub open spec fn wf(self) -> bool {
        &&& self.explicit ==> (self.phase is Start || self.phase is AwaitExplicitOpen
            || self.phase is Done)
        &&& !self.explicit ==> !(self.phase is AwaitExplicitOpen)
        &&& !(self.phase is Probing) && !(self.phase is Done) ==> self.probed@.len() == 0
        &&& self.phase matches LocatePhase::Probing { next, total } ==> {
            &&& next < total
            &&& self.probed@.len() == next
            &&& forall|j: int|
                0 <= j < next ==> !spec_candidate_has_rumble(#[trigger] self.probed@[j])
        }
    }

    /// Make a locator; `explicit` says whether an explicit device path was
    /// supplied.
    pub fn new(explicit: bool) -> (l: Locator)
        ensures
            l.explicit == explicit,
            l.phase is Start,
            l.probed@ == Seq::<CandidateOutcome>::empty(),
            l.wf(),
    {
        Locator { explicit, phase: LocatePhase::Start, probed: Ghost(Seq::empty()) }
    }

    /// Begin the search: open the explicit path, or list the directory.
    pub fn start(&mut self) -> (a: LocateAction)
        requires
            old(self).wf(),
            old(self).phase is Start,
        ensures
            (*final(self), a) == spec_locate_start(*old(self)),
            final(self).wf(),
    {
        if self.explicit {
            self.phase = LocatePhase::AwaitExplicitOpen;
            LocateAction::OpenExplicitPath
        } else {
            self.phase = LocatePhase::AwaitDirectory;
            LocateAction::ListDirectory
        }
    }

    /// Decide what follows the explicit open: the search is over either
    /// way, successfully if the open succeeded. No scan happens.
    pub fn on_explicit_open(&mut self, opened: bool, os_error: i32) -> (a: LocateAction)
        requires
            old(self).wf(),
            old(self).phase is AwaitExplicitOpen,
        ensures
            (*final(self), a) == spec_on_explicit_open(*old(self), opened, os_error),
            final(self).wf(),
    {
        let result = if opened {
            Ok(Located::Explicit)
        } else {
            Err(LocateError::OpenFailed { os_error })
        };
        self.phase = LocatePhase::Done { result };
        LocateAction::Finish { result }
    }

    /// Decide what follows the directory listing: probe the first candidate,
    /// or fail with `DeviceNotFound` when the directory was unreadable or
    /// held no candidate.
    pub fn on_directory(&mut self, ev: DirectoryEvent) -> (a: LocateAction)
        requires
            old(self).wf(),
            old(self).phase is AwaitDirectory,
        ensures
            (*final(self), a) == spec_on_directory(*old(self), ev),
            final(self).wf(),
    {
        match ev {
            DirectoryEvent::Unreadable => {
                let result = Err(LocateError::DeviceNotFound);
                self.phase = LocatePhase::Done { result };
                LocateAction::Finish { result }
            },
            DirectoryEvent::Listed { candidates } => {
                if candidates == 0 {
                    let result = Err(LocateError::DeviceNotFound);
                    self.phase = LocatePhase::Done { result };
                    LocateAction::Finish { result }
                } else {
                    self.phase = LocatePhase::Probing { next: 0, total: candidates };
                    LocateAction::ProbeCandidate { index: 0 }
                }
            },
        }
    }

    /// Decide what follows one candidate's probe: accept the candidate if
    /// its bitmask has the rumble bit — first match wins, no further
    /// candidate is probed — otherwise move to the next candidate, or fail
    /// with `DeviceNotFound` after the last.
    pub fn on_probe(&mut self, outcome: CandidateOutcome) -> (a: LocateAction)
        requires
            old(self).wf(),
            old(self).phase is Probing,
        ensures
            (*final(self), a) == spec_on_probe(*old(self), outcome),
            final(self).wf(),
    {
        let (next, total) = match self.phase {
            LocatePhase::Probing { next, total } => (next, total),
            _ => vstd::pervasive::unreached(),
        };
        if candidate_has_rumble(&outcome) {
            let result = Ok(Located::ScannedCandidate { index: next });
            self.phase = LocatePhase::Done { result };
            LocateAction::Finish { result }
        } else {
            self.probed = Ghost(self.probed@.push(outcome));
            if next + 1 < total {
                self.phase = LocatePhase::Probing { next: next + 1, total };
                LocateAction::ProbeCandidate { index: next + 1 }
            } else {
                let result = Err(LocateError::DeviceNotFound);
                self.phase = LocatePhase::Done { result };
                LocateAction::Finish { result }
            }
        }
    }
}

/// Transition out of `Start`: explicit searches open, scans list.
pub open spec fn spec_locate_start(l: Locator) -> (Locator, LocateAction) {
    if l.explicit {
        (Locator { phase: LocatePhase::AwaitExplicitOpen, ..l }, LocateAction::OpenExplicitPath)
    } else {
        (Locator { phase: LocatePhase::AwaitDirectory, ..l }, LocateAction::ListDirectory)
    }
}

/// Transition out of `AwaitExplicitOpen`, as [`Locator::on_explicit_open`]
/// describes.
pub open spec fn spec_on_explicit_open(l: Locator, opened: bool, os_error: i32) -> (
    Locator,
    LocateAction,
) {
    let result = if opened {
        Ok::<Located, LocateError>(Located::Explicit)
    } else {
        Err::<Located, LocateError>(LocateError::OpenFailed { os_error })
    };
    (Locator { phase: LocatePhase::Done { result }, ..l }, LocateAction::Finish { result })
}

/// Transition out of `AwaitDirectory`, as [`Locator::on_directory`]
/// describes.
pub open spec fn spec_on_directory(l: Locator, ev: DirectoryEvent) -> (Locator, LocateAction) {
    match ev {
        DirectoryEvent::Unreadable => spec_locate_fail(l),
        DirectoryEvent::Listed { candidates } => if candidates == 0 {
            spec_locate_fail(l)
        } else {
            (
                Locator { phase: LocatePhase::Probing { next: 0, total: candidates }, ..l },
                LocateAction::ProbeCandidate { index: 0 },
            )
        },
    }
}

/// Transition out of `Probing`, as [`Locator::on_probe`] describes.
pub open spec fn spec_on_probe(l: Locator, outcome: CandidateOutcome) -> (Locator, LocateAction) {
    let next = l.phase->Probing_next;
    let total = l.phase->Probing_total;
    if spec_candidate_has_rumble(outcome) {
        let result = Ok::<Located, LocateError>(Located::ScannedCandidate { index: next });
        (Locator { phase: LocatePhase::Done { result }, ..l }, LocateAction::Finish { result })
    } else {
        let l2 = Locator { probed: Ghost(l.probed@.push(outcome)), ..l };
        if next + 1 < total {
            (
                Locator {
                    phase: LocatePhase::Probing { next: (next + 1) as usize, total },
                    ..l2
                },
                LocateAction::ProbeCandidate { index: (next + 1) as usize },
            )
        } else {
            spec_locate_fail(l2)
        }
    }
}

/// Transition into a failed `Done` with `DeviceNotFound`.
pub open spec fn spec_locate_fail(l: Locator) -> (Locator, LocateAction) {
    let result = Err::<Located, LocateError>(LocateError::DeviceNotFound);
    (Locator { phase: LocatePhase::Done { result }, ..l }, LocateAction::Finish { result })
}

/// With an explicit device path the locator never scans the input
/// directory, even when the explicit path fails to open: a well-formed
/// explicit search is never in a listing or probing phase, and each of its
/// steps emits only an open or a finish — never a directory listing or a
/// candidate probe — while staying explicit and well-formed. No sequence of
/// events can therefore bring an explicit search to a scan.
pub proof fn lemma_explicit_path_never_scans(l: Locator, opened: bool, os_error: i32)
    requires
        l.wf(),
        l.explicit,
    ensures
        !(l.phase is AwaitDirectory),
        !(l.phase is Probing),
        l.phase is Start ==> spec_locate_start(l).1 is OpenExplicitPath,
        l.phase is Start ==> spec_locate_start(l).0.wf() && spec_locate_start(l).0.explicit,
        l.phase is AwaitExplicitOpen ==> spec_on_explicit_open(l, opened, os_error).1 is Finish,
        l.phase is AwaitExplicitOpen ==> spec_on_explicit_open(l, opened, os_error).0.wf()
            && spec_on_explicit_open(l, opened, os_error).0.explicit,
{
}

/// First match wins: when a probe reports a candidate whose bitmask has the
/// rumble bit, the scan finishes at once with that candidate's index, and
/// every candidate probed before it — including any that failed to open or
/// to answer the capability query — lacked the bit.
pub proof fn lemma_first_rumble_candidate_wins(l: Locator, outcome: CandidateOutcome)
    requires
        l.wf(),
        l.phase is Probing,
        spec_candidate_has_rumble(outcome),
    ensures
        ({
            let (l2, a) = spec_on_probe(l, outcome);
            let index = l.phase->Probing_next;
            &&& l2.phase == (LocatePhase::Done {
                result: Ok::<Located, LocateError>(Located::ScannedCandidate { index }),
            })
            &&& a == (LocateAction::Finish {
                result: Ok::<Located, LocateError>(Located::ScannedCandidate { index }),
            })
            &&& l.probed@.len() == index
            &&& forall|j: int|
                0 <= j < l.probed@.len() ==> !spec_candidate_has_rumble(#[trigger] l.probed@[j])
        }),
{
}

/// A candidate without the rumble bit — or one that failed to open or to
/// answer the query — is recorded as rejected and the scan moves on to the
/// next candidate, failing with `DeviceNotFound` only after the last.
pub proof fn lemma_rejected_candidate_is_skipped(l: Locator, outcome: CandidateOutcome)
    requires
        l.wf(),
        l.phase is Probing,
        !spec_candidate_has_rumble(outcome),
    ensures
        ({
            let (l2, a) = spec_on_probe(l, outcome);
            let next = l.phase->Probing_next;
            let total = l.phase->Probing_total;
            &&& l2.probed@ == l.probed@.push(outcome)
            &&& next + 1 < total ==> l2.phase == (LocatePhase::Probing {
                next: (next + 1) as usize,
                total,
            }) && a == (LocateAction::ProbeCandidate { index: (next + 1) as usize })
            &&& next + 1 >= total ==> l2.phase == (LocatePhase::Done {
                result: Err::<Located, LocateError>(LocateError::DeviceNotFound),
            }) && a == (LocateAction::Finish {
                result: Err::<Located, LocateError>(LocateError::DeviceNotFound),
            })
        }),
{
}

} // verus!
