//! The per-file retry/failover controller. One file's download is a state
//! machine: probe a size, short-circuit on an already-valid local file, then
//! try each mirror in order with a bounded retry budget, verify the
//! completed transfer (hash, and size where one was discovered), and finish
//! with success, exhaustion of every mirror, or cancellation.
//!
//! The machine only decides; the caller performs each returned [`Action`]
//! (a network probe, a transfer attempt, a file verification) and feeds the
//! result back as an [`Event`] together with the current value of the
//! shared cancellation flag.

use vstd::prelude::*;
use crate::transfer::TransferError;
use crate::MAX_RETRIES;

verus! {

/// How a file's download ended.
#[derive(Debug, Clone, Copy, PartialEq, Eq)]
pub enum FileOutcome {
    /// The file is on disk and satisfied its integrity expectations.
    Success,
    /// Every mirror was exhausted without a verified transfer.
    AllMirrorsFailed,
    /// The shared stop flag ended the download early.
    Cancelled,
}

/// What the driver must do next.
#[derive(Debug, Clone, Copy, PartialEq, Eq)]
pub enum ActionKind {
    /// Probe every mirror in order for the file's size; answer with the
    /// first content length found, if any.
    ProbeSize,
    /// Check the local file against the expected hash and this size.
    CheckLocal { expected_size: u64 },
    /// Probe this one mirror for reachability and its own size report.
    ProbeMirror { mirror: u64 },
    /// Run one resumable transfer attempt against this mirror.
    Transfer { mirror: u64 },
    /// Verify the completed file: hash it and, when a size is known,
    /// check the on-disk size against it too.
    VerifyFile { expected_size: Option<u64> },
    /// The file is done; report this outcome.
    Finish { outcome: FileOutcome },
}

/// One instruction to the driver. When `delete_partial` is set the partial
/// file must be deleted before (or instead of) performing the action; when
/// `add_expected` carries a size, that newly discovered size must be added
/// to the shared expected-bytes total (it is set at most once per file,
/// however late in the mirror loop the size turns up).
#[derive(Debug, Clone, Copy, PartialEq, Eq)]
pub struct Action {
    /// Delete the partial file first.
    pub delete_partial: bool,
    /// A newly discovered file size to add to the progress total.
    pub add_expected: Option<u64>,
    /// The work itself.
    pub kind: ActionKind,
}

/// Where the machine stands; each waiting phase names the event it expects.
#[derive(Debug, Clone, Copy, PartialEq, Eq)]
pub enum Phase {
    /// Waiting for the global size probe.
    GlobalProbe,
    /// Waiting for the pre-mirror local file check.
    GlobalPreCheck,
    /// Waiting for the current mirror's metadata probe.
    MirrorProbe,
    /// Waiting for the per-mirror local file check.
    MirrorPreCheck,
    /// Waiting for a transfer attempt to end.
    Transferring,
    /// Waiting for the verification of the completed file.
    Verifying,
    /// Terminal.
    Finished,
}

/// The driver's answer to the pending action.
#[derive(Debug, Clone, Copy, PartialEq, Eq)]
pub enum Event {
    /// The global probe's result: the first content length any mirror
    /// reported, or nothing.
    GlobalSize { size: Option<u64> },
    /// Whether the local file passed the integrity check (answers both a
    /// pre-check and the post-transfer verification).
    LocalValid { valid: bool },
    /// The per-mirror probe's result.
    MirrorProbed { reachable: bool, size: Option<u64> },
    /// How the transfer attempt ended.
    TransferFinished { result: Result<(), TransferError> },
}

/// The controller's state for one file.
#[derive(Debug, Clone, Copy, PartialEq, Eq)]
pub struct Controller {
    /// How many mirrors the configuration lists.
    pub num_mirrors: u64,
    /// Whether the manifest gives an expected hash for this file.
    pub has_hash: bool,
    /// Where the machine stands.
    pub phase: Phase,
    /// The mirror currently being tried.
    pub mirror: u64,
    /// Transfer attempts still allowed against the current mirror.
    pub retries_left: u64,
    /// The size learned by the global probe, if any.
    pub global_size: u64,
    /// Whether `global_size` is meaningful.
    pub global_size_known: bool,
    /// The effective expected size for the current mirror, if any.
    pub mirror_size: u64,
    /// Whether `mirror_size` is meaningful.
    pub mirror_size_known: bool,
    /// Whether this file's size was already added to the progress total.
    pub size_recorded: bool,
    /// The outcome, once finished.
    pub outcome: Option<FileOutcome>,
}

impl Controller {
    /// The structural invariant the machine maintains.
    pub open spec fn wf(&self) -> bool {
        &&& ((self.phase is MirrorProbe || self.phase is MirrorPreCheck || self.phase
            is Transferring || self.phase is Verifying) ==> self.mirror < self.num_mirrors)
        &&& (self.phase is Transferring ==> 1 <= self.retries_left <= MAX_RETRIES)
        &&& (self.phase is Finished <==> self.outcome is Some)
    }
}

/// The machine enters the terminal phase and reports `o`.
pub open spec fn finish_spec(c: Controller, o: FileOutcome, delete: bool) -> (Controller, Action) {
    (
        Controller { phase: Phase::Finished, outcome: Option::Some(o), ..c },
        Action {
            delete_partial: delete,
            add_expected: Option::None,
            kind: ActionKind::Finish { outcome: o },
        },
    )
}

/// The machine turns to mirror `i`: cancellation is honoured first, a
/// mirror list run past its end means every mirror failed, and otherwise
/// mirror `i` is probed with a fresh (not yet granted) retry budget.
pub open spec fn start_mirror_spec(c: Controller, i: u64, cancelled: bool, delete: bool) -> (
    Controller,
    Action,
) {
    if cancelled {
        finish_spec(c, FileOutcome::Cancelled, delete)
    } else if i >= c.num_mirrors {
        finish_spec(c, FileOutcome::AllMirrorsFailed, delete)
    } else {
        (
            Controller {
                phase: Phase::MirrorProbe,
                mirror: i,
                retries_left: 0,
                mirror_size: 0,
                mirror_size_known: false,
                ..c
            },
            Action {
                delete_partial: delete,
                add_expected: Option::None,
                kind: ActionKind::ProbeMirror { mirror: i },
            },
        )
    }
}

/// The machine grants the full retry budget and asks for an attempt
/// against the current mirror.
pub open spec fn begin_transfer_spec(c: Controller, delete: bool) -> (Controller, Action) {
    (
        Controller { phase: Phase::Transferring, retries_left: MAX_RETRIES, ..c },
        Action {
            delete_partial: delete,
            add_expected: Option::None,
            kind: ActionKind::Transfer { mirror: c.mirror },
        },
    )
}

/// Whether `ev` answers the action that `phase` is waiting for.
pub open spec fn event_fits(phase: Phase, ev: Event) -> bool {
    match (phase, ev) {
        (Phase::GlobalProbe, Event::GlobalSize { .. }) => true,
        (Phase::GlobalPreCheck, Event::LocalValid { .. }) => true,
        (Phase::MirrorProbe, Event::MirrorProbed { .. }) => true,
        (Phase::MirrorPreCheck, Event::LocalValid { .. }) => true,
        (Phase::Transferring, Event::TransferFinished { .. }) => true,
        (Phase::Verifying, Event::LocalValid { .. }) => true,
        _ => false,
    }
}

/// The transition relation: the next state and the next instruction, given
/// the pending event and the sampled value of the cancellation flag.
pub open spec fn next_spec(c: Controller, cancelled: bool, ev: Event) -> (Controller, Action) {
    match (c.phase, ev) {
        (Phase::GlobalProbe, Event::GlobalSize { size }) => {
            let c1 = Controller {
                global_size: (match size {
                    Option::Some(s) => s,
                    Option::None => 0u64,
                }),
                global_size_known: size is Some,
                size_recorded: size is Some,
                ..c
            };
            if c.has_hash && size is Some {
                (
                    Controller { phase: Phase::GlobalPreCheck, ..c1 },
                    Action {
                        delete_partial: false,
                        add_expected: size,
                        kind: ActionKind::CheckLocal { expected_size: size->0 },
                    },
                )
            } else {
                let next = start_mirror_spec(c1, 0, cancelled, false);
                (next.0, Action { add_expected: size, ..next.1 })
            }
        },
        (Phase::GlobalPreCheck, Event::LocalValid { valid }) => {
            if valid {
                finish_spec(c, FileOutcome::Success, false)
            } else {
                start_mirror_spec(c, 0, cancelled, false)
            }
        },
        (Phase::MirrorProbe, Event::MirrorProbed { reachable, size }) => {
            if !reachable {
                start_mirror_spec(c, (c.mirror + 1) as u64, cancelled, false)
            } else {
                let known = size is Some || c.global_size_known;
                let eff = (match size {
                    Option::Some(s) => s,
                    Option::None => c.global_size,
                });
                let newly = (if size is Some && !c.size_recorded {
                    size
                } else {
                    Option::<u64>::None
                });
                let c1 = Controller {
                    mirror_size: eff,
                    mirror_size_known: known,
                    size_recorded: c.size_recorded || size is Some,
                    ..c
                };
                if c.has_hash && known {
                    (
                        Controller { phase: Phase::MirrorPreCheck, ..c1 },
                        Action {
                            delete_partial: false,
                            add_expected: newly,
                            kind: ActionKind::CheckLocal { expected_size: eff },
                        },
                    )
                } else {
                    let next = begin_transfer_spec(c1, false);
                    (next.0, Action { add_expected: newly, ..next.1 })
                }
            }
        },
        (Phase::MirrorPreCheck, Event::LocalValid { valid }) => {
            if valid {
                finish_spec(c, FileOutcome::Success, false)
            } else {
                begin_transfer_spec(c, false)
            }
        },
        (Phase::Transferring, Event::TransferFinished { result }) => {
            match result {
                Result::Ok(_) => {
                    if cancelled {
                        finish_spec(c, FileOutcome::Cancelled, false)
                    } else if c.has_hash {
                        (
                            Controller { phase: Phase::Verifying, ..c },
                            Action {
                                delete_partial: false,
                                add_expected: Option::None,
                                kind: ActionKind::VerifyFile {
                                    expected_size: (if c.mirror_size_known {
                                        Option::Some(c.mirror_size)
                                    } else {
                                        Option::<u64>::None
                                    }),
                                },
                            },
                        )
                    } else {
                        finish_spec(c, FileOutcome::Success, false)
                    }
                },
                Result::Err(e) => {
                    if cancelled || e is Cancelled {
                        finish_spec(c, FileOutcome::Cancelled, false)
                    } else if c.retries_left > 1 {
                        (
                            Controller { retries_left: (c.retries_left - 1) as u64, ..c },
                            Action {
                                delete_partial: true,
                                add_expected: Option::None,
                                kind: ActionKind::Transfer { mirror: c.mirror },
                            },
                        )
                    } else {
                        start_mirror_spec(c, (c.mirror + 1) as u64, false, true)
                    }
                },
            }
        },
        (Phase::Verifying, Event::LocalValid { valid }) => {
            if cancelled {
                finish_spec(c, FileOutcome::Cancelled, false)
            } else if valid {
                finish_spec(c, FileOutcome::Success, false)
            } else {
                start_mirror_spec(c, (c.mirror + 1) as u64, false, true)
            }
        },
        _ => (
            c,
            Action {
                delete_partial: false,
                add_expected: Option::None,
                kind: ActionKind::ProbeSize,
            },
        ),
    }
}

/// The machine's initial state and first instruction: with the stop flag
/// already set the file fails at once without touching the network, else
/// the global size probe is requested.
pub open spec fn start_spec(num_mirrors: u64, has_hash: bool, cancelled: bool) -> (
    Controller,
    Action,
) {
    let c = Controller {
        num_mirrors,
        has_hash,
        phase: Phase::GlobalProbe,
        mirror: 0,
        retries_left: 0,
        global_size: 0,
        global_size_known: false,
        mirror_size: 0,
        mirror_size_known: false,
        size_recorded: false,
        outcome: Option::None,
    };
    if cancelled {
        finish_spec(c, FileOutcome::Cancelled, false)
    } else {
        (
            c,
            Action {
                delete_partial: false,
                add_expected: Option::None,
                kind: ActionKind::ProbeSize,
            },
        )
    }
}

fn finish_exec(c: Controller, o: FileOutcome, delete: bool) -> (r: (Controller, Action))
    ensures
        r == finish_spec(c, o, delete),
{
    (
        Controller { phase: Phase::Finished, outcome: Option::Some(o), ..c },
        Action {
            delete_partial: delete,
            add_expected: Option::None,
            kind: ActionKind::Finish { outcome: o },
        },
    )
}

fn start_mirror_exec(c: Controller, i: u64, cancelled: bool, delete: bool) -> (r: (
    Controller,
    Action,
))
    ensures
        r == start_mirror_spec(c, i, cancelled, delete),
{
    if cancelled {
        finish_exec(c, FileOutcome::Cancelled, delete)
    } else if i >= c.num_mirrors {
        finish_exec(c, FileOutcome::AllMirrorsFailed, delete)
    } else {
        (
            Controller {
                phase: Phase::MirrorProbe,
                mirror: i,
                retries_left: 0,
                mirror_size: 0,
                mirror_size_known: false,
                ..c
            },
            Action {
                delete_partial: delete,
                add_expected: Option::None,
                kind: ActionKind::ProbeMirror { mirror: i },
            },
        )
    }
}

fn begin_transfer_exec(c: Controller, delete: bool) -> (r: (Controller, Action))
    ensures
        r == begin_transfer_spec(c, delete),
{
    (
        Controller { phase: Phase::Transferring, retries_left: MAX_RETRIES, ..c },
        Action {
            delete_partial: delete,
            add_expected: Option::None,
            kind: ActionKind::Transfer { mirror: c.mirror },
        },
    )
}

impl Controller {
    /// Begins the machine for one file. `cancelled` is the stop flag as
    /// sampled on entry: set, the file fails at once without network work.
    pub fn start(num_mirrors: u64, has_hash: bool, cancelled: bool) -> (r: (Controller, Action))
        ensures
            r == start_spec(num_mirrors, has_hash, cancelled),
            r.0.wf(),
    {
        let c = Controller {
            num_mirrors,
            has_hash,
            phase: Phase::GlobalProbe,
            mirror: 0,
            retries_left: 0,
            global_size: 0,
            global_size_known: false,
            mirror_size: 0,
            mirror_size_known: false,
            size_recorded: false,
            outcome: Option::None,
        };
        if cancelled {
            finish_exec(c, FileOutcome::Cancelled, false)
        } else {
            (
                c,
                Action {
                    delete_partial: false,
                    add_expected: Option::None,
                    kind: ActionKind::ProbeSize,
                },
            )
        }
    }

    /// Feeds the machine the answer to its pending action, together with
    /// the sampled stop flag, and returns the next instruction. The
    /// transition is exactly `next_spec`.
    pub fn step(&mut self, cancelled: bool, ev: Event) -> (a: Action)
        requires
            old(self).wf(),
            !(old(self).phase is Finished),
            event_fits(old(self).phase, ev),
        ensures
            (*final(self), a) == next_spec(*old(self), cancelled, ev),
            final(self).wf(),
    {
        let c = *self;
        let (c2, a): (Controller, Action) = match (c.phase, ev) {
            (Phase::GlobalProbe, Event::GlobalSize { size }) => {
                let known = size.is_some();
                let s: u64 = match size {
                    Option::Some(s) => s,
                    Option::None => 0,
                };
                let c1 = Controller {
                    global_size: s,
                    global_size_known: known,
                    size_recorded: known,
                    ..c
                };
                if c.has_hash && known {
                    (
                        Controller { phase: Phase::GlobalPreCheck, ..c1 },
                        Action {
                            delete_partial: false,
                            add_expected: size,
                            kind: ActionKind::CheckLocal { expected_size: s },
                        },
                    )
                } else {
                    let next = start_mirror_exec(c1, 0, cancelled, false);
                    (next.0, Action { add_expected: size, ..next.1 })
                }
            },
            (Phase::GlobalPreCheck, Event::LocalValid { valid }) => {
                if valid {
                    finish_exec(c, FileOutcome::Success, false)
                } else {
                    start_mirror_exec(c, 0, cancelled, false)
                }
            },
            (Phase::MirrorProbe, Event::MirrorProbed { reachable, size }) => {
                if !reachable {
                    start_mirror_exec(c, c.mirror + 1, cancelled, false)
                } else {
                    let known = size.is_some() || c.global_size_known;
                    let eff: u64 = match size {
                        Option::Some(s) => s,
                        Option::None => c.global_size,
                    };
                    let newly: Option<u64> = if size.is_some() && !c.size_recorded {
                        size
                    } else {
                        Option::None
                    };
                    let c1 = Controller {
                        mirror_size: eff,
                        mirror_size_known: known,
                        size_recorded: c.size_recorded || size.is_some(),
                        ..c
                    };
                    if c.has_hash && known {
                        (
                            Controller { phase: Phase::MirrorPreCheck, ..c1 },
                            Action {
                                delete_partial: false,
                                add_expected: newly,
                                kind: ActionKind::CheckLocal { expected_size: eff },
                            },
                        )
                    } else {
                        let next = begin_transfer_exec(c1, false);
                        (next.0, Action { add_expected: newly, ..next.1 })
                    }
                }
            },
            (Phase::MirrorPreCheck, Event::LocalValid { valid }) => {
                if valid {
                    finish_exec(c, FileOutcome::Success, false)
                } else {
                    begin_transfer_exec(c, false)
                }
            },
            (Phase::Transferring, Event::TransferFinished { result }) => {
                match result {
                    Result::Ok(_) => {
                        if cancelled {
                            finish_exec(c, FileOutcome::Cancelled, false)
                        } else if c.has_hash {
                            (
                                Controller { phase: Phase::Verifying, ..c },
                                Action {
                                    delete_partial: false,
                                    add_expected: Option::None,
                                    kind: ActionKind::VerifyFile {
                                        expected_size: if c.mirror_size_known {
                                            Option::Some(c.mirror_size)
                                        } else {
                                            Option::None
                                        },
                                    },
                                },
                            )
                        } else {
                            finish_exec(c, FileOutcome::Success, false)
                        }
                    },
                    Result::Err(e) => {
                        let is_cancel = cancelled || matches!(e, TransferError::Cancelled);
                        if is_cancel {
                            finish_exec(c, FileOutcome::Cancelled, false)
                        } else if c.retries_left > 1 {
                            (
                                Controller { retries_left: c.retries_left - 1, ..c },
                                Action {
                                    delete_partial: true,
                                    add_expected: Option::None,
                                    kind: ActionKind::Transfer { mirror: c.mirror },
                                },
                            )
                        } else {
                            start_mirror_exec(c, c.mirror + 1, false, true)
                        }
                    },
                }
            },
            (Phase::Verifying, Event::LocalValid { valid }) => {
                if cancelled {
                    finish_exec(c, FileOutcome::Cancelled, false)
                } else if valid {
                    finish_exec(c, FileOutcome::Success, false)
                } else {
                    start_mirror_exec(c, c.mirror + 1, false, true)
                }
            },
            _ => {
                proof {
                    assert(false);
                }
                (
                    c,
                    Action {
                        delete_partial: false,
                        add_expected: Option::None,
                        kind: ActionKind::ProbeSize,
                    },
                )
            },
        };
        *self = c2;
        a
    }
}

/// A file is reported successful only on the word of the integrity check:
/// either the local file passed a pre-check or the post-transfer
/// verification (size where known, and hash), or the transfer completed
/// for a file that carries no hash expectation at all — and in the latter
/// two cases only with the stop flag clear.
pub proof fn lemma_success_needs_verification(c: Controller, cancelled: bool, ev: Event)
    requires
        c.wf(),
        !(c.phase is Finished),
        event_fits(c.phase, ev),
        next_spec(c, cancelled, ev).0.outcome == Option::Some(FileOutcome::Success),
    ensures
        ev == (Event::LocalValid { valid: true }) || (ev == (Event::TransferFinished {
            result: Result::Ok(()),
        }) && !c.has_hash && !cancelled),
{
    let r = next_spec(c, cancelled, ev);
    match ev {
        Event::GlobalSize { size } => {
            assert(r.0.outcome != Option::Some(FileOutcome::Success));
        },
        Event::LocalValid { valid } => {
            if !valid {
                assert(r.0.outcome != Option::Some(FileOutcome::Success));
            }
        },
        Event::MirrorProbed { reachable, size } => {
            assert(r.0.outcome != Option::Some(FileOutcome::Success));
        },
        Event::TransferFinished { result } => {
            match result {
                Result::Ok(u) => {
                    assert(u == ());
                    assert(ev == (Event::TransferFinished { result: Result::Ok(()) }));
                    if cancelled || c.has_hash {
                        assert(r.0.outcome != Option::Some(FileOutcome::Success));
                    }
                },
                Result::Err(_) => {
                    assert(r.0.outcome != Option::Some(FileOutcome::Success));
                },
            }
        },
    }
}

/// A transfer attempt that ends while cancellation is requested — whether
/// the attempt itself observed the flag and aborted, or the flag is seen
/// when its failure comes back — finishes the file as cancelled, never as
/// a success, and no further mirror or retry is asked for.
pub proof fn lemma_cancelled_transfer_never_succeeds(c: Controller, cancelled: bool, e: TransferError)
    requires
        c.phase is Transferring,
        cancelled || e is Cancelled,
    ensures
        next_spec(c, cancelled, Event::TransferFinished { result: Result::Err(e) }).0.outcome
            == Option::Some(FileOutcome::Cancelled),
        next_spec(c, cancelled, Event::TransferFinished { result: Result::Err(e) }).1.kind
            == (ActionKind::Finish { outcome: FileOutcome::Cancelled }),
{
}

/// The state after one `(flag, event)` pair.
pub open spec fn step_state(c: Controller, p: (bool, Event)) -> Controller {
    next_spec(c, p.0, p.1).0
}

/// The state after feeding the machine each `(flag, event)` pair in order.
pub open spec fn run(c: Controller, evs: Seq<(bool, Event)>) -> Controller
    decreases evs.len(),
{
    if evs.len() == 0 {
        c
    } else {
        run(step_state(c, evs[0]), evs.skip(1))
    }
}

/// The instructions the machine issues along such a run, in order.
pub open spec fn run_actions(c: Controller, evs: Seq<(bool, Event)>) -> Seq<Action>
    decreases evs.len(),
{
    if evs.len() == 0 {
        Seq::empty()
    } else {
        seq![next_spec(c, evs[0].0, evs[0].1).1] + run_actions(step_state(c, evs[0]), evs.skip(1))
    }
}

proof fn lemma_run_append(c: Controller, a: Seq<(bool, Event)>, b: Seq<(bool, Event)>)
    ensures
        run(c, a + b) == run(run(c, a), b),
        run_actions(c, a + b) == run_actions(c, a) + run_actions(run(c, a), b),
    decreases a.len(),
{
    if a.len() == 0 {
        assert(a + b =~= b);
        assert(run_actions(c, a) + run_actions(run(c, a), b) =~= run_actions(c, b));
    } else {
        assert((a + b)[0] == a[0]);
        assert((a + b).skip(1) =~= a.skip(1) + b);
        lemma_run_append(step_state(c, a[0]), a.skip(1), b);
        assert(run(c, a + b) == run(run(c, a), b));
        assert(run_actions(c, a + b) =~= run_actions(c, a) + run_actions(run(c, a), b));
    }
}

/// How many transfer attempts a run of instructions requests of mirror `j`.
pub open spec fn count_transfers(acts: Seq<Action>, j: u64) -> nat
    decreases acts.len(),
{
    if acts.len() == 0 {
        0
    } else {
        (if acts[0].kind == (ActionKind::Transfer { mirror: j }) {
            1nat
        } else {
            0nat
        }) + count_transfers(acts.skip(1), j)
    }
}

proof fn lemma_count_append(a: Seq<Action>, b: Seq<Action>, j: u64)
    ensures
        count_transfers(a + b, j) == count_transfers(a, j) + count_transfers(b, j),
    decreases a.len(),
{
    if a.len() == 0 {
        assert(a + b =~= b);
    } else {
        assert((a + b)[0] == a[0]);
        assert((a + b).skip(1) =~= a.skip(1) + b);
        lemma_count_append(a.skip(1), b, j);
    }
}

/// The state in which the machine waits for mirror `i`'s probe, for a file
/// without a hash expectation and with no size learned anywhere.
pub open spec fn mirror_probe_state(k: u64, i: u64) -> Controller {
    Controller {
        num_mirrors: k,
        has_hash: false,
        phase: Phase::MirrorProbe,
        mirror: i,
        retries_left: 0,
        global_size: 0,
        global_size_known: false,
        mirror_size: 0,
        mirror_size_known: false,
        size_recorded: false,
        outcome: Option::None,
    }
}

/// The events of one mirror that answers its probe but fails every one of
/// the three transfer attempts, with the stop flag never set.
pub open spec fn mirror_fail_events(
    e1: TransferError,
    e2: TransferError,
    e3: TransferError,
) -> Seq<(bool, Event)> {
    seq![
        (false, Event::MirrorProbed { reachable: true, size: Option::None }),
        (false, Event::TransferFinished { result: Result::Err(e1) }),
        (false, Event::TransferFinished { result: Result::Err(e2) }),
        (false, Event::TransferFinished { result: Result::Err(e3) }),
    ]
}

/// The events of a row of such always-failing mirrors, one error triple per
/// mirror.
pub open spec fn failing_mirrors_events(
    errs: Seq<(TransferError, TransferError, TransferError)>,
) -> Seq<(bool, Event)>
    decreases errs.len(),
{
    if errs.len() == 0 {
        Seq::empty()
    } else {
        mirror_fail_events(errs[0].0, errs[0].1, errs[0].2) + failing_mirrors_events(errs.skip(1))
    }
}

/// The events of a mirror that answers its probe and whose first transfer
/// attempt succeeds, for a file without a hash expectation.
pub open spec fn success_mirror_events() -> Seq<(bool, Event)> {
    seq![
        (false, Event::MirrorProbed { reachable: true, size: Option::None }),
        (false, Event::TransferFinished { result: Result::Ok(()) }),
    ]
}

proof fn lemma_failing_segment(k: u64, i: u64, e1: TransferError, e2: TransferError, e3: TransferError)
    requires
        i + 1 < k,
        !(e1 is Cancelled),
        !(e2 is Cancelled),
        !(e3 is Cancelled),
    ensures
        run(mirror_probe_state(k, i), mirror_fail_events(e1, e2, e3)) == mirror_probe_state(
            k,
            (i + 1) as u64,
        ),
        run_actions(mirror_probe_state(k, i), mirror_fail_events(e1, e2, e3)) == seq![
            Action {
                delete_partial: false,
                add_expected: Option::None,
                kind: ActionKind::Transfer { mirror: i },
            },
            Action {
                delete_partial: true,
                add_expected: Option::None,
                kind: ActionKind::Transfer { mirror: i },
            },
            Action {
                delete_partial: true,
                add_expected: Option::None,
                kind: ActionKind::Transfer { mirror: i },
            },
            Action {
                delete_partial: true,
                add_expected: Option::None,
                kind: ActionKind::ProbeMirror { mirror: (i + 1) as u64 },
            },
        ],
{
    let c0 = mirror_probe_state(k, i);
    let evs = mirror_fail_events(e1, e2, e3);
    let r1 = evs.skip(1);
    let r2 = r1.skip(1);
    let r3 = r2.skip(1);
    let r4 = r3.skip(1);
    assert(r1 =~= seq![evs[1], evs[2], evs[3]]);
    assert(r2 =~= seq![evs[2], evs[3]]);
    assert(r3 =~= seq![evs[3]]);
    assert(r4 =~= Seq::<(bool, Event)>::empty());
    let c1 = step_state(c0, evs[0]);
    let c2 = step_state(c1, evs[1]);
    let c3 = step_state(c2, evs[2]);
    let c4 = step_state(c3, evs[3]);
    assert(c1 == Controller { phase: Phase::Transferring, retries_left: MAX_RETRIES, ..c0 });
    assert(c2 == Controller { retries_left: (MAX_RETRIES - 1) as u64, ..c1 });
    assert(c3 == Controller { retries_left: (MAX_RETRIES - 2) as u64, ..c1 });
    assert(c4 == mirror_probe_state(k, (i + 1) as u64));
    assert(run(c0, evs) == run(c1, r1));
    assert(run(c1, r1) == run(c2, r2));
    assert(run(c2, r2) == run(c3, r3));
    assert(run(c3, r3) == run(c4, r4));
    assert(run(c4, r4) == c4);
    let a1 = next_spec(c0, evs[0].0, evs[0].1).1;
    let a2 = next_spec(c1, evs[1].0, evs[1].1).1;
    let a3 = next_spec(c2, evs[2].0, evs[2].1).1;
    let a4 = next_spec(c3, evs[3].0, evs[3].1).1;
    assert(run_actions(c0, evs) == seq![a1] + run_actions(c1, r1));
    assert(run_actions(c1, r1) == seq![a2] + run_actions(c2, r2));
    assert(run_actions(c2, r2) == seq![a3] + run_actions(c3, r3));
    assert(run_actions(c3, r3) == seq![a4] + run_actions(c4, r4));
    assert(run_actions(c4, r4) == Seq::<Action>::empty());
    assert(a1 == Action {
        delete_partial: false,
        add_expected: Option::None,
        kind: ActionKind::Transfer { mirror: i },
    });
    assert(a2 == Action {
        delete_partial: true,
        add_expected: Option::None,
        kind: ActionKind::Transfer { mirror: i },
    });
    assert(a3 == Action {
        delete_partial: true,
        add_expected: Option::None,
        kind: ActionKind::Transfer { mirror: i },
    });
    assert(a4 == Action {
        delete_partial: true,
        add_expected: Option::None,
        kind: ActionKind::ProbeMirror { mirror: (i + 1) as u64 },
    });
    assert(run_actions(c0, evs) =~= seq![a1, a2, a3, a4]);
}

proof fn lemma_count4(a0: Action, a1: Action, a2: Action, a3: Action, j: u64)
    ensures
        count_transfers(seq![a0, a1, a2, a3], j) == (if a0.kind == (ActionKind::Transfer {
            mirror: j,
        }) {
            1nat
        } else {
            0nat
        }) + (if a1.kind == (ActionKind::Transfer { mirror: j }) {
            1nat
        } else {
            0nat
        }) + (if a2.kind == (ActionKind::Transfer { mirror: j }) {
            1nat
        } else {
            0nat
        }) + (if a3.kind == (ActionKind::Transfer { mirror: j }) {
            1nat
        } else {
            0nat
        }),
{
    let s = seq![a0, a1, a2, a3];
    let s1 = s.skip(1);
    let s2 = s1.skip(1);
    let s3 = s2.skip(1);
    let s4 = s3.skip(1);
    assert(s1 =~= seq![a1, a2, a3]);
    assert(s2 =~= seq![a2, a3]);
    assert(s3 =~= seq![a3]);
    assert(s4 =~= Seq::<Action>::empty());
    assert(count_transfers(s4, j) == 0nat);
    assert(count_transfers(s3, j) == (if a3.kind == (ActionKind::Transfer { mirror: j }) {
        1nat
    } else {
        0nat
    }) + count_transfers(s4, j));
    assert(count_transfers(s2, j) == (if a2.kind == (ActionKind::Transfer { mirror: j }) {
        1nat
    } else {
        0nat
    }) + count_transfers(s3, j));
    assert(count_transfers(s1, j) == (if a1.kind == (ActionKind::Transfer { mirror: j }) {
        1nat
    } else {
        0nat
    }) + count_transfers(s2, j));
    assert(count_transfers(s, j) == (if a0.kind == (ActionKind::Transfer { mirror: j }) {
        1nat
    } else {
        0nat
    }) + count_transfers(s1, j));
}

proof fn lemma_count2(a0: Action, a1: Action, j: u64)
    ensures
        count_transfers(seq![a0, a1], j) == (if a0.kind == (ActionKind::Transfer { mirror: j }) {
            1nat
        } else {
            0nat
        }) + (if a1.kind == (ActionKind::Transfer { mirror: j }) {
            1nat
        } else {
            0nat
        }),
{
    let s = seq![a0, a1];
    let s1 = s.skip(1);
    let s2 = s1.skip(1);
    assert(s1 =~= seq![a1]);
    assert(s2 =~= Seq::<Action>::empty());
    assert(count_transfers(s2, j) == 0nat);
    assert(count_transfers(s1, j) == (if a1.kind == (ActionKind::Transfer { mirror: j }) {
        1nat
    } else {
        0nat
    }) + count_transfers(s2, j));
    assert(count_transfers(s, j) == (if a0.kind == (ActionKind::Transfer { mirror: j }) {
        1nat
    } else {
        0nat
    }) + count_transfers(s1, j));
}

proof fn lemma_count1(a0: Action, j: u64)
    ensures
        count_transfers(seq![a0], j) == (if a0.kind == (ActionKind::Transfer { mirror: j }) {
            1nat
        } else {
            0nat
        }),
{
    let s = seq![a0];
    let s1 = s.skip(1);
    assert(s1 =~= Seq::<Action>::empty());
    assert(count_transfers(s1, j) == 0nat);
    assert(count_transfers(s, j) == (if a0.kind == (ActionKind::Transfer { mirror: j }) {
        1nat
    } else {
        0nat
    }) + count_transfers(s1, j));
}

proof fn lemma_failing_run(
    k: u64,
    i: u64,
    errs: Seq<(TransferError, TransferError, TransferError)>,
)
    requires
        i + errs.len() < k,
        forall|m: int|
            0 <= m < errs.len() ==> !((#[trigger] errs[m]).0 is Cancelled) && !(errs[m].1
                is Cancelled) && !(errs[m].2 is Cancelled),
    ensures
        run(mirror_probe_state(k, i), failing_mirrors_events(errs)) == mirror_probe_state(
            k,
            (i + errs.len()) as u64,
        ),
        forall|j: u64|
            #[trigger] count_transfers(
                run_actions(mirror_probe_state(k, i), failing_mirrors_events(errs)),
                j,
            ) == if i <= j < i + errs.len() {
                MAX_RETRIES as nat
            } else {
                0nat
            },
    decreases errs.len(),
{
    let c0 = mirror_probe_state(k, i);
    let evs = failing_mirrors_events(errs);
    if errs.len() == 0 {
        assert(evs =~= Seq::<(bool, Event)>::empty());
        assert(run(c0, evs) == c0);
        assert(forall|j: u64|
            #[trigger] count_transfers(run_actions(c0, evs), j) == 0nat);
    } else {
        let seg = mirror_fail_events(errs[0].0, errs[0].1, errs[0].2);
        let rest = failing_mirrors_events(errs.skip(1));
        assert(evs == seg + rest);
        lemma_failing_segment(k, i, errs[0].0, errs[0].1, errs[0].2);
        lemma_run_append(c0, seg, rest);
        let c1 = mirror_probe_state(k, (i + 1) as u64);
        assert(run(c0, seg) == c1);
        assert forall|m: int| 0 <= m < errs.skip(1).len() implies !((#[trigger] errs.skip(
            1,
        )[m]).0 is Cancelled) && !(errs.skip(1)[m].1 is Cancelled) && !(errs.skip(1)[m].2
            is Cancelled) by {
            assert(errs.skip(1)[m] == errs[m + 1]);
        }
        lemma_failing_run(k, (i + 1) as u64, errs.skip(1));
        let seg_acts = run_actions(c0, seg);
        let rest_acts = run_actions(c1, rest);
        assert(run_actions(c0, evs) == seg_acts + rest_acts);
        assert forall|j: u64|
            #[trigger] count_transfers(run_actions(c0, evs), j) == if i <= j < i + errs.len() {
                MAX_RETRIES as nat
            } else {
                0nat
            } by {
            lemma_count_append(seg_acts, rest_acts, j);
            lemma_count4(seg_acts[0], seg_acts[1], seg_acts[2], seg_acts[3], j);
            assert(seg_acts =~= seq![seg_acts[0], seg_acts[1], seg_acts[2], seg_acts[3]]);
            assert(count_transfers(seg_acts, j) == if j == i {
                3nat
            } else {
                0nat
            });
            assert(count_transfers(rest_acts, j) == if i + 1 <= j < i + 1 + errs.skip(1).len() {
                MAX_RETRIES as nat
            } else {
                0nat
            });
        }
    }
}

proof fn lemma_success_segment(k: u64, i: u64)
    requires
        i < k,
    ensures
        run(mirror_probe_state(k, i), success_mirror_events()).outcome == Option::Some(
            FileOutcome::Success,
        ),
        run_actions(mirror_probe_state(k, i), success_mirror_events()) == seq![
            Action {
                delete_partial: false,
                add_expected: Option::None,
                kind: ActionKind::Transfer { mirror: i },
            },
            Action {
                delete_partial: false,
                add_expected: Option::None,
                kind: ActionKind::Finish { outcome: FileOutcome::Success },
            },
        ],
{
    let c0 = mirror_probe_state(k, i);
    let evs = success_mirror_events();
    let r1 = evs.skip(1);
    let r2 = r1.skip(1);
    assert(r1 =~= seq![evs[1]]);
    assert(r2 =~= Seq::<(bool, Event)>::empty());
    let c1 = step_state(c0, evs[0]);
    let c2 = step_state(c1, evs[1]);
    assert(c1 == Controller { phase: Phase::Transferring, retries_left: MAX_RETRIES, ..c0 });
    assert(c2.outcome == Option::Some(FileOutcome::Success));
    assert(run(c0, evs) == run(c1, r1));
    assert(run(c1, r1) == run(c2, r2));
    assert(run(c2, r2) == c2);
    let a1 = next_spec(c0, evs[0].0, evs[0].1).1;
    let a2 = next_spec(c1, evs[1].0, evs[1].1).1;
    assert(run_actions(c0, evs) == seq![a1] + run_actions(c1, r1));
    assert(run_actions(c1, r1) == seq![a2] + run_actions(c2, r2));
    assert(run_actions(c2, r2) == Seq::<Action>::empty());
    assert(a1 == Action {
        delete_partial: false,
        add_expected: Option::None,
        kind: ActionKind::Transfer { mirror: i },
    });
    assert(a2 == Action {
        delete_partial: false,
        add_expected: Option::None,
        kind: ActionKind::Finish { outcome: FileOutcome::Success },
    });
    assert(run_actions(c0, evs) =~= seq![a1, a2]);
}

/// With `k` mirrors and a file whose first `k - 1` mirrors answer their
/// probes but fail every transfer attempt while the last mirror succeeds,
/// the controller ends in success, having requested exactly `MAX_RETRIES`
/// transfer attempts of each failing mirror and exactly one of the last:
/// a mirror's exhausted retry budget falls the file over to the next
/// mirror, never back, and success comes from the last mirror alone. The
/// stop flag stays clear and the file carries no hash expectation; one
/// error triple in `errs` gives the three failures of one mirror.
pub proof fn lemma_failover_bounded_retries(
    k: u64,
    errs: Seq<(TransferError, TransferError, TransferError)>,
)
    requires
        k >= 1,
        errs.len() == k - 1,
        forall|m: int|
            0 <= m < errs.len() ==> !((#[trigger] errs[m]).0 is Cancelled) && !(errs[m].1
                is Cancelled) && !(errs[m].2 is Cancelled),
    ensures
        ({
            let c0 = start_spec(k, false, false).0;
            let evs = seq![(false, Event::GlobalSize { size: Option::None })]
                + failing_mirrors_events(errs) + success_mirror_events();
            let acts = run_actions(c0, evs);
            &&& run(c0, evs).outcome == Option::Some(FileOutcome::Success)
            &&& forall|j: u64| j < k - 1 ==> #[trigger] count_transfers(acts, j)
                == MAX_RETRIES as nat
            &&& count_transfers(acts, (k - 1) as u64) == 1
        }),
{
    let c0 = start_spec(k, false, false).0;
    let head = seq![(false, Event::GlobalSize { size: Option::None })];
    let mid = failing_mirrors_events(errs);
    let tail = success_mirror_events();
    let evs = head + mid + tail;
    let s0 = mirror_probe_state(k, 0);

    // The global probe answers "unknown" and the machine turns to mirror 0.
    let h1 = head.skip(1);
    assert(h1 =~= Seq::<(bool, Event)>::empty());
    let cg = step_state(c0, head[0]);
    assert(cg == s0);
    assert(run(c0, head) == run(cg, h1));
    assert(run(cg, h1) == cg);
    let ag = next_spec(c0, head[0].0, head[0].1).1;
    assert(run_actions(c0, head) == seq![ag] + run_actions(cg, h1));
    assert(run_actions(cg, h1) == Seq::<Action>::empty());
    assert(run_actions(c0, head) =~= seq![ag]);
    let head_acts = run_actions(c0, head);
    assert(ag.kind == (ActionKind::ProbeMirror { mirror: 0u64 }));

    lemma_run_append(c0, head, mid + tail);
    assert(evs =~= head + (mid + tail));
    lemma_run_append(s0, mid, tail);
    lemma_failing_run(k, 0, errs);
    let sk = mirror_probe_state(k, (k - 1) as u64);
    assert(run(s0, mid) == sk);
    lemma_success_segment(k, (k - 1) as u64);
    assert(run(c0, evs).outcome == Option::Some(FileOutcome::Success));

    let mid_acts = run_actions(s0, mid);
    let tail_acts = run_actions(sk, tail);
    assert(run_actions(c0, evs) == head_acts + (mid_acts + tail_acts));
    assert forall|j: u64| #[trigger] count_transfers(run_actions(c0, evs), j)
        == count_transfers(head_acts, j) + count_transfers(mid_acts, j) + count_transfers(
        tail_acts,
        j,
    ) by {
        lemma_count_append(head_acts, mid_acts + tail_acts, j);
        lemma_count_append(mid_acts, tail_acts, j);
    }
    assert forall|j: u64| #[trigger] count_transfers(head_acts, j) == 0nat by {
        lemma_count1(ag, j);
        assert(head_acts == seq![ag]);
    }
    assert forall|j: u64| #[trigger] count_transfers(tail_acts, j) == if j == (k - 1) as u64 {
        1nat
    } else {
        0nat
    } by {
        lemma_count2(tail_acts[0], tail_acts[1], j);
        assert(tail_acts =~= seq![tail_acts[0], tail_acts[1]]);
    }
}

} // verus!
