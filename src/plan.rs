//! How a handler's work unfolds against the remote session. A `Plan` says
//! what the work is; `step_of` says, for the replies received so far, which
//! request goes out next or how the work ended; `next_step` computes it.
//! The caller performs each request and hands the reply back, so every
//! decision, including when to stop, is made here.

use vstd::prelude::*;
use crate::address::ItemAddress;
use crate::error::ObsCmdError;
use crate::request::{BlendMode, Reply, Request};

verus! {

/// A boolean attribute of the remote session that a toggle flips.
#[derive(Clone, Debug, PartialEq, Eq)]
pub enum FlagTarget {
    /// Whether an input is muted.
    InputMute { input: String },
    /// Whether a filter on a source is enabled.
    Filter { source: String, filter: String },
    /// Whether studio mode is on.
    StudioMode,
}

/// What is done to a scene item once its identifier is known.
#[derive(Clone, Copy, Debug, PartialEq, Eq)]
pub enum ItemOp {
    Remove,
    Duplicate,
    SetEnabled { enabled: bool },
    ToggleEnabled,
    SetLocked { locked: bool },
    GetTransform,
    SetTransform,
    GetIndex,
    SetIndex { index: u32 },
    GetBlendMode,
    SetBlendMode { mode: BlendMode },
}

/// The shape of the work one handler does against the remote session.
#[derive(Clone, Debug, PartialEq, Eq)]
pub enum Plan {
    /// Fail at once, before any remote call.
    Reject(ObsCmdError),
    /// Succeed at once, without any remote call.
    Report,
    /// One remote call; its failure is the handler's failure.
    Call(Request),
    /// Read a boolean attribute, then write back its negation.
    Flip(FlagTarget),
    /// Read the recording state and succeed only if it is running, unpaused.
    CheckRecordingActive,
    /// Read the last replay path and succeed only if there is one.
    RequireLastReplay,
    /// Count the monitors, then open a projector if monitor `index` exists.
    OnMonitor { index: u8, open: Request },
    /// Look up the identifier of an item, then act on it.
    OnItem { address: ItemAddress, op: ItemOp },
}

/// What the caller does next.
#[derive(Debug, PartialEq, Eq)]
pub enum Step {
    /// Perform this request and hand its reply back.
    Send(Request),
    /// The handler is done, with this outcome.
    Finished(Result<(), ObsCmdError>),
}

pub open spec fn read_request(t: FlagTarget) -> Request {
    match t {
        FlagTarget::InputMute { input } => Request::InputMuted { input },
        FlagTarget::Filter { source, filter } => Request::FilterEnabled { source, filter },
        FlagTarget::StudioMode => Request::StudioModeEnabled,
    }
}

pub open spec fn write_request(t: FlagTarget, value: bool) -> Request {
    match t {
        FlagTarget::InputMute { input } => Request::SetInputMuted { input, muted: value },
        FlagTarget::Filter { source, filter } => Request::SetFilterEnabled {
            source,
            filter,
            enabled: value,
        },
        FlagTarget::StudioMode => Request::SetStudioModeEnabled { enabled: value },
    }
}

/// The request that performs `op` on item `item_id` of `scene`; for a toggle,
/// the request that reads the current state.
pub open spec fn item_request(scene: String, item_id: i64, op: ItemOp) -> Request {
    match op {
        ItemOp::Remove => Request::RemoveSceneItem { scene, item_id },
        ItemOp::Duplicate => Request::DuplicateSceneItem { scene, item_id },
        ItemOp::SetEnabled { enabled } => Request::SetSceneItemEnabled { scene, item_id, enabled },
        ItemOp::ToggleEnabled => Request::SceneItemEnabled { scene, item_id },
        ItemOp::SetLocked { locked } => Request::SetSceneItemLocked { scene, item_id, locked },
        ItemOp::GetTransform => Request::SceneItemTransform { scene, item_id },
        ItemOp::SetTransform => Request::SetSceneItemTransform { scene, item_id },
        ItemOp::GetIndex => Request::SceneItemIndex { scene, item_id },
        ItemOp::SetIndex { index } => Request::SetSceneItemIndex { scene, item_id, index },
        ItemOp::GetBlendMode => Request::SceneItemBlendMode { scene, item_id },
        ItemOp::SetBlendMode { mode } => Request::SetSceneItemBlendMode { scene, item_id, mode },
    }
}

pub open spec fn is_failure(r: Reply) -> bool {
    r is NotFound || r is Failed
}

/// The error a reply stands for: the session's own refusal, or a reply that
/// does not answer the request.
pub open spec fn refusal(r: Reply) -> ObsCmdError {
    match r {
        Reply::NotFound { message } => ObsCmdError::ConnectionError { message },
        Reply::Failed { message } => ObsCmdError::ConnectionError { message },
        _ => ObsCmdError::UnexpectedReply,
    }
}

/// The outcome of a handler whose last request got reply `r`.
pub open spec fn outcome(r: Reply) -> Result<(), ObsCmdError> {
    if is_failure(r) {
        Err(refusal(r))
    } else {
        Ok(())
    }
}

/// The step after the item's identifier `item_id` is known, `rs` being the
/// replies that came after it.
pub open spec fn item_step(scene: String, item_id: i64, op: ItemOp, rs: Seq<Reply>) -> Step {
    if rs.len() == 0 {
        Step::Send(item_request(scene, item_id, op))
    } else if op is ToggleEnabled {
        match rs[0] {
            Reply::Flag(enabled) => if rs.len() == 1 {
                Step::Send(Request::SetSceneItemEnabled { scene, item_id, enabled: !enabled })
            } else {
                Step::Finished(outcome(rs[1]))
            },
            other => Step::Finished(Err(refusal(other))),
        }
    } else {
        Step::Finished(outcome(rs[0]))
    }
}

/// The next step of `plan` once the requests it sent were answered by `rs`,
/// in order. A refusal by the session ends the work with that refusal; no
/// later request is sent.
pub open spec fn step_of(plan: Plan, rs: Seq<Reply>) -> Step {
    match plan {
        Plan::Reject(e) => Step::Finished(Err(e)),
        Plan::Report => Step::Finished(Ok(())),
        Plan::Call(q) => if rs.len() == 0 {
            Step::Send(q)
        } else {
            Step::Finished(outcome(rs[0]))
        },
        Plan::Flip(t) => if rs.len() == 0 {
            Step::Send(read_request(t))
        } else {
            match rs[0] {
                Reply::Flag(current) => if rs.len() == 1 {
                    Step::Send(write_request(t, !current))
                } else {
                    Step::Finished(outcome(rs[1]))
                },
                other => Step::Finished(Err(refusal(other))),
            }
        },
        Plan::CheckRecordingActive => if rs.len() == 0 {
            Step::Send(Request::RecordStatus)
        } else {
            match rs[0] {
                Reply::RecordStatus { active, paused } => if active && !paused {
                    Step::Finished(Ok(()))
                } else if !active {
                    Step::Finished(Err(ObsCmdError::RecordingNotActive))
                } else {
                    Step::Finished(Err(ObsCmdError::RecordingPaused))
                },
                other => Step::Finished(Err(refusal(other))),
            }
        },
        Plan::RequireLastReplay => if rs.len() == 0 {
            Step::Send(Request::LastReplay)
        } else {
            match rs[0] {
                Reply::Text(path) => if path@.len() == 0 {
                    Step::Finished(Err(ObsCmdError::NoLastReplay))
                } else {
                    Step::Finished(Ok(()))
                },
                other => Step::Finished(Err(refusal(other))),
            }
        },
        Plan::OnMonitor { index, open } => if rs.len() == 0 {
            Step::Send(Request::ListMonitors)
        } else {
            match rs[0] {
                Reply::MonitorCount(count) => if count <= index as u64 {
                    Step::Finished(Err(ObsCmdError::MonitorNotAvailable { index: index as u32 }))
                } else if rs.len() == 1 {
                    Step::Send(open)
                } else {
                    Step::Finished(outcome(rs[1]))
                },
                other => Step::Finished(Err(refusal(other))),
            }
        },
        Plan::OnItem { address, op } => if rs.len() == 0 {
            Step::Send(Request::SceneItemId { scene: address.container, source: address.leaf })
        } else {
            match rs[0] {
                Reply::ItemId(item_id) => item_step(address.container, item_id, op, rs.skip(1)),
                Reply::NotFound { .. } => Step::Finished(
                    Err(ObsCmdError::ItemNotFound { container: address.container, leaf: address.leaf }),
                ),
                other => Step::Finished(Err(refusal(other))),
            }
        },
    }
}

/// A toggle reads the attribute, writes back its negation, and succeeds once
/// the write is accepted.
pub proof fn lemma_toggle_writes_negation(target: FlagTarget, current: bool)
    ensures
        step_of(Plan::Flip(target), seq![]) == Step::Send(read_request(target)),
        step_of(Plan::Flip(target), seq![Reply::Flag(current)]) == Step::Send(
            write_request(target, !current),
        ),
        step_of(Plan::Flip(target), seq![Reply::Flag(current), Reply::Done]) == Step::Finished(
            Ok(()),
        ),
{
}

/// Toggling a scene item reads its state under the resolved identifier,
/// writes back the negation, and succeeds once the write is accepted.
pub proof fn lemma_item_toggle_writes_negation(address: ItemAddress, item_id: i64, current: bool)
    ensures
        step_of(
            Plan::OnItem { address, op: ItemOp::ToggleEnabled },
            seq![Reply::ItemId(item_id)],
        ) == Step::Send(Request::SceneItemEnabled { scene: address.container, item_id }),
        step_of(
            Plan::OnItem { address, op: ItemOp::ToggleEnabled },
            seq![Reply::ItemId(item_id), Reply::Flag(current)],
        ) == Step::Send(
            Request::SetSceneItemEnabled { scene: address.container, item_id, enabled: !current },
        ),
        step_of(
            Plan::OnItem { address, op: ItemOp::ToggleEnabled },
            seq![Reply::ItemId(item_id), Reply::Flag(current), Reply::Done],
        ) == Step::Finished(Ok(())),
{
    assert(seq![Reply::ItemId(item_id), Reply::Flag(current)].skip(1) =~= seq![
        Reply::Flag(current),
    ]);
    assert(seq![Reply::ItemId(item_id), Reply::Flag(current), Reply::Done].skip(1) =~= seq![
        Reply::Flag(current),
        Reply::Done,
    ]);
}

/// Nothing is swallowed: when the session refuses a request the plan sent,
/// the work ends there, with an error.
pub proof fn lemma_refusal_ends_work(plan: Plan, rs: Seq<Reply>, refused: Reply)
    requires
        step_of(plan, rs) is Send,
        is_failure(refused),
    ensures
        step_of(plan, rs.push(refused)) matches Step::Finished(Err(_)),
{
    let next = rs.push(refused);
    assert(next[rs.len() as int] == refused);
    match plan {
        Plan::OnItem { address, op } => {
            if rs.len() > 0 {
                assert(next[0] == rs[0]);
                assert(next.skip(1) =~= rs.skip(1).push(refused));
                if rs.len() > 1 {
                    assert(next.skip(1)[0] == rs.skip(1)[0]);
                }
            }
        },
        _ => {
            if rs.len() > 0 {
                assert(next[0] == rs[0]);
            }
        },
    }
}

fn refusal_of(r: &Reply) -> (e: ObsCmdError)
    ensures
        e == refusal(*r),
{
    match r {
        Reply::NotFound { message } => ObsCmdError::ConnectionError { message: message.clone() },
        Reply::Failed { message } => ObsCmdError::ConnectionError { message: message.clone() },
        _ => ObsCmdError::UnexpectedReply,
    }
}

fn outcome_of(r: &Reply) -> (o: Result<(), ObsCmdError>)
    ensures
        o == outcome(*r),
{
    match r {
        Reply::NotFound { .. } | Reply::Failed { .. } => Err(refusal_of(r)),
        _ => Ok(()),
    }
}

impl FlagTarget {
    pub fn read(&self) -> (q: Request)
        ensures
            q == read_request(*self),
    {
        match self {
            FlagTarget::InputMute { input } => Request::InputMuted { input: input.clone() },
            FlagTarget::Filter { source, filter } => Request::FilterEnabled {
                source: source.clone(),
                filter: filter.clone(),
            },
            FlagTarget::StudioMode => Request::StudioModeEnabled,
        }
    }

    pub fn write(&self, value: bool) -> (q: Request)
        ensures
            q == write_request(*self, value),
    {
        match self {
            FlagTarget::InputMute { input } => Request::SetInputMuted {
                input: input.clone(),
                muted: value,
            },
            FlagTarget::Filter { source, filter } => Request::SetFilterEnabled {
                source: source.clone(),
                filter: filter.clone(),
                enabled: value,
            },
            FlagTarget::StudioMode => Request::SetStudioModeEnabled { enabled: value },
        }
    }
}

fn item_request_of(scene: &String, item_id: i64, op: ItemOp) -> (q: Request)
    ensures
        q == item_request(*scene, item_id, op),
{
    let scene = scene.clone();
    match op {
        ItemOp::Remove => Request::RemoveSceneItem { scene, item_id },
        ItemOp::Duplicate => Request::DuplicateSceneItem { scene, item_id },
        ItemOp::SetEnabled { enabled } => Request::SetSceneItemEnabled { scene, item_id, enabled },
        ItemOp::ToggleEnabled => Request::SceneItemEnabled { scene, item_id },
        ItemOp::SetLocked { locked } => Request::SetSceneItemLocked { scene, item_id, locked },
        ItemOp::GetTransform => Request::SceneItemTransform { scene, item_id },
        ItemOp::SetTransform => Request::SetSceneItemTransform { scene, item_id },
        ItemOp::GetIndex => Request::SceneItemIndex { scene, item_id },
        ItemOp::SetIndex { index } => Request::SetSceneItemIndex { scene, item_id, index },
        ItemOp::GetBlendMode => Request::SceneItemBlendMode { scene, item_id },
        ItemOp::SetBlendMode { mode } => Request::SetSceneItemBlendMode { scene, item_id, mode },
    }
}

fn next_item_step(scene: &String, item_id: i64, op: ItemOp, rs: &Vec<Reply>) -> (s: Step)
    requires
        rs.len() >= 1,
    ensures
        s == item_step(*scene, item_id, op, rs@.skip(1)),
{
    let ghost later = rs@.skip(1);
    if rs.len() == 1 {
        return Step::Send(item_request_of(scene, item_id, op));
    }
    assert(later[0] == rs@[1]);
    match op {
        ItemOp::ToggleEnabled => match &rs[1] {
            Reply::Flag(enabled) => if rs.len() == 2 {
                Step::Send(
                    Request::SetSceneItemEnabled {
                        scene: scene.clone(),
                        item_id,
                        enabled: !*enabled,
                    },
                )
            } else {
                assert(later[1] == rs@[2]);
                Step::Finished(outcome_of(&rs[2]))
            },
            other => Step::Finished(Err(refusal_of(other))),
        },
        _ => Step::Finished(outcome_of(&rs[1])),
    }
}

/// Decides what to do next for `plan`, given the replies to every request it
/// has sent so far, in order. The caller performs each `Send` and appends the
/// reply, until `Finished`.
pub fn next_step(plan: &Plan, replies: &Vec<Reply>) -> (s: Step)
    ensures
        s == step_of(*plan, replies@),
{
    let n = replies.len();
    match plan {
        Plan::Reject(e) => Step::Finished(Err(e.clone_error())),
        Plan::Report => Step::Finished(Ok(())),
        Plan::Call(q) => if n == 0 {
            Step::Send(q.duplicate())
        } else {
            Step::Finished(outcome_of(&replies[0]))
        },
        Plan::Flip(t) => if n == 0 {
            Step::Send(t.read())
        } else {
            match &replies[0] {
                Reply::Flag(current) => if n == 1 {
                    Step::Send(t.write(!*current))
                } else {
                    Step::Finished(outcome_of(&replies[1]))
                },
                other => Step::Finished(Err(refusal_of(other))),
            }
        },
        Plan::CheckRecordingActive => if n == 0 {
            Step::Send(Request::RecordStatus)
        } else {
            match &replies[0] {
                Reply::RecordStatus { active, paused } => if *active && !*paused {
                    Step::Finished(Ok(()))
                } else if !*active {
                    Step::Finished(Err(ObsCmdError::RecordingNotActive))
                } else {
                    Step::Finished(Err(ObsCmdError::RecordingPaused))
                },
                other => Step::Finished(Err(refusal_of(other))),
            }
        },
        Plan::RequireLastReplay => if n == 0 {
            Step::Send(Request::LastReplay)
        } else {
            match &replies[0] {
                Reply::Text(path) => if path.as_str().unicode_len() == 0 {
                    Step::Finished(Err(ObsCmdError::NoLastReplay))
                } else {
                    Step::Finished(Ok(()))
                },
                other => Step::Finished(Err(refusal_of(other))),
            }
        },
        Plan::OnMonitor { index, open } => if n == 0 {
            Step::Send(Request::ListMonitors)
        } else {
            match &replies[0] {
                Reply::MonitorCount(count) => if *count <= *index as u64 {
                    Step::Finished(Err(ObsCmdError::MonitorNotAvailable { index: *index as u32 }))
                } else if n == 1 {
                    Step::Send(open.duplicate())
                } else {
                    Step::Finished(outcome_of(&replies[1]))
                },
                other => Step::Finished(Err(refusal_of(other))),
            }
        },
        Plan::OnItem { address, op } => if n == 0 {
            Step::Send(
                Request::SceneItemId {
                    scene: address.container.clone(),
                    source: address.leaf.clone(),
                },
            )
        } else {
            match &replies[0] {
                Reply::ItemId(item_id) => next_item_step(&address.container, *item_id, *op, replies),
                Reply::NotFound { .. } => Step::Finished(
                    Err(
                        ObsCmdError::ItemNotFound {
                            container: address.container.clone(),
                            leaf: address.leaf.clone(),
                        },
                    ),
                ),
                other => Step::Finished(Err(refusal_of(other))),
            }
        },
    }
}

} // verus!
