//! The fetch/filter/delete control loop as an event-driven state machine.
//!
//! The engine owns the run state and decides, step by step, what the driver
//! should do next: fetch a page, sleep, delete a message, or finish. The
//! driver performs each action (the remote calls and the sleeps) and reports
//! the outcome back as the next event. Transient fetch and delete failures
//! are retried indefinitely after a fixed backoff; the run ends on an empty
//! page, on the configured after-ID boundary, or when the deleted count
//! reaches the configured cap.

use vstd::prelude::*;
use crate::filter::{message_qualifies, spec_qualifies};
use crate::models::{
    clone_opt_string, opt_view, str_views, views_of, Message, MessageView, State, StateView,
};

verus! {

/// Fixed backoff, in milliseconds, before a failed fetch or delete is retried.
pub const RETRY_DELAY_MS: u64 = 5000;

/// Why the run came to its end.
#[derive(Clone, Copy, PartialEq, Eq, Structural, Debug)]
pub enum StopReason {
    /// A fetched page was empty: the channel's history is exhausted.
    EndOfHistory,
    /// A candidate message's ID equals the configured after-ID boundary.
    ReachedBoundary,
    /// The deleted count reached the configured cap.
    ReachedNumber,
}

/// What the engine resumes with once a sleep has elapsed.
#[derive(Clone, Copy, PartialEq, Eq, Structural, Debug)]
pub enum Resume {
    /// Fetch the next page at the current cursor.
    Refetch,
    /// Retry deleting the current candidate.
    RetryDelete,
    /// Move on to the next candidate of the current page.
    NextCandidate,
}

/// Which answer the engine is waiting for.
#[derive(Clone, Copy, PartialEq, Eq, Structural, Debug)]
pub enum Phase {
    /// A fetch was issued; a page or a fetch failure is expected.
    AwaitPage,
    /// A delete was issued for the first pending candidate; its outcome is
    /// expected.
    AwaitDelete,
    /// A sleep was issued; `then` says what follows it.
    Sleeping { then: Resume },
    /// A stop condition was reached; no further event is expected.
    Done,
}

/// What the engine asks the driver to do next.
pub enum Action {
    /// Issue a list-messages request for the page of up to 100 messages
    /// older than `before` (from the newest when `before` is `None`).
    Fetch { channel_id: String, before: Option<String> },
    /// Sleep for `ms` milliseconds, then report back.
    SleepMs { ms: u64 },
    /// Issue a delete request for `message` in `channel_id`.
    Delete { channel_id: String, message: Message },
    /// The run is over; the driver stops with success.
    Finished { reason: StopReason },
}

#[verifier::ext_equal]
pub enum ActionView {
    Fetch { channel_id: Seq<char>, before: Option<Seq<char>> },
    SleepMs { ms: u64 },
    Delete { channel_id: Seq<char>, message: MessageView },
    Finished { reason: StopReason },
}

impl View for Action {
    type V = ActionView;

    open spec fn view(&self) -> ActionView {
        match self {
            Action::Fetch { channel_id, before } => ActionView::Fetch {
                channel_id: channel_id@,
                before: opt_view(*before),
            },
            Action::SleepMs { ms } => ActionView::SleepMs { ms: *ms },
            Action::Delete { channel_id, message } => ActionView::Delete {
                channel_id: channel_id@,
                message: message@,
            },
            Action::Finished { reason } => ActionView::Finished { reason: *reason },
        }
    }
}

/// What the driver reports back after performing an action.
pub enum Event {
    /// The fetch succeeded: one page of messages, newest-first.
    Page { messages: Vec<Message> },
    /// The fetch failed with a transient error.
    FetchFailed,
    /// The delete succeeded.
    DeleteOk,
    /// The delete failed with a transient error.
    DeleteFailed,
    /// The requested sleep has elapsed.
    Slept,
}

#[verifier::ext_equal]
pub enum EventView {
    Page { messages: Seq<MessageView> },
    FetchFailed,
    DeleteOk,
    DeleteFailed,
    Slept,
}

impl View for Event {
    type V = EventView;

    open spec fn view(&self) -> EventView {
        match self {
            Event::Page { messages } => EventView::Page { messages: views_of(messages@) },
            Event::FetchFailed => EventView::FetchFailed,
            Event::DeleteOk => EventView::DeleteOk,
            Event::DeleteFailed => EventView::DeleteFailed,
            Event::Slept => EventView::Slept,
        }
    }
}

/// The control loop of a purge run. The driver executes each returned
/// `Action` and feeds the outcome back as the next `Event` through `step`.
pub struct Engine {
    /// The run state: resolved identity, deleted count, configuration,
    /// credentials.
    pub state: State,
    /// The pagination cursor: the ID of the oldest message of the most
    /// recently fetched non-empty page, or the configured starting point.
    pub cursor: Option<String>,
    /// Qualifying messages of the current page not yet processed, in page
    /// order.
    pub pending: Vec<Message>,
    /// Which answer the engine is waiting for.
    pub phase: Phase,
}

#[verifier::ext_equal]
pub struct EngineView {
    pub state: StateView,
    pub cursor: Option<Seq<char>>,
    pub pending: Seq<MessageView>,
    pub phase: Phase,
}

impl View for Engine {
    type V = EngineView;

    open spec fn view(&self) -> EngineView {
        EngineView {
            state: self.state@,
            cursor: opt_view(self.cursor),
            pending: views_of(self.pending@),
            phase: self.phase,
        }
    }
}

/// The configured deletion cap has been reached by the running count.
pub open spec fn cap_reached(number: Option<u32>, count: u32) -> bool {
    match number {
        Some(n) => count >= n,
        None => false,
    }
}

/// The candidate at the head of the pending queue may be deleted: it is not
/// the boundary message, and it passes the attachments check.
pub open spec fn head_deletable(s: EngineView) -> bool {
    &&& s.pending.len() > 0
    &&& s.state.args.after_id != Some(s.pending[0].id)
    &&& s.state.args.only_attachments ==> s.pending[0].attachments.len() > 0
}

/// Every pending candidate passed the page-stage filter predicate.
pub open spec fn pending_qualify(s: EngineView) -> bool {
    forall|j: int|
        0 <= j < s.pending.len() ==> spec_qualifies(
            #[trigger] s.pending[j],
            s.state.user_id.unwrap(),
            s.state.args.filter,
        )
}

/// Well-formedness of the engine between steps.
pub open spec fn wf(s: EngineView) -> bool {
    &&& s.state.user_id is Some
    &&& pending_qualify(s)
    &&& (s.phase is AwaitDelete || s.phase == (Phase::Sleeping { then: Resume::RetryDelete }))
        ==> head_deletable(s)
    &&& cap_reached(s.state.args.number, s.state.deleted_count) ==> s.phase is Done
}

/// The page-stage filter: the subsequence of `msgs` whose members qualify,
/// in order.
pub open spec fn qualifying(
    msgs: Seq<MessageView>,
    self_id: Seq<char>,
    filters: Seq<Seq<char>>,
) -> Seq<MessageView>
    decreases msgs.len(),
{
    if msgs.len() == 0 {
        Seq::empty()
    } else {
        let rest = qualifying(msgs.drop_last(), self_id, filters);
        if spec_qualifies(msgs.last(), self_id, filters) {
            rest.push(msgs.last())
        } else {
            rest
        }
    }
}

/// One advance through the pending queue: candidates the attachments check
/// excludes are skipped, the boundary candidate finishes the run, any other
/// candidate is asked to be deleted; with the queue exhausted, the engine
/// paces and refetches.
pub open spec fn advance_spec(s: EngineView) -> (EngineView, ActionView)
    decreases s.pending.len(),
{
    if s.pending.len() == 0 {
        (
            EngineView { phase: Phase::Sleeping { then: Resume::Refetch }, ..s },
            ActionView::SleepMs { ms: s.state.args.fetch_delay as u64 },
        )
    } else if s.state.args.after_id == Some(s.pending[0].id) {
        (
            EngineView { phase: Phase::Done, ..s },
            ActionView::Finished { reason: StopReason::ReachedBoundary },
        )
    } else if s.state.args.only_attachments && s.pending[0].attachments.len() == 0 {
        advance_spec(EngineView { pending: s.pending.drop_first(), ..s })
    } else {
        (
            EngineView { phase: Phase::AwaitDelete, ..s },
            ActionView::Delete { channel_id: s.state.args.channel_id, message: s.pending[0] },
        )
    }
}

/// The complete transition: the engine's next state and the next action, for
/// one event.
pub open spec fn step_spec(pre: EngineView, e: EventView) -> (EngineView, ActionView) {
    match e {
        EventView::Page { messages } => {
            if messages.len() == 0 {
                (
                    EngineView { phase: Phase::Done, ..pre },
                    ActionView::Finished { reason: StopReason::EndOfHistory },
                )
            } else {
                advance_spec(
                    EngineView {
                        cursor: Some(messages.last().id),
                        pending: qualifying(
                            messages,
                            pre.state.user_id.unwrap(),
                            pre.state.args.filter,
                        ),
                        ..pre
                    },
                )
            }
        },
        EventView::FetchFailed => (
            EngineView { phase: Phase::Sleeping { then: Resume::Refetch }, ..pre },
            ActionView::SleepMs { ms: RETRY_DELAY_MS },
        ),
        EventView::DeleteOk => {
            let count = (pre.state.deleted_count + 1) as u32;
            let s2 = EngineView {
                state: StateView { deleted_count: count, ..pre.state },
                pending: pre.pending.drop_first(),
                ..pre
            };
            if cap_reached(pre.state.args.number, count) {
                (
                    EngineView { phase: Phase::Done, ..s2 },
                    ActionView::Finished { reason: StopReason::ReachedNumber },
                )
            } else {
                (
                    EngineView { phase: Phase::Sleeping { then: Resume::NextCandidate }, ..s2 },
                    ActionView::SleepMs { ms: pre.state.args.delete_delay as u64 },
                )
            }
        },
        EventView::DeleteFailed => (
            EngineView { phase: Phase::Sleeping { then: Resume::RetryDelete }, ..pre },
            ActionView::SleepMs { ms: RETRY_DELAY_MS },
        ),
        EventView::Slept => match pre.phase {
            Phase::Sleeping { then: Resume::Refetch } => (
                EngineView { phase: Phase::AwaitPage, ..pre },
                ActionView::Fetch { channel_id: pre.state.args.channel_id, before: pre.cursor },
            ),
            Phase::Sleeping { then: Resume::RetryDelete } => (
                EngineView { phase: Phase::AwaitDelete, ..pre },
                ActionView::Delete {
                    channel_id: pre.state.args.channel_id,
                    message: pre.pending[0],
                },
            ),
            _ => advance_spec(pre),
        },
    }
}

/// Which events answer the engine's last action.
pub open spec fn expects(s: EngineView, e: EventView) -> bool {
    match s.phase {
        Phase::AwaitPage => e is Page || e is FetchFailed,
        Phase::AwaitDelete => e is DeleteOk || e is DeleteFailed,
        Phase::Sleeping { .. } => e is Slept,
        Phase::Done => false,
    }
}

/// What `advance_spec` guarantees: the resulting engine is well formed, the
/// run state and cursor are untouched, no fetch is issued, and any delete it
/// asks for is of a qualifying, non-boundary candidate that passes the
/// attachments check.
proof fn lemma_advance_spec(s: EngineView)
    requires
        s.state.user_id is Some,
        pending_qualify(s),
        !cap_reached(s.state.args.number, s.state.deleted_count),
    ensures
        wf(advance_spec(s).0),
        advance_spec(s).0.state == s.state,
        advance_spec(s).0.cursor == s.cursor,
        !(advance_spec(s).1 is Fetch),
        advance_spec(s).1 matches ActionView::Delete { message, channel_id } ==> {
            &&& channel_id == s.state.args.channel_id
            &&& s.state.args.after_id != Some(message.id)
            &&& (s.state.args.only_attachments ==> message.attachments.len() > 0)
            &&& spec_qualifies(message, s.state.user_id.unwrap(), s.state.args.filter)
        },
    decreases s.pending.len(),
{
    if s.pending.len() == 0 {
    } else if s.state.args.after_id == Some(s.pending[0].id) {
    } else if s.state.args.only_attachments && s.pending[0].attachments.len() == 0 {
        let s2 = EngineView { pending: s.pending.drop_first(), ..s };
        assert(pending_qualify(s2)) by {
            assert(forall|j: int|
                0 <= j < s2.pending.len() ==> s2.pending[j] == s.pending[j + 1]);
        }
        lemma_advance_spec(s2);
    } else {
    }
}

impl Engine {
    /// Starts a run from a state whose identity is resolved and whose
    /// counter is below any configured cap: the engine begins by fetching
    /// the first page at the configured starting cursor.
    pub fn new(state: State) -> (r: (Engine, Action))
        requires
            state@.user_id is Some,
            !cap_reached(state@.args.number, state@.deleted_count),
        ensures
            wf(r.0@),
            r.0@.state == state@,
            r.0@.cursor == state@.args.before_id,
            r.0@.pending == Seq::<MessageView>::empty(),
            r.0@.phase == Phase::AwaitPage,
            r.1@ == (ActionView::Fetch {
                channel_id: state@.args.channel_id,
                before: state@.args.before_id,
            }),
    {
        let channel_id = state.args.channel_id.clone();
        let before = clone_opt_string(&state.args.before_id);
        let cursor = clone_opt_string(&state.args.before_id);
        let engine = Engine { state, cursor, pending: Vec::new(), phase: Phase::AwaitPage };
        proof {
            assert(engine@.pending =~= Seq::<MessageView>::empty());
        }
        (engine, Action::Fetch { channel_id, before })
    }

    /// Walks the pending queue to the next action, as `advance_spec` says.
    fn advance(&mut self) -> (a: Action)
        requires
            old(self)@.state.user_id is Some,
            pending_qualify(old(self)@),
            !cap_reached(old(self)@.state.args.number, old(self)@.state.deleted_count),
        ensures
            final(self)@ == advance_spec(old(self)@).0,
            a@ == advance_spec(old(self)@).1,
            wf(final(self)@),
    {
        proof {
            lemma_advance_spec(old(self)@);
        }
        let ghost pre = old(self)@;
        loop
            invariant
                pre == old(self)@,
                self@.state.user_id is Some,
                pending_qualify(self@),
                !cap_reached(self@.state.args.number, self@.state.deleted_count),
                advance_spec(self@) == advance_spec(pre),
                self@.state == pre.state,
                self@.cursor == pre.cursor,
                self@.phase == pre.phase,
            decreases self@.pending.len(),
        {
            let ghost s = self@;
            if self.pending.len() == 0 {
                self.phase = Phase::Sleeping { then: Resume::Refetch };
                proof {
                    assert(self@ =~= advance_spec(s).0);
                }
                return Action::SleepMs { ms: self.state.args.fetch_delay as u64 };
            }
            let is_boundary = match &self.state.args.after_id {
                Some(boundary) => *boundary == self.pending[0].id,
                None => false,
            };
            if is_boundary {
                self.phase = Phase::Done;
                proof {
                    assert(self@ =~= advance_spec(s).0);
                }
                return Action::Finished { reason: StopReason::ReachedBoundary };
            }
            if self.state.args.only_attachments && self.pending[0].attachments.len() == 0 {
                let ghost before_skip = self@;
                let skipped = self.pending.remove(0);
                proof {
                    assert(self@.pending =~= before_skip.pending.drop_first());
                    assert(self@ =~= (EngineView {
                        pending: before_skip.pending.drop_first(),
                        ..before_skip
                    }));
                    assert(pending_qualify(self@)) by {
                        assert(forall|j: int|
                            0 <= j < self@.pending.len()
                                ==> self@.pending[j] == before_skip.pending[j + 1]);
                    }
                }
            } else {
                let message = self.pending[0].dup();
                self.phase = Phase::AwaitDelete;
                let action = Action::Delete {
                    channel_id: self.state.args.channel_id.clone(),
                    message,
                };
                proof {
                    assert(self@ =~= advance_spec(s).0);
                    assert(action@ =~= advance_spec(s).1);
                }
                return action;
            }
        }
    }

    /// Feeds the outcome of the last action back and returns the next
    /// action, exactly as the transition `step_spec` describes.
    pub fn step(&mut self, e: Event) -> (a: Action)
        requires
            wf(old(self)@),
            expects(old(self)@, e@),
            e@ is DeleteOk ==> old(self)@.state.deleted_count < u32::MAX,
        ensures
            final(self)@ == step_spec(old(self)@, e@).0,
            a@ == step_spec(old(self)@, e@).1,
            wf(final(self)@),
    {
        let ghost pre = old(self)@;
        match e {
            Event::Page { messages } => {
                let ghost gmsgs = views_of(messages@);
                if messages.len() == 0 {
                    self.phase = Phase::Done;
                    Action::Finished { reason: StopReason::EndOfHistory }
                } else {
                    let ghost uid = pre.state.user_id.unwrap();
                    let ghost gfilters = pre.state.args.filter;
                    self.cursor = Some(messages[messages.len() - 1].id.clone());
                    let user_id = match &self.state.user_id {
                        Some(u) => u.clone(),
                        None => vstd::pervasive::unreached(),
                    };
                    let mut pending: Vec<Message> = Vec::new();
                    let mut i: usize = 0;
                    while i < messages.len()
                        invariant
                            i <= messages.len(),
                            user_id@ == uid,
                            gmsgs == views_of(messages@),
                            gmsgs.len() == messages@.len(),
                            self@.state.args.filter == gfilters,
                            str_views(self.state.args.filter@) == gfilters,
                            views_of(pending@) == qualifying(
                                gmsgs.take(i as int),
                                uid,
                                gfilters,
                            ),
                        decreases messages.len() - i,
                    {
                        let ghost prefix = gmsgs.take(i as int);
                        if message_qualifies(&messages[i], &user_id, &self.state.args.filter) {
                            pending.push(messages[i].dup());
                        }
                        i += 1;
                        proof {
                            assert(gmsgs.take(i as int).drop_last() =~= prefix);
                            assert(gmsgs.take(i as int).last() == gmsgs[i - 1]);
                            if spec_qualifies(gmsgs[i - 1], uid, gfilters) {
                                assert(views_of(pending@) =~= qualifying(prefix, uid, gfilters)
                                    .push(gmsgs[i - 1]));
                            } else {
                                assert(views_of(pending@) =~= qualifying(prefix, uid, gfilters));
                            }
                        }
                    }
                    self.pending = pending;
                    proof {
                        assert(gmsgs.take(gmsgs.len() as int) =~= gmsgs);
                        let mid = EngineView {
                            cursor: Some(gmsgs.last().id),
                            pending: qualifying(gmsgs, uid, gfilters),
                            ..pre
                        };
                        assert(self@ =~= mid);
                        assert(pending_qualify(self@)) by {
                            lemma_qualifying_qualify(gmsgs, uid, gfilters);
                        }
                        assert(!cap_reached(self@.state.args.number, self@.state.deleted_count));
                    }
                    self.advance()
                }
            },
            Event::FetchFailed => {
                self.phase = Phase::Sleeping { then: Resume::Refetch };
                proof {
                    assert(self@ =~= step_spec(pre, e@).0);
                }
                Action::SleepMs { ms: RETRY_DELAY_MS }
            },
            Event::DeleteOk => {
                self.state.deleted_count = self.state.deleted_count + 1;
                let removed = self.pending.remove(0);
                let capped = match self.state.args.number {
                    Some(n) => self.state.deleted_count >= n,
                    None => false,
                };
                proof {
                    assert(self@.pending =~= pre.pending.drop_first());
                    assert(pending_qualify(self@)) by {
                        assert(forall|j: int|
                            0 <= j < self@.pending.len()
                                ==> self@.pending[j] == pre.pending[j + 1]);
                    }
                }
                if capped {
                    self.phase = Phase::Done;
                    proof {
                        assert(self@ =~= step_spec(pre, e@).0);
                    }
                    Action::Finished { reason: StopReason::ReachedNumber }
                } else {
                    self.phase = Phase::Sleeping { then: Resume::NextCandidate };
                    proof {
                        assert(self@ =~= step_spec(pre, e@).0);
                    }
                    Action::SleepMs { ms: self.state.args.delete_delay as u64 }
                }
            },
            Event::DeleteFailed => {
                self.phase = Phase::Sleeping { then: Resume::RetryDelete };
                proof {
                    assert(self@ =~= step_spec(pre, e@).0);
                }
                Action::SleepMs { ms: RETRY_DELAY_MS }
            },
            Event::Slept => match self.phase {
                Phase::Sleeping { then: Resume::Refetch } => {
                    self.phase = Phase::AwaitPage;
                    proof {
                        assert(self@ =~= step_spec(pre, e@).0);
                    }
                    Action::Fetch {
                        channel_id: self.state.args.channel_id.clone(),
                        before: clone_opt_string(&self.cursor),
                    }
                },
                Phase::Sleeping { then: Resume::RetryDelete } => {
                    self.phase = Phase::AwaitDelete;
                    let message = self.pending[0].dup();
                    proof {
                        assert(self@ =~= step_spec(pre, e@).0);
                    }
                    Action::Delete {
                        channel_id: self.state.args.channel_id.clone(),
                        message,
                    }
                },
                _ => self.advance(),
            },
        }
    }
}

/// Law (cursor monotonicity): every fetch the engine issues carries the
/// current cursor, and the cursor moves only when a non-empty page arrives,
/// to the ID of that page's last (oldest) message — so each subsequent fetch
/// request asks for messages older than the page before it.
pub proof fn lemma_cursor_monotonic(pre: EngineView, e: EventView)
    requires
        wf(pre),
        expects(pre, e),
        e is DeleteOk ==> pre.state.deleted_count < u32::MAX,
    ensures
        step_spec(pre, e).1 matches ActionView::Fetch { before, .. } ==> before == pre.cursor,
        step_spec(pre, e).0.cursor == pre.cursor || (e matches EventView::Page { messages }
            && messages.len() > 0 && step_spec(pre, e).0.cursor == Some(messages.last().id)),
{
    if e is Page && e->messages.len() > 0 {
        let messages = e->messages;
        let mid = EngineView {
            cursor: Some(messages.last().id),
            pending: qualifying(messages, pre.state.user_id.unwrap(), pre.state.args.filter),
            ..pre
        };
        lemma_qualifying_qualify(messages, pre.state.user_id.unwrap(), pre.state.args.filter);
        lemma_advance_spec(mid);
    }
    if e is Slept && pre.phase == (Phase::Sleeping { then: Resume::NextCandidate }) {
        lemma_advance_spec(pre);
    }
}

/// Law (idempotent termination): once the deleted count has reached the
/// configured cap, the engine is done: it expects no further event, so no
/// further fetch or delete request is ever issued.
pub proof fn lemma_cap_stops_run(s: EngineView, e: EventView)
    requires
        wf(s),
        cap_reached(s.state.args.number, s.state.deleted_count),
    ensures
        s.phase is Done,
        !expects(s, e),
{
}

/// Law (boundary exclusivity): the engine never asks the driver to delete
/// the message whose ID equals the configured after-ID boundary.
pub proof fn lemma_boundary_never_deleted(pre: EngineView, e: EventView)
    requires
        wf(pre),
        expects(pre, e),
        e is DeleteOk ==> pre.state.deleted_count < u32::MAX,
    ensures
        step_spec(pre, e).1 matches ActionView::Delete { message, .. }
            ==> pre.state.args.after_id != Some(message.id),
{
    lemma_delete_actions_checked(pre, e);
}

/// Law (attachments filter): with only-attachments configured, the engine
/// never asks for deletion of a message with an empty attachment list; and
/// the deleted count changes only when a delete succeeds, by exactly one.
pub proof fn lemma_attachments_respected(pre: EngineView, e: EventView)
    requires
        wf(pre),
        expects(pre, e),
        e is DeleteOk ==> pre.state.deleted_count < u32::MAX,
    ensures
        step_spec(pre, e).1 matches ActionView::Delete { message, .. }
            ==> (pre.state.args.only_attachments ==> message.attachments.len() > 0),
        step_spec(pre, e).0.state.deleted_count == pre.state.deleted_count || (e is DeleteOk
            && step_spec(pre, e).0.state.deleted_count == pre.state.deleted_count + 1),
{
    lemma_delete_actions_checked(pre, e);
}

/// Law: every message the engine asks the driver to delete passed the
/// filter predicate — it was authored by the resolved identity or its
/// content is hit by a configured filter string.
pub proof fn lemma_deletes_qualify(pre: EngineView, e: EventView)
    requires
        wf(pre),
        expects(pre, e),
        e is DeleteOk ==> pre.state.deleted_count < u32::MAX,
    ensures
        step_spec(pre, e).1 matches ActionView::Delete { message, .. } ==> spec_qualifies(
            message,
            pre.state.user_id.unwrap(),
            pre.state.args.filter,
        ),
{
    lemma_delete_actions_checked(pre, e);
}

/// Every delete request the transition emits is for a candidate that passed
/// the filter predicate, the boundary check and the attachments check.
proof fn lemma_delete_actions_checked(pre: EngineView, e: EventView)
    requires
        wf(pre),
        expects(pre, e),
        e is DeleteOk ==> pre.state.deleted_count < u32::MAX,
    ensures
        step_spec(pre, e).1 matches ActionView::Delete { message, .. } ==> {
            &&& pre.state.args.after_id != Some(message.id)
            &&& (pre.state.args.only_attachments ==> message.attachments.len() > 0)
            &&& spec_qualifies(message, pre.state.user_id.unwrap(), pre.state.args.filter)
        },
        step_spec(pre, e).0.state.deleted_count == pre.state.deleted_count || (e is DeleteOk
            && step_spec(pre, e).0.state.deleted_count == pre.state.deleted_count + 1),
{
    if e is Page && e->messages.len() > 0 {
        let messages = e->messages;
        let mid = EngineView {
            cursor: Some(messages.last().id),
            pending: qualifying(messages, pre.state.user_id.unwrap(), pre.state.args.filter),
            ..pre
        };
        lemma_qualifying_qualify(messages, pre.state.user_id.unwrap(), pre.state.args.filter);
        lemma_advance_spec(mid);
    }
    if e is Slept && pre.phase == (Phase::Sleeping { then: Resume::NextCandidate }) {
        lemma_advance_spec(pre);
    }
}

/// Every member of the filtered page qualifies.
proof fn lemma_qualifying_qualify(msgs: Seq<MessageView>, self_id: Seq<char>, filters: Seq<Seq<char>>)
    ensures
        forall|j: int|
            0 <= j < qualifying(msgs, self_id, filters).len() ==> spec_qualifies(
                #[trigger] qualifying(msgs, self_id, filters)[j],
                self_id,
                filters,
            ),
    decreases msgs.len(),
{
    if msgs.len() > 0 {
        let rest = qualifying(msgs.drop_last(), self_id, filters);
        lemma_qualifying_qualify(msgs.drop_last(), self_id, filters);
        let q = qualifying(msgs, self_id, filters);
        assert forall|j: int| 0 <= j < q.len() implies spec_qualifies(
            q[j],
            self_id,
            filters,
        ) by {
            if spec_qualifies(msgs.last(), self_id, filters) {
                assert(q == rest.push(msgs.last()));
                if j < rest.len() {
                    assert(q[j] == rest[j]);
                } else {
                    assert(q[j] == msgs.last());
                }
            } else {
                assert(q == rest);
            }
        }
    }
}

} // verus!
