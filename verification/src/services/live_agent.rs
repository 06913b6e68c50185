//! The decisions of the live agent bridge: how each message from the agent
//! is answered and reported to the front end, and how pending tool
//! permission requests are tracked and resolved.
//!
//! The bridge's event loop receives a message, asks [`ApprovalBook::step`]
//! what to do, performs the reply and emits the event; when the user answers
//! an approval, [`ApprovalBook::respond`] says what to send back.

use vstd::prelude::*;

use crate::domain::chat::{FrontendEvent, FrontendEventKind, FrontendEventView};
use crate::services::agent_client::{approval_decision_view, ApprovalDecision};
use crate::text::{decimal_view, push_decimal, str_equal, to_string};

verus! {

/// The kinds of option a permission request offers.
#[derive(Debug, Clone, Copy, PartialEq, Eq)]
pub enum PermissionOptionKind {
    AllowOnce,
    AllowAlways,
    RejectOnce,
    RejectAlways,
}

/// One option of a permission request.
#[derive(Debug, Clone, PartialEq, Eq)]
pub struct PermissionOption {
    pub option_id: String,
    pub kind: PermissionOptionKind,
}

/// The abstract value of a [`PermissionOption`].
pub struct PermissionOptionView {
    pub option_id: Seq<char>,
    pub kind: PermissionOptionKind,
}

impl View for PermissionOption {
    type V = PermissionOptionView;

    open spec fn view(&self) -> PermissionOptionView {
        PermissionOptionView { option_id: self.option_id@, kind: self.kind }
    }
}

/// The abstract value of a list of options.
pub open spec fn options_view(v: Seq<PermissionOption>) -> Seq<PermissionOptionView> {
    v.map_values(|o: PermissionOption| o@)
}

/// The answer to a permission request.
#[derive(Debug, Clone, PartialEq, Eq)]
pub enum PermissionOutcome {
    /// The option with this id was selected.
    Selected(String),
    /// The request was cancelled.
    Cancelled,
}

/// The abstract value of a [`PermissionOutcome`].
pub enum PermissionOutcomeView {
    Selected(Seq<char>),
    Cancelled,
}

impl View for PermissionOutcome {
    type V = PermissionOutcomeView;

    open spec fn view(&self) -> PermissionOutcomeView {
        match self {
            PermissionOutcome::Selected(id) => PermissionOutcomeView::Selected(id@),
            PermissionOutcome::Cancelled => PermissionOutcomeView::Cancelled,
        }
    }
}

/// A message from the agent, as the bridge's event loop receives it.
#[derive(Debug, Clone, PartialEq, Eq)]
pub enum ClientMessage {
    /// A session notification; carries the text of an agent message chunk
    /// when it is one.
    SessionUpdate { text_chunk: Option<String> },
    /// A tool asks for permission.
    RequestPermission { options: Vec<PermissionOption> },
    /// An extension notification.
    ExtNotification,
    /// A file, terminal or extension method the desktop does not serve.
    UnsupportedRequest,
}

/// How the bridge answers a message.
#[derive(Debug, Clone, PartialEq, Eq)]
pub enum ClientReply {
    /// Acknowledge the notification.
    Acknowledge,
    /// Refuse the request: method not found.
    MethodNotFound,
    /// Hold the request until the user answers the approval with this id.
    AwaitDecision(String),
}

/// The abstract value of a [`ClientReply`].
pub enum ClientReplyView {
    Acknowledge,
    MethodNotFound,
    AwaitDecision(Seq<char>),
}

impl View for ClientReply {
    type V = ClientReplyView;

    open spec fn view(&self) -> ClientReplyView {
        match self {
            ClientReply::Acknowledge => ClientReplyView::Acknowledge,
            ClientReply::MethodNotFound => ClientReplyView::MethodNotFound,
            ClientReply::AwaitDecision(id) => ClientReplyView::AwaitDecision(id@),
        }
    }
}

/// What the bridge does for one message: the event to emit, if any, and the
/// reply to the agent.
pub struct StepOutput {
    pub event: Option<FrontendEvent>,
    pub reply: ClientReply,
}

/// The abstract value of an optional event.
pub open spec fn opt_event_view(e: Option<FrontendEvent>) -> Option<FrontendEventView> {
    match e {
        Some(e) => Some(e@),
        None => None,
    }
}

/// A pending permission request: its approval id and the options it offers.
pub struct PendingApprovalView {
    pub id: Seq<char>,
    pub options: Seq<PermissionOptionView>,
}

/// The abstract state of the approval book.
pub struct ApprovalBookView {
    pub pending: Seq<PendingApprovalView>,
    pub next_id: u64,
}

struct PendingApproval {
    id: String,
    options: Vec<PermissionOption>,
}

/// The permission requests waiting for the user, and the counter that
/// numbers new ones.
pub struct ApprovalBook {
    pending: Vec<PendingApproval>,
    next_id: u64,
}

spec fn pending_view(p: PendingApproval) -> PendingApprovalView {
    PendingApprovalView { id: p.id@, options: options_view(p.options@) }
}

spec fn pending_seq(v: Seq<PendingApproval>) -> Seq<PendingApprovalView> {
    v.map_values(|p: PendingApproval| pending_view(p))
}

impl View for ApprovalBook {
    type V = ApprovalBookView;

    closed spec fn view(&self) -> ApprovalBookView {
        ApprovalBookView { pending: pending_seq(self.pending@), next_id: self.next_id }
    }
}

/// The approval id for counter value `n`: `approval-<n>`.
pub open spec fn approval_id_view(n: u64) -> Seq<char> {
    "approval-"@ + decimal_view(n as nat)
}

/// Whether a request with this id is pending.
pub open spec fn has_pending(s: Seq<PendingApprovalView>, id: Seq<char>) -> bool {
    exists|i: int| 0 <= i < s.len() && #[trigger] s[i].id == id
}

/// The position of the pending request with this id.
pub open spec fn pending_index(s: Seq<PendingApprovalView>, id: Seq<char>) -> int {
    choose|i: int| 0 <= i < s.len() && #[trigger] s[i].id == id
}

/// No two pending requests share an id.
pub open spec fn ids_distinct(s: Seq<PendingApprovalView>) -> bool {
    forall|i: int, j: int| 0 <= i < s.len() && 0 <= j < s.len() && i != j ==> #[trigger] s[i].id
        != #[trigger] s[j].id
}

/// The pending requests without the one with this id.
pub open spec fn without_id(s: Seq<PendingApprovalView>, id: Seq<char>) -> Seq<PendingApprovalView> {
    if has_pending(s, id) {
        s.remove(pending_index(s, id))
    } else {
        s
    }
}

/// The id of the first one-time allowance among the options.
pub open spec fn first_allow_once(options: Seq<PermissionOptionView>) -> Option<Seq<char>>
    decreases options.len(),
{
    if options.len() == 0 {
        None
    } else if options[0].kind == PermissionOptionKind::AllowOnce {
        Some(options[0].option_id)
    } else {
        first_allow_once(options.drop_first())
    }
}

/// Whether the options offer a one-time allowance.
pub open spec fn offers_allow_once(options: Seq<PermissionOptionView>) -> bool {
    exists|i: int| 0 <= i < options.len() && #[trigger] options[i].kind == PermissionOptionKind::AllowOnce
}

/// The answer to a permission request: an approval selects the first
/// one-time allowance; without one, and on a refusal, it is cancelled.
pub open spec fn outcome_view(options: Seq<PermissionOptionView>, approved: bool) -> PermissionOutcomeView {
    if approved {
        match first_allow_once(options) {
            Some(id) => PermissionOutcomeView::Selected(id),
            None => PermissionOutcomeView::Cancelled,
        }
    } else {
        PermissionOutcomeView::Cancelled
    }
}

/// The event that announces a pending approval.
pub open spec fn approval_event_view(id: Seq<char>) -> FrontendEventView {
    FrontendEventView {
        kind: FrontendEventKind::ApprovalRequested,
        text: Some("Tool requests permission"@),
        approval_id: Some(id),
        approved: false,
    }
}

/// Why an approval answer was refused.
#[derive(Debug, Clone, Copy, PartialEq, Eq)]
pub enum ApprovalError {
    /// No request with this id is waiting.
    NotPending,
}

impl ApprovalError {
    /// The message reported to the caller.
    pub fn message(&self) -> (r: &'static str)
        ensures
            r@ == "approval request is no longer pending"@,
    {
        "approval request is no longer pending"
    }
}

/// The event for a session that was started.
pub open spec fn session_changed_view(session_id: Seq<char>) -> FrontendEventView {
    FrontendEventView {
        kind: FrontendEventKind::SessionChanged,
        text: Some(session_id),
        approval_id: None,
        approved: false,
    }
}

/// The event for a prompt the agent could not take.
pub open spec fn prompt_failed_view(error: Seq<char>) -> FrontendEventView {
    FrontendEventView {
        kind: FrontendEventKind::Error,
        text: Some(error),
        approval_id: None,
        approved: false,
    }
}

/// Announces that a session was started.
pub fn session_changed_event(session_id: &str) -> (r: FrontendEvent)
    ensures
        r@ == session_changed_view(session_id@),
{
    FrontendEvent {
        kind: FrontendEventKind::SessionChanged,
        text: Some(to_string(session_id)),
        approval_id: None,
        approved: false,
    }
}

/// Reports that a prompt failed.
pub fn prompt_failed_event(error: &str) -> (r: FrontendEvent)
    ensures
        r@ == prompt_failed_view(error@),
{
    FrontendEvent {
        kind: FrontendEventKind::Error,
        text: Some(to_string(error)),
        approval_id: None,
        approved: false,
    }
}

/// Renders `approval-<n>`.
pub fn approval_id(n: u64) -> (r: String)
    ensures
        r@ == approval_id_view(n),
{
    let mut r = to_string("approval-");
    push_decimal(&mut r, n);
    r
}

/// Selects the answer for a permission request.
pub fn permission_outcome(options: &Vec<PermissionOption>, approved: bool) -> (r: PermissionOutcome)
    ensures
        r@ == outcome_view(options_view(options@), approved),
{
    if !approved {
        return PermissionOutcome::Cancelled;
    }
    let n = options.len();
    let mut i: usize = 0;
    assert(options_view(options@).skip(0) =~= options_view(options@));
    while i < n
        invariant
            approved,
            n == options@.len(),
            i <= n,
            first_allow_once(options_view(options@)) == first_allow_once(
                options_view(options@).skip(i as int),
            ),
        decreases n - i,
    {
        let ghost rest = options_view(options@).skip(i as int);
        assert(rest.drop_first() =~= options_view(options@).skip(i + 1));
        assert(rest[0] == options[i as int]@);
        if matches!(options[i].kind, PermissionOptionKind::AllowOnce) {
            assert(rest.len() > 0);
            assert(first_allow_once(rest) == Some(rest[0].option_id));
            let id = to_string(options[i].option_id.as_str());
            return PermissionOutcome::Selected(id);
        }
        i = i + 1;
    }
    PermissionOutcome::Cancelled
}

fn find_pending(pending: &Vec<PendingApproval>, id: &str) -> (r: Option<usize>)
    ensures
        match r {
            Some(i) => i < pending@.len() && pending_seq(pending@)[i as int].id == id@,
            None => !has_pending(pending_seq(pending@), id@),
        },
{
    let n = pending.len();
    let mut i: usize = 0;
    while i < n
        invariant
            n == pending@.len(),
            i <= n,
            forall|k: int| 0 <= k < i ==> #[trigger] pending_seq(pending@)[k].id != id@,
        decreases n - i,
    {
        if str_equal(pending[i].id.as_str(), id) {
            return Some(i);
        }
        i = i + 1;
    }
    None
}

impl ApprovalBook {
    /// The state the bookkeeping upholds: pending ids are distinct.
    #[verifier::type_invariant]
    spec fn ids_are_distinct(self) -> bool {
        ids_distinct(self@.pending)
    }

    /// No pending request; the first approval id is `approval-1`.
    pub fn new() -> (r: Self)
        ensures
            r@.pending == Seq::<PendingApprovalView>::empty(),
            r@.next_id == 1,
    {
        let r = ApprovalBook { pending: Vec::new(), next_id: 1 };
        assert(r@.pending =~= Seq::<PendingApprovalView>::empty());
        r
    }

    /// Registers a permission request under a fresh approval id and returns
    /// that id. A request already filed under the same id is replaced.
    pub fn register(&mut self, options: Vec<PermissionOption>) -> (r: String)
        ensures
            ids_distinct(final(self)@.pending),
            r@ == approval_id_view(old(self)@.next_id),
            final(self)@.next_id == old(self)@.next_id.wrapping_add(1),
            final(self)@.pending == without_id(old(self)@.pending, r@).push(
                PendingApprovalView { id: r@, options: options_view(options@) },
            ),
    {
        proof {
            use_type_invariant(&*self);
        }
        let id = approval_id(self.next_id);
        self.next_id = self.next_id.wrapping_add(1);
        let ghost before = self@.pending;
        proof {
            lemma_answered_approval_is_gone(before, id@);
        }
        let mut pending: Vec<PendingApproval> = Vec::new();
        std::mem::swap(&mut pending, &mut self.pending);
        assert(pending_seq(pending@) == before);
        match find_pending(&pending, id.as_str()) {
            Some(i) => {
                proof {
                    assert(has_pending(before, id@));
                    let j = pending_index(before, id@);
                    assert(j == i as int);
                }
                pending.remove(i);
                assert(pending_seq(pending@) =~= before.remove(i as int));
            },
            None => {},
        }
        let ghost removed = pending_seq(pending@);
        let ghost entry = PendingApprovalView { id: id@, options: options_view(options@) };
        assert(removed == without_id(before, id@));
        pending.push(PendingApproval { id: to_string(id.as_str()), options });
        assert(pending_seq(pending@) =~= removed.push(entry));
        assert forall|k: int| 0 <= k < removed.len() implies #[trigger] removed[k].id != id@ by {
            assert(!has_pending(removed, id@));
        }
        assert(ids_distinct(removed.push(entry)));
        self.pending = pending;
        id
    }

    /// Answers the user's decision on a pending approval: the request leaves
    /// the book and the outcome to send is returned. An id that is not
    /// pending is refused and nothing changes.
    pub fn respond(&mut self, approval_id: &str, approved: bool) -> (r: Result<
        PermissionOutcome,
        ApprovalError,
    >)
        ensures
            ids_distinct(final(self)@.pending),
            final(self)@.next_id == old(self)@.next_id,
            !has_pending(final(self)@.pending, approval_id@),
            forall|other: Seq<char>|
                other != approval_id@ ==> (has_pending(final(self)@.pending, other) <==> has_pending(
                    old(self)@.pending,
                    other,
                )),
            has_pending(old(self)@.pending, approval_id@) ==> {
                &&& r is Ok
                &&& r->Ok_0@ == outcome_view(
                    old(self)@.pending[pending_index(old(self)@.pending, approval_id@)].options,
                    approved,
                )
                &&& final(self)@.pending == without_id(old(self)@.pending, approval_id@)
            },
            !has_pending(old(self)@.pending, approval_id@) ==> {
                &&& r == Err::<PermissionOutcome, ApprovalError>(ApprovalError::NotPending)
                &&& final(self)@ == old(self)@
            },
    {
        proof {
            use_type_invariant(&*self);
        }
        let ghost before = self@.pending;
        proof {
            lemma_answered_approval_is_gone(before, approval_id@);
        }
        match find_pending(&self.pending, approval_id) {
            Some(i) => {
                proof {
                    assert(has_pending(before, approval_id@));
                    let j = pending_index(before, approval_id@);
                    assert(j == i as int);
                }
                let mut pending: Vec<PendingApproval> = Vec::new();
                std::mem::swap(&mut pending, &mut self.pending);
                let entry = pending.remove(i);
                assert(pending_seq(pending@) =~= before.remove(i as int));
                assert(pending_view(entry) == before[i as int]);
                self.pending = pending;
                let outcome = permission_outcome(&entry.options, approved);
                Ok(outcome)
            },
            None => Err(ApprovalError::NotPending),
        }
    }

    /// Decides how to handle one message from the agent: text chunks become
    /// assistant deltas (empty ones are dropped), permission requests are
    /// filed and announced, notifications are acknowledged, and the file,
    /// terminal and extension methods the desktop does not serve are refused.
    pub fn step(&mut self, message: ClientMessage) -> (r: StepOutput)
        ensures
            ids_distinct(final(self)@.pending),
            match message {
                ClientMessage::SessionUpdate { text_chunk } => {
                    &&& final(self)@ == old(self)@
                    &&& r.reply@ == ClientReplyView::Acknowledge
                    &&& opt_event_view(r.event) == match text_chunk {
                        Some(t) => if t@.len() > 0 {
                            Some(
                                FrontendEventView {
                                    kind: FrontendEventKind::AssistantDelta,
                                    text: Some(t@),
                                    approval_id: None,
                                    approved: false,
                                },
                            )
                        } else {
                            None
                        },
                        None => None,
                    }
                },
                ClientMessage::RequestPermission { options } => {
                    let id = approval_id_view(old(self)@.next_id);
                    &&& r.reply@ == ClientReplyView::AwaitDecision(id)
                    &&& opt_event_view(r.event) == Some(approval_event_view(id))
                    &&& final(self)@.next_id == old(self)@.next_id.wrapping_add(1)
                    &&& final(self)@.pending == without_id(old(self)@.pending, id).push(
                        PendingApprovalView { id, options: options_view(options@) },
                    )
                },
                ClientMessage::ExtNotification => {
                    &&& final(self)@ == old(self)@
                    &&& r.reply@ == ClientReplyView::Acknowledge
                    &&& r.event is None
                },
                ClientMessage::UnsupportedRequest => {
                    &&& final(self)@ == old(self)@
                    &&& r.reply@ == ClientReplyView::MethodNotFound
                    &&& r.event is None
                },
            },
    {
        proof {
            use_type_invariant(&*self);
        }
        match message {
            ClientMessage::SessionUpdate { text_chunk } => {
                let event = match text_chunk {
                    Some(t) => {
                        if t.as_str().is_empty() {
                            None
                        } else {
                            Some(
                                FrontendEvent {
                                    kind: FrontendEventKind::AssistantDelta,
                                    text: Some(t),
                                    approval_id: None,
                                    approved: false,
                                },
                            )
                        }
                    },
                    None => None,
                };
                StepOutput { event, reply: ClientReply::Acknowledge }
            },
            ClientMessage::RequestPermission { options } => {
                let id = self.register(options);
                let event = FrontendEvent {
                    kind: FrontendEventKind::ApprovalRequested,
                    text: Some(to_string("Tool requests permission")),
                    approval_id: Some(to_string(id.as_str())),
                    approved: false,
                };
                StepOutput { event: Some(event), reply: ClientReply::AwaitDecision(id) }
            },
            ClientMessage::ExtNotification => StepOutput {
                event: None,
                reply: ClientReply::Acknowledge,
            },
            ClientMessage::UnsupportedRequest => StepOutput {
                event: None,
                reply: ClientReply::MethodNotFound,
            },
        }
    }
}

/// The first one-time allowance exists exactly when one is offered.
proof fn lemma_first_allow_once(options: Seq<PermissionOptionView>)
    ensures
        first_allow_once(options) is Some <==> offers_allow_once(options),
    decreases options.len(),
{
    if options.len() > 0 {
        let rest = options.drop_first();
        lemma_first_allow_once(rest);
        if offers_allow_once(options) && options[0].kind != PermissionOptionKind::AllowOnce {
            let i = choose|i: int|
                0 <= i < options.len() && #[trigger] options[i].kind
                    == PermissionOptionKind::AllowOnce;
            assert(rest[i - 1].kind == PermissionOptionKind::AllowOnce);
        }
        if offers_allow_once(rest) {
            let i = choose|i: int|
                0 <= i < rest.len() && #[trigger] rest[i].kind == PermissionOptionKind::AllowOnce;
            assert(options[i + 1].kind == PermissionOptionKind::AllowOnce);
        }
    }
}

/// The answer sent for a user decision follows the approval policy: an
/// option is selected exactly when [`approval_decision_view`] grants a
/// one-time allowance, and what is selected is always a one-time allowance
/// that the request offered.
pub proof fn lemma_outcome_follows_policy(options: Seq<PermissionOptionView>, approved: bool)
    ensures
        (outcome_view(options, approved) is Selected) <==> approval_decision_view(
            approved,
            offers_allow_once(options),
        ) == ApprovalDecision::AllowOnce,
        outcome_view(options, approved) is Selected ==> exists|i: int|
            0 <= i < options.len() && #[trigger] options[i].kind == PermissionOptionKind::AllowOnce
                && options[i].option_id == outcome_view(options, approved)->Selected_0,
        !approved ==> outcome_view(options, approved) is Cancelled,
    decreases options.len(),
{
    lemma_first_allow_once(options);
    if approved && options.len() > 0 && options[0].kind != PermissionOptionKind::AllowOnce {
        let rest = options.drop_first();
        lemma_outcome_follows_policy(rest, approved);
        if outcome_view(rest, approved) is Selected {
            let i = choose|i: int|
                0 <= i < rest.len() && #[trigger] rest[i].kind == PermissionOptionKind::AllowOnce
                    && rest[i].option_id == outcome_view(rest, approved)->Selected_0;
            assert(options[i + 1] == rest[i]);
        }
    }
    if approved && options.len() > 0 && options[0].kind == PermissionOptionKind::AllowOnce {
        assert(options[0].kind == PermissionOptionKind::AllowOnce);
    }
}

/// Answering an approval removes it for good: afterwards no request with
/// that id is pending (so a second answer is refused), the other requests
/// stay pending, and pending ids stay distinct.
pub proof fn lemma_answered_approval_is_gone(s: Seq<PendingApprovalView>, id: Seq<char>)
    requires
        ids_distinct(s),
    ensures
        !has_pending(without_id(s, id), id),
        ids_distinct(without_id(s, id)),
        forall|other: Seq<char>| other != id ==> (has_pending(without_id(s, id), other) <==> has_pending(s, other)),
{
    let t = without_id(s, id);
    if has_pending(s, id) {
        let j = pending_index(s, id);
        assert forall|k: int| 0 <= k < t.len() implies #[trigger] t[k].id != id by {
            if k < j {
                assert(t[k] == s[k]);
            } else {
                assert(t[k] == s[k + 1]);
            }
        }
        assert forall|a: int, b: int| 0 <= a < t.len() && 0 <= b < t.len() && a != b implies #[trigger] t[a].id != #[trigger] t[b].id by {
            let a2 = if a < j { a } else { a + 1 };
            let b2 = if b < j { b } else { b + 1 };
            assert(t[a] == s[a2]);
            assert(t[b] == s[b2]);
        }
        assert forall|other: Seq<char>| other != id implies (has_pending(t, other) <==> has_pending(s, other)) by {
            if has_pending(s, other) {
                let k = choose|k: int| 0 <= k < s.len() && #[trigger] s[k].id == other;
                assert(k != j);
                if k < j {
                    assert(t[k] == s[k]);
                } else {
                    assert(t[k - 1] == s[k]);
                }
            }
            if has_pending(t, other) {
                let k = choose|k: int| 0 <= k < t.len() && #[trigger] t[k].id == other;
                if k < j {
                    assert(t[k] == s[k]);
                } else {
                    assert(t[k] == s[k + 1]);
                }
            }
        }
    }
}

/// A request that was just registered is pending under the id it was given.
pub proof fn lemma_registered_request_is_pending(
    s: Seq<PendingApprovalView>,
    id: Seq<char>,
    options: Seq<PermissionOptionView>,
)
    ensures
        has_pending(without_id(s, id).push(PendingApprovalView { id, options }), id),
{
    let t = without_id(s, id).push(PendingApprovalView { id, options });
    assert(t[t.len() - 1].id == id);
}

/// The approval counter of a fresh book after `k` permission requests: each
/// request (through [`ApprovalBook::register`] or [`ApprovalBook::step`])
/// advances it by one, and no other operation changes it.
pub open spec fn counter_after_requests(k: nat) -> u64
    decreases k,
{
    if k == 0 {
        1
    } else {
        counter_after_requests((k - 1) as nat).wrapping_add(1)
    }
}

/// Counted from a fresh book, the `k`-th permission request is filed under
/// `approval-<k>`, for every `k` below the counter's limit.
pub proof fn lemma_kth_request_is_approval_k(k: nat)
    requires
        1 <= k < u64::MAX,
    ensures
        counter_after_requests((k - 1) as nat) == k,
        approval_id_view(counter_after_requests((k - 1) as nat)) == "approval-"@ + decimal_view(k),
    decreases k,
{
    if k > 1 {
        lemma_kth_request_is_approval_k((k - 1) as nat);
    }
}

/// Why the agent connection could not be set up.
#[derive(Debug, Clone, Copy, PartialEq, Eq)]
pub enum ConnectError {
    /// The agent offered no way to authenticate.
    NoAuthMethod,
}

impl ConnectError {
    /// The message reported to the caller.
    pub fn message(&self) -> (r: &'static str)
        ensures
            r@ == "agent did not advertise an authentication method"@,
    {
        "agent did not advertise an authentication method"
    }
}

/// The authentication method used after the handshake: the first one the
/// agent advertised.
pub fn choose_auth_method(methods: &Vec<String>) -> (r: Result<String, ConnectError>)
    ensures
        methods@.len() == 0 ==> r == Err::<String, ConnectError>(ConnectError::NoAuthMethod),
        methods@.len() > 0 ==> r is Ok && r->Ok_0@ == methods@[0]@,
{
    if methods.len() == 0 {
        Err(ConnectError::NoAuthMethod)
    } else {
        Ok(to_string(methods[0].as_str()))
    }
}

} // verus!
