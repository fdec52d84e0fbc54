//! The cascading delivery chain: post the response to the originating
//! channel; on failure, try a plain-text notice there; on failure, try a
//! direct message to the author; on failure, record the whole failure chain
//! to the operational log. Each step's failure becomes part of the content
//! fed to the next step, so failures compound but are never lost, and the
//! caller never sees an error.

use vstd::prelude::*;
use crate::text::contains_seq;

verus! {

/// What the transport reported for one attempted step.
pub enum SendResult {
    Sent,
    Failed(String),
}

/// The mathematical shape of a transport report.
pub enum ResView {
    Sent,
    Failed(Seq<char>),
}

impl SendResult {
    /// The report as [`ResView`].
    pub open spec fn view(self) -> ResView {
        match self {
            SendResult::Sent => ResView::Sent,
            SendResult::Failed(e) => ResView::Failed(e@),
        }
    }
}

/// Where the chain stands: each non-final state names the one action the
/// caller should attempt next, with the content to send or record.
pub enum ChainState {
    /// Post the rendered response to the originating channel.
    Primary { content: String },
    /// The primary send failed: post this plain-text notice there instead.
    Notice { text: String },
    /// The notice failed too: send this direct message to the author.
    Dm { text: String },
    /// Even the direct message failed: record this to the operational log.
    Log { text: String },
    /// Nothing is left to do.
    Done,
}

/// The mathematical shape of a chain state.
pub enum ChainView {
    Primary(Seq<char>),
    Notice(Seq<char>),
    Dm(Seq<char>),
    Log(Seq<char>),
    Done,
}

impl ChainState {
    /// The state as [`ChainView`].
    pub open spec fn view(self) -> ChainView {
        match self {
            ChainState::Primary { content } => ChainView::Primary(content@),
            ChainState::Notice { text } => ChainView::Notice(text@),
            ChainState::Dm { text } => ChainView::Dm(text@),
            ChainState::Log { text } => ChainView::Log(text@),
            ChainState::Done => ChainView::Done,
        }
    }
}

/// The plain-text notice sent when the primary send fails.
pub open spec fn notice_text(cause: Seq<char>) -> Seq<char> {
    "Oops, couldn't send the message \u{1F926}\u{200D}\u{2640}\u{FE0F}: "@ + cause
}

/// The direct message sent when the notice fails as well: it carries the
/// earlier text and the new cause.
pub open spec fn dm_text(prev: Seq<char>, cause: Seq<char>) -> Seq<char> {
    prev + "\nAnd the plain notice failed too: "@ + cause
        + "\nLet the admins know so they can fix it"@
}

/// The operational log entry recorded when the direct message fails too:
/// the full failure chain.
pub open spec fn log_text(prev: Seq<char>, cause: Seq<char>) -> Seq<char> {
    prev + "\nCouldn't even send the direct message to inform the commander: "@ + cause
}

/// One transition of the chain: success at any sending step ends it; a
/// failure advances to the next fallback, folding the cause into the
/// content; the log step is best-effort and ends the chain either way.
pub open spec fn advance_spec(s: ChainView, r: ResView) -> ChainView {
    match s {
        ChainView::Primary(_) => match r {
            ResView::Sent => ChainView::Done,
            ResView::Failed(e) => ChainView::Notice(notice_text(e)),
        },
        ChainView::Notice(t) => match r {
            ResView::Sent => ChainView::Done,
            ResView::Failed(e) => ChainView::Dm(dm_text(t, e)),
        },
        ChainView::Dm(t) => match r {
            ResView::Sent => ChainView::Done,
            ResView::Failed(e) => ChainView::Log(log_text(t, e)),
        },
        ChainView::Log(_) => ChainView::Done,
        ChainView::Done => ChainView::Done,
    }
}

/// Starts a delivery chain for one rendered response.
pub fn chain_start(content: String) -> (s: ChainState)
    ensures
        s@ == ChainView::Primary(content@),
{
    ChainState::Primary { content }
}

/// Feeds the transport's report for the current step back into the chain
/// and returns the next state, as [`advance_spec`] describes.
pub fn advance(s: ChainState, r: &SendResult) -> (s2: ChainState)
    ensures
        s2@ == advance_spec(s@, r@),
{
    match s {
        ChainState::Primary { content: _ } => match r {
            SendResult::Sent => ChainState::Done,
            SendResult::Failed(e) => {
                let mut t = String::from_str("Oops, couldn't send the message \u{1F926}\u{200D}\u{2640}\u{FE0F}: ");
                t.append(e.as_str());
                ChainState::Notice { text: t }
            },
        },
        ChainState::Notice { text } => match r {
            SendResult::Sent => ChainState::Done,
            SendResult::Failed(e) => {
                let mut t = text;
                t.append("\nAnd the plain notice failed too: ");
                t.append(e.as_str());
                t.append("\nLet the admins know so they can fix it");
                ChainState::Dm { text: t }
            },
        },
        ChainState::Dm { text } => match r {
            SendResult::Sent => ChainState::Done,
            SendResult::Failed(e) => {
                let mut t = text;
                t.append("\nCouldn't even send the direct message to inform the commander: ");
                t.append(e.as_str());
                ChainState::Log { text: t }
            },
        },
        ChainState::Log { text: _ } => ChainState::Done,
        ChainState::Done => ChainState::Done,
    }
}

/// When the primary send fails and the plain-text notice succeeds, the
/// chain ends there: the notice carries the failure cause, and no direct
/// message and no log entry follow.
pub proof fn lemma_chain_fallback_stops(content: Seq<char>, e1: Seq<char>)
    ensures
        advance_spec(ChainView::Primary(content), ResView::Failed(e1)) == ChainView::Notice(
            notice_text(e1),
        ),
        contains_seq(notice_text(e1), e1),
        advance_spec(ChainView::Notice(notice_text(e1)), ResView::Sent) == ChainView::Done,
{
    assert("Oops, couldn't send the message \u{1F926}\u{200D}\u{2640}\u{FE0F}: "@ + e1 + Seq::<char>::empty() =~= notice_text(e1));
    crate::text::lemma_contains_concat("Oops, couldn't send the message \u{1F926}\u{200D}\u{2640}\u{FE0F}: "@, e1, Seq::empty());
}

/// When the primary send, the notice and the direct message all fail, the
/// chain attempts each fallback in order and ends in exactly one
/// operational log entry, whose text contains all three failure causes;
/// the chain is finished whatever the record attempt itself reports.
pub proof fn lemma_chain_full_failure(content: Seq<char>, e1: Seq<char>, e2: Seq<char>, e3: Seq<char>)
    ensures
        ({
            let s1 = advance_spec(ChainView::Primary(content), ResView::Failed(e1));
            let s2 = advance_spec(s1, ResView::Failed(e2));
            let s3 = advance_spec(s2, ResView::Failed(e3));
            let entry = log_text(dm_text(notice_text(e1), e2), e3);
            &&& s1 == ChainView::Notice(notice_text(e1))
            &&& s2 == ChainView::Dm(dm_text(notice_text(e1), e2))
            &&& s3 == ChainView::Log(entry)
            &&& contains_seq(entry, e1)
            &&& contains_seq(entry, e2)
            &&& contains_seq(entry, e3)
            &&& forall|r: ResView| advance_spec(s3, r) == ChainView::Done
        }),
{
    let entry = log_text(dm_text(notice_text(e1), e2), e3);
    let head = "Oops, couldn't send the message \u{1F926}\u{200D}\u{2640}\u{FE0F}: "@;
    let sep2 = "\nAnd the plain notice failed too: "@;
    let sep2b = "\nLet the admins know so they can fix it"@;
    let sep3 = "\nCouldn't even send the direct message to inform the commander: "@;
    assert(head + e1 + (sep2 + e2 + sep2b + sep3 + e3) =~= entry);
    crate::text::lemma_contains_concat(head, e1, sep2 + e2 + sep2b + sep3 + e3);
    assert((head + e1 + sep2) + e2 + (sep2b + sep3 + e3) =~= entry);
    crate::text::lemma_contains_concat(head + e1 + sep2, e2, sep2b + sep3 + e3);
    assert((head + e1 + sep2 + e2 + sep2b + sep3) + e3 + Seq::<char>::empty() =~= entry);
    crate::text::lemma_contains_concat(head + e1 + sep2 + e2 + sep2b + sep3, e3, Seq::empty());
}

} // verus!
