//! Why a deploy failed, and how that is told.

use vstd::prelude::*;
use crate::text::copy_text;

verus! {

/// Why a deploy failed.
pub enum DeployFailure {
    /// The node that the service is pinned to has no control session, so nothing was sent.
    NotConnected,
    /// The agent went silent and did not acknowledge the deploy.
    Unreachable,
    /// The agent kept heartbeating, but did not acknowledge the deploy in time.
    Unacknowledged,
    /// The agent acknowledged the deploy, but did not tell its result in time.
    Unfinished,
    /// The master stopped waiting.
    Abandoned,
    /// The agent could not do it, for the reason that it gave.
    Agent(String),
}

/// A failure by its texts.
#[verifier::ext_equal]
pub enum FailureView {
    NotConnected,
    Unreachable,
    Unacknowledged,
    Unfinished,
    Abandoned,
    Agent(Seq<char>),
}

impl View for DeployFailure {
    type V = FailureView;

    open spec fn view(&self) -> FailureView {
        match self {
            DeployFailure::NotConnected => FailureView::NotConnected,
            DeployFailure::Unreachable => FailureView::Unreachable,
            DeployFailure::Unacknowledged => FailureView::Unacknowledged,
            DeployFailure::Unfinished => FailureView::Unfinished,
            DeployFailure::Abandoned => FailureView::Abandoned,
            DeployFailure::Agent(reason) => FailureView::Agent(reason@),
        }
    }
}

impl FailureView {
    /// The message that a failure is told by. What an agent gave as a reason is told in the
    /// agent's own words.
    pub open spec fn message(self) -> Seq<char> {
        match self {
            FailureView::NotConnected => "the agent is not connected"@,
            FailureView::Unreachable => "the agent did not acknowledge the deploy: node unreachable"@,
            FailureView::Unacknowledged => {
                "the agent is heartbeating, but its receipt of the deploy timed out"@
            },
            FailureView::Unfinished => "the deploy timed out after the agent received it"@,
            FailureView::Abandoned => "the deploy was abandoned"@,
            FailureView::Agent(reason) => reason,
        }
    }
}

impl DeployFailure {
    /// The message that the failure is told by.
    pub fn message(&self) -> (message: String)
        ensures
            message@ == self@.message(),
    {
        match self {
            DeployFailure::NotConnected => String::from_str("the agent is not connected"),
            DeployFailure::Unreachable => String::from_str(
                "the agent did not acknowledge the deploy: node unreachable",
            ),
            DeployFailure::Unacknowledged => String::from_str(
                "the agent is heartbeating, but its receipt of the deploy timed out",
            ),
            DeployFailure::Unfinished => String::from_str(
                "the deploy timed out after the agent received it",
            ),
            DeployFailure::Abandoned => String::from_str("the deploy was abandoned"),
            DeployFailure::Agent(reason) => copy_text(reason),
        }
    }
}

/// The master's own failures are told by different messages.
pub proof fn messages_are_distinct(a: FailureView, b: FailureView)
    requires
        !(a is Agent),
        !(b is Agent),
        a.message() == b.message(),
    ensures
        a == b,
{
    reveal_strlit("the agent is not connected");
    reveal_strlit("the agent did not acknowledge the deploy: node unreachable");
    reveal_strlit("the agent is heartbeating, but its receipt of the deploy timed out");
    reveal_strlit("the deploy timed out after the agent received it");
    reveal_strlit("the deploy was abandoned");
    assert("the agent is not connected"@.len() == 26);
    assert("the agent did not acknowledge the deploy: node unreachable"@.len() == 58);
    assert("the agent is heartbeating, but its receipt of the deploy timed out"@.len() == 66);
    assert("the deploy timed out after the agent received it"@.len() == 48);
    assert("the deploy was abandoned"@.len() == 24);
}

/// Whether a text occurs in another one at a place.
pub open spec fn occurs_at(part: Seq<char>, whole: Seq<char>, place: int) -> bool {
    0 <= place && place + part.len() <= whole.len() && whole.subrange(place, place + part.len())
        == part
}

/// Whether a text occurs in another one.
pub open spec fn occurs_in(part: Seq<char>, whole: Seq<char>) -> bool {
    exists|place: int| occurs_at(part, whole, place)
}

/// An agent that went silent is told apart: the message says that it did not acknowledge and
/// is unreachable, and it speaks of no time limit.
pub proof fn unreachable_is_told_apart()
    ensures
        occurs_in("did not acknowledge"@, FailureView::Unreachable.message()),
        occurs_in("unreachable"@, FailureView::Unreachable.message()),
        !occurs_in("timed out"@, FailureView::Unreachable.message()),
{
    reveal_strlit("the agent did not acknowledge the deploy: node unreachable");
    reveal_strlit("did not acknowledge");
    reveal_strlit("unreachable");
    reveal_strlit("timed out");
    let whole = "the agent did not acknowledge the deploy: node unreachable"@;
    assert(whole.subrange(10, 29) =~= "did not acknowledge"@);
    assert(occurs_at("did not acknowledge"@, whole, 10));
    assert(whole.subrange(47, 58) =~= "unreachable"@);
    assert(occurs_at("unreachable"@, whole, 47));
    assert forall|place: int| !occurs_at("timed out"@, whole, place) by {
        if occurs_at("timed out"@, whole, place) {
            assert(whole.subrange(place, place + 9)[2] == 'm');
            assert(whole[place + 2] == 'm');
        }
    }
}

/// An agent that is alive is never told to be unreachable: the message says that it heartbeats
/// and that the deploy timed out.
pub proof fn live_agent_is_not_told_unreachable()
    ensures
        occurs_in("heartbeating"@, FailureView::Unacknowledged.message()),
        occurs_in("timed out"@, FailureView::Unacknowledged.message()),
        !occurs_in("unreachable"@, FailureView::Unacknowledged.message()),
{
    reveal_strlit("the agent is heartbeating, but its receipt of the deploy timed out");
    reveal_strlit("heartbeating");
    reveal_strlit("timed out");
    reveal_strlit("unreachable");
    let whole = "the agent is heartbeating, but its receipt of the deploy timed out"@;
    assert(whole.subrange(13, 25) =~= "heartbeating"@);
    assert(occurs_at("heartbeating"@, whole, 13));
    assert(whole.subrange(57, 66) =~= "timed out"@);
    assert(occurs_at("timed out"@, whole, 57));
    assert forall|place: int| !occurs_at("unreachable"@, whole, place) by {
        if occurs_at("unreachable"@, whole, place) {
            assert(whole.subrange(place, place + 11)[0] == 'u');
            assert(whole.subrange(place, place + 11)[1] == 'n');
            assert(whole[place] == 'u' && whole[place + 1] == 'n');
        }
    }
}

} // verus!
