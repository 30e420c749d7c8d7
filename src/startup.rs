//! The startup gate: the service connects to the document store and pings it
//! before it may serve any request, and stops on the first failure.
//!
//! The decisions are a state machine from phase and outcome to the next phase
//! and the action to perform; the caller performs each action and reports
//! whether it succeeded.
use vstd::prelude::*;

verus! {

/// The connection string of the document store.
pub const CONNECTION_URI: &'static str = "mongodb://localhost:27017";

/// The database that the startup ping is sent to.
pub const DATABASE_NAME: &'static str = "pos_mobile";

/// The address the server listens on: loopback only.
pub const LISTEN_IP: [u8; 4] = [127, 0, 0, 1];

/// The port the server listens on.
pub const LISTEN_PORT: u16 = 3000;

/// Where the service stands in its startup sequence.
#[derive(Clone, Copy, Debug, PartialEq, Eq, Structural)]
pub enum Phase {
    /// The connection string is being parsed into client options.
    ParsingUri,
    /// A client is being built from the options.
    CreatingClient,
    /// The database is being pinged.
    Pinging,
    /// The server is bound and serving requests.
    Serving,
    /// The process is ending, with an error or without.
    Stopped { failed: bool },
}

/// Whether the action last performed succeeded.
#[derive(Clone, Copy, Debug, PartialEq, Eq, Structural)]
pub enum Outcome {
    Succeeded,
    Failed,
}

/// What the caller is to do next.
#[derive(Clone, Copy, Debug, PartialEq, Eq, Structural)]
pub enum Action {
    /// Parse the connection string and pin the stable server API version.
    ParseUri,
    /// Build a client from the parsed options.
    CreateClient,
    /// Send a ping to the database.
    PingDatabase,
    /// Report that the database answered, then bind the listener and serve.
    Serve,
    /// End the process; with a non-zero status when `failed`.
    Exit { failed: bool },
}

/// One step of the startup sequence. Each step succeeds into the next, any
/// failure stops the process with an error (there is no retry), and the
/// server ending stops it too.
pub open spec fn transition(phase: Phase, outcome: Outcome) -> (Phase, Action) {
    match phase {
        Phase::Stopped { failed } => (phase, Action::Exit { failed }),
        _ => match outcome {
            Outcome::Failed => (Phase::Stopped { failed: true }, Action::Exit { failed: true }),
            Outcome::Succeeded => match phase {
                Phase::ParsingUri => (Phase::CreatingClient, Action::CreateClient),
                Phase::CreatingClient => (Phase::Pinging, Action::PingDatabase),
                Phase::Pinging => (Phase::Serving, Action::Serve),
                _ => (Phase::Stopped { failed: false }, Action::Exit { failed: false }),
            },
        },
    }
}

/// The actions issued, one for each reported outcome, from `phase` on.
pub open spec fn run_from(phase: Phase, outcomes: Seq<Outcome>) -> Seq<Action>
    decreases outcomes.len(),
{
    if outcomes.len() == 0 {
        Seq::empty()
    } else {
        let (next, action) = transition(phase, outcomes[0]);
        seq![action] + run_from(next, outcomes.drop_first())
    }
}

/// The actions issued for the outcomes of a whole run, after the first action
/// (`ParseUri`) that `begin` gives.
pub open spec fn run(outcomes: Seq<Outcome>) -> Seq<Action> {
    run_from(Phase::ParsingUri, outcomes)
}

/// A run issues exactly one action for each reported outcome.
proof fn lemma_run_len(phase: Phase, outcomes: Seq<Outcome>)
    ensures
        run_from(phase, outcomes).len() == outcomes.len(),
    decreases outcomes.len(),
{
    if outcomes.len() > 0 {
        lemma_run_len(transition(phase, outcomes[0]).0, outcomes.drop_first());
    }
}

/// The action issued for the `j`-th outcome: the first comes from `phase`,
/// the others from the phase that the first outcome leads to.
proof fn lemma_run_index(phase: Phase, outcomes: Seq<Outcome>, j: int)
    requires
        0 <= j < outcomes.len(),
    ensures
        j == 0 ==> run_from(phase, outcomes)[j] == transition(phase, outcomes[0]).1,
        j > 0 ==> run_from(phase, outcomes)[j] == run_from(
            transition(phase, outcomes[0]).0,
            outcomes.drop_first(),
        )[j - 1],
{
    lemma_run_len(transition(phase, outcomes[0]).0, outcomes.drop_first());
}

/// Once stopped, every later action is the same exit.
proof fn lemma_stopped_stays(failed: bool, outcomes: Seq<Outcome>, j: int)
    requires
        0 <= j < outcomes.len(),
    ensures
        run_from(Phase::Stopped { failed }, outcomes)[j] == (Action::Exit { failed }),
    decreases j,
{
    lemma_run_index(Phase::Stopped { failed }, outcomes, j);
    if j > 0 {
        lemma_stopped_stays(failed, outcomes.drop_first(), j - 1);
    }
}

/// Once serving, every later action is an exit.
proof fn lemma_serving_only_exits(outcomes: Seq<Outcome>, j: int)
    requires
        0 <= j < outcomes.len(),
    ensures
        run_from(Phase::Serving, outcomes)[j] is Exit,
{
    lemma_run_index(Phase::Serving, outcomes, j);
    if j > 0 {
        let failed = outcomes[0] == Outcome::Failed;
        lemma_stopped_stays(failed, outcomes.drop_first(), j - 1);
    }
}

/// The listener is bound at most once, and only once the database has
/// answered: `Serve` is the action for an outcome exactly when that outcome is
/// the third and parsing, client creation and the ping all succeeded.
pub proof fn lemma_serve_only_after_ping(outcomes: Seq<Outcome>, i: int)
    requires
        0 <= i < outcomes.len(),
    ensures
        run(outcomes)[i] == Action::Serve <==> (i == 2 && outcomes[0] == Outcome::Succeeded
            && outcomes[1] == Outcome::Succeeded && outcomes[2] == Outcome::Succeeded),
{
    let t1 = outcomes.drop_first();
    lemma_run_index(Phase::ParsingUri, outcomes, i);
    if outcomes[0] == Outcome::Failed {
        if i > 0 {
            lemma_stopped_stays(true, t1, i - 1);
        }
    } else if i > 0 {
        let t2 = t1.drop_first();
        lemma_run_index(Phase::CreatingClient, t1, i - 1);
        if t1[0] == Outcome::Failed {
            if i > 1 {
                lemma_stopped_stays(true, t2, i - 2);
            }
        } else if i > 1 {
            let t3 = t2.drop_first();
            lemma_run_index(Phase::Pinging, t2, i - 2);
            if t2[0] == Outcome::Failed {
                if i > 2 {
                    lemma_stopped_stays(true, t3, i - 3);
                }
            } else if i > 2 {
                lemma_serving_only_exits(t3, i - 3);
            }
        }
    }
}

/// A failure while starting ends the process with an error at once, and
/// nothing is retried: from that outcome on, every action is the failed exit,
/// so the listener is never bound.
pub proof fn lemma_startup_failure_is_final(outcomes: Seq<Outcome>, k: int)
    requires
        0 <= k < 3,
        k < outcomes.len(),
        outcomes[k] == Outcome::Failed,
    ensures
        forall|j: int| k <= j < outcomes.len() ==> #[trigger] run(outcomes)[j] == (Action::Exit { failed: true }),
{
    assert forall|j: int| k <= j < outcomes.len() implies #[trigger] run(outcomes)[j] == (Action::Exit {
        failed: true,
    }) by {
        let t1 = outcomes.drop_first();
        lemma_run_index(Phase::ParsingUri, outcomes, j);
        if outcomes[0] == Outcome::Failed {
            if j > 0 {
                lemma_stopped_stays(true, t1, j - 1);
            }
        } else {
            let t2 = t1.drop_first();
            lemma_run_index(Phase::CreatingClient, t1, j - 1);
            if t1[0] == Outcome::Failed {
                if j > 1 {
                    lemma_stopped_stays(true, t2, j - 2);
                }
            } else {
                let t3 = t2.drop_first();
                lemma_run_index(Phase::Pinging, t2, j - 2);
                if j > 2 {
                    lemma_stopped_stays(true, t3, j - 3);
                }
            }
        }
    }
}

/// The phase a run starts in, and the first action to perform.
pub fn begin() -> (r: (Phase, Action))
    ensures
        r == (Phase::ParsingUri, Action::ParseUri),
{
    (Phase::ParsingUri, Action::ParseUri)
}

/// Advances `phase` on the outcome of the action last performed, and returns
/// the action to perform next.
pub fn step(phase: &mut Phase, outcome: Outcome) -> (action: Action)
    ensures
        (*final(phase), action) == transition(*old(phase), outcome),
{
    match *phase {
        Phase::Stopped { failed } => Action::Exit { failed },
        _ => match outcome {
            Outcome::Failed => {
                *phase = Phase::Stopped { failed: true };
                Action::Exit { failed: true }
            },
            Outcome::Succeeded => match *phase {
                Phase::ParsingUri => {
                    *phase = Phase::CreatingClient;
                    Action::CreateClient
                },
                Phase::CreatingClient => {
                    *phase = Phase::Pinging;
                    Action::PingDatabase
                },
                Phase::Pinging => {
                    *phase = Phase::Serving;
                    Action::Serve
                },
                _ => {
                    *phase = Phase::Stopped { failed: false };
                    Action::Exit { failed: false }
                },
            },
        },
    }
}

} // verus!
