//! What holds of every session, proved from the transition function.

use crate::auth::{is_uuid_text, lemma_uuid_text_is_valid_token, valid_token};
use crate::launcher::ProcessHandle;
use crate::runtime::{lemma_valid_pair_round_trips, parse_record, record_text, RuntimeRecord};
use crate::session::{
    closed, initial_session, launch_front_end, needs_token, phase_of, session_step, shutdown,
    terminations, without_pid, ExitStatusView, SessionActionView, SessionConfig, SessionEventView,
    SessionPhase, SessionView, Stage,
};
use vstd::prelude::*;

verus! {

// ---------------------------------------------------------------------------
// Well-formed states
// ---------------------------------------------------------------------------

/// No process id occurs twice.
pub open spec fn distinct_pids(handles: Seq<ProcessHandle>) -> bool {
    forall|i: int, j: int| 0 <= i < j < handles.len() ==> handles[i].pid != handles[j].pid
}

/// The state of a session that began in `initial_session` and took steps
/// only: what it owns fits the stage it is in.
///
/// Before the content server is launched, and after the session is over,
/// nothing is owned. From the bind on the content server is owned and serves
/// on a port. From the save on the broker's own endpoint has a port other
/// than zero and a valid token. Front ends exist only while serving, each
/// under a process id of its own.
pub open spec fn well_formed(s: SessionView) -> bool {
    &&& match s.stage {
        Stage::AwaitingRecord | Stage::AwaitingDelegation | Stage::AwaitingCore | Stage::Closed =>
            s.core is None,
        _ => s.core is Some && s.core->0.serving_port() is Some,
    }
    &&& match s.stage {
        Stage::AwaitingSave | Stage::AwaitingFrontEnd | Stage::Serving => s.listen_port != 0
            && valid_token(s.token),
        _ => true,
    }
    &&& match s.stage {
        Stage::Serving => distinct_pids(s.front_ends),
        _ => s.front_ends.len() == 0 && s.primary is None,
    }
}

/// Removing a child leaves the others, each once, and none with the removed
/// process id.
pub proof fn lemma_without_pid(handles: Seq<ProcessHandle>, pid: u32)
    ensures
        forall|k: int|
            0 <= k < without_pid(handles, pid).len() ==> (#[trigger] without_pid(
                handles,
                pid,
            )[k]).pid != pid && handles.contains(without_pid(handles, pid)[k]),
        forall|k: int|
            0 <= k < handles.len() && (#[trigger] handles[k]).pid != pid ==> without_pid(
                handles,
                pid,
            ).contains(handles[k]),
        distinct_pids(handles) ==> distinct_pids(without_pid(handles, pid)),
    decreases handles.len(),
{
    let r = without_pid(handles, pid);
    if handles.len() > 0 {
        let front = handles.drop_last();
        let last = handles.last();
        let rest = without_pid(front, pid);
        lemma_without_pid(front, pid);
        assert forall|k: int| 0 <= k < r.len() implies (#[trigger] r[k]).pid != pid
            && handles.contains(r[k]) by {
            if k < rest.len() {
                assert(r[k] == rest[k]);
                assert(front.contains(rest[k]));
                let m = choose|m: int| 0 <= m < front.len() && front[m] == rest[k];
                assert(handles[m] == rest[k]);
            } else {
                assert(r[k] == last);
                assert(handles[handles.len() - 1] == last);
            }
        }
        assert forall|k: int| 0 <= k < handles.len() && (#[trigger] handles[k]).pid
            != pid implies r.contains(handles[k]) by {
            if k < front.len() {
                assert(front[k] == handles[k]);
                assert(rest.contains(front[k]));
                let m = choose|m: int| 0 <= m < rest.len() && rest[m] == front[k];
                assert(r[m] == handles[k]);
            } else {
                assert(r[r.len() - 1] == handles[k]);
            }
        }
        if distinct_pids(handles) {
            assert(distinct_pids(front)) by {
                assert forall|i: int, j: int| 0 <= i < j < front.len() implies front[i].pid
                    != front[j].pid by {
                    assert(front[i] == handles[i]);
                    assert(front[j] == handles[j]);
                }
            }
            assert forall|i: int, j: int| 0 <= i < j < r.len() implies r[i].pid != r[j].pid by {
                if j < rest.len() {
                    assert(r[i] == rest[i]);
                    assert(r[j] == rest[j]);
                } else {
                    assert(r[i] == rest[i]);
                    assert(front.contains(rest[i]));
                    let m = choose|m: int| 0 <= m < front.len() && front[m] == rest[i];
                    assert(handles[m] == rest[i]);
                    assert(handles[handles.len() - 1] == r[j]);
                }
            }
        }
    }
}

/// A session begins well-formed.
pub proof fn lemma_initial_session_well_formed(config: SessionConfig)
    ensures
        well_formed(initial_session(config)),
        phase_of(initial_session(config).stage) == SessionPhase::Delegating,
{
}

/// Every step of a well-formed session ends in a well-formed session,
/// whatever was observed and whatever token was at hand.
pub proof fn lemma_step_keeps_well_formed(s: SessionView, e: SessionEventView, fresh: Seq<char>)
    requires
        well_formed(s),
    ensures
        well_formed(session_step(s, e, fresh).0),
{
    let next = session_step(s, e, fresh).0;
    if s.stage == Stage::Serving {
        match e {
            SessionEventView::FrontEndLaunched(handle) => {
                lemma_without_pid(s.front_ends, handle.pid);
                let kept = without_pid(s.front_ends, handle.pid);
                let all = kept.push(handle);
                assert forall|i: int, j: int| 0 <= i < j < all.len() implies all[i].pid
                    != all[j].pid by {
                    assert(all[i] == kept[i]);
                    if j < kept.len() {
                        assert(all[j] == kept[j]);
                    }
                }
            },
            SessionEventView::FrontEndExited(pid) => {
                lemma_without_pid(s.front_ends, pid);
            },
            _ => {},
        }
    }
}

// ---------------------------------------------------------------------------
// Delegation
// ---------------------------------------------------------------------------

/// A session that finds the record of a live broker issues one delegation
/// call to the recorded port with the recorded token and then exits in
/// success. Along the way it launches nothing, binds nothing and writes
/// nothing, and in the end it owns nothing.
pub proof fn lemma_delegation_spawns_nothing(
    config: SessionConfig,
    record: RuntimeRecord,
    fresh: Seq<char>,
)
    ensures
        ({
            let first = session_step(
                initial_session(config),
                SessionEventView::RecordLoaded(Some(record)),
                fresh,
            );
            let second = session_step(first.0, SessionEventView::Delegated, fresh);
            &&& first.1 == seq![
                SessionActionView::Delegate { port: record.port, token: record.token },
            ]
            &&& phase_of(first.0.stage) == SessionPhase::Delegating
            &&& second.1 == seq![SessionActionView::Exit(ExitStatusView::Success)]
            &&& phase_of(second.0.stage) == SessionPhase::ShuttingDown
            &&& second.0.core is None
            &&& second.0.front_ends.len() == 0
        }),
{
}

/// A session whose delegation call fails treats the record as stale: it
/// clears the registry and goes through the whole of origination. The content
/// server is launched with the first fresh token. The record that is then
/// written holds the port that the bind reported and the second fresh token,
/// and nothing of the stale record. The first front end is sent to that port
/// with that token, and once it runs the session serves.
pub proof fn lemma_stale_record_is_replaced(
    config: SessionConfig,
    stale: RuntimeRecord,
    core_token: Seq<char>,
    own_token: Seq<char>,
    core: ProcessHandle,
    port: u16,
    front_end: ProcessHandle,
)
    requires
        valid_token(core_token),
        valid_token(own_token),
        core.serving_port() is Some,
        port != 0,
    ensures
        ({
            let s1 = session_step(
                initial_session(config),
                SessionEventView::RecordLoaded(Some(stale)),
                core_token,
            );
            let s2 = session_step(s1.0, SessionEventView::DelegationFailed, core_token);
            let s3 = session_step(s2.0, SessionEventView::CoreLaunched(core), own_token);
            let s4 = session_step(s3.0, SessionEventView::Bound(port), own_token);
            let s5 = session_step(s4.0, SessionEventView::RecordSaved, own_token);
            let s6 = session_step(s5.0, SessionEventView::FrontEndLaunched(front_end), own_token);
            &&& s2.1 == seq![
                SessionActionView::ClearRecord,
                SessionActionView::LaunchCore { token: core_token },
            ]
            &&& phase_of(s2.0.stage) == SessionPhase::Originating
            &&& s3.1 == seq![SessionActionView::Bind]
            &&& s4.1 == seq![SessionActionView::SaveRecord { port, token: own_token }]
            &&& s5.1 == seq![
                SessionActionView::LaunchFrontEnd {
                    port,
                    token: own_token,
                    test_mode: config.test_mode,
                },
            ]
            &&& s6.1 == seq![SessionActionView::Serve { port, token: own_token }]
            &&& phase_of(s6.0.stage) == SessionPhase::Serving
            &&& s6.0.core == Some(core)
            &&& s6.0.primary == Some(front_end.pid)
            &&& s6.0.front_ends == seq![front_end]
        }),
{
    let s1 = session_step(
        initial_session(config),
        SessionEventView::RecordLoaded(Some(stale)),
        core_token,
    );
    let s2 = session_step(s1.0, SessionEventView::DelegationFailed, core_token);
    assert(s2.1 =~= seq![
        SessionActionView::ClearRecord,
        SessionActionView::LaunchCore { token: core_token },
    ]);
}

/// The record that origination writes is the broker's own: the port that the
/// bind reported with the token drawn for it. Written out and read again it
/// comes back as that pair. It is a different record from any other, be that
/// a stale one or the content server's port and token, as soon as the port or
/// the token differs; whether they differ lies with the operating system,
/// which hands out the port, and with the source of the token.
pub proof fn lemma_new_record_is_the_brokers_own(
    s: SessionView,
    port: u16,
    own_token: Seq<char>,
    other: RuntimeRecord,
)
    requires
        s.stage == Stage::AwaitingBind,
        port != 0,
        valid_token(own_token),
    ensures
        session_step(s, SessionEventView::Bound(port), own_token).1 == seq![
            SessionActionView::SaveRecord { port, token: own_token },
        ],
        parse_record(record_text(port, own_token)) == Some(
            RuntimeRecord { port, token: own_token },
        ),
        other.port != port || other.token != own_token ==> parse_record(
            record_text(port, own_token),
        ) != Some(other),
{
    lemma_valid_pair_round_trips(port, own_token);
}

/// With no record at all, origination begins at once: nothing is cleared and
/// no delegation is tried.
pub proof fn lemma_no_record_originates(config: SessionConfig, fresh: Seq<char>)
    requires
        valid_token(fresh),
    ensures
        session_step(initial_session(config), SessionEventView::RecordLoaded(None), fresh).1
            == seq![SessionActionView::LaunchCore { token: fresh }],
        phase_of(
            session_step(
                initial_session(config),
                SessionEventView::RecordLoaded(None),
                fresh,
            ).0.stage,
        ) == SessionPhase::Originating,
{
}

/// A token drawn by the coordinator is always fit to be handed out: with it,
/// no step ends in the `InvalidToken` failure.
pub proof fn lemma_drawn_token_is_accepted(s: SessionView, e: SessionEventView, fresh: Seq<char>)
    requires
        is_uuid_text(fresh),
    ensures
        forall|i: int|
            0 <= i < session_step(s, e, fresh).1.len() ==> #[trigger] session_step(s, e, fresh).1[i]
                != SessionActionView::Exit(
                ExitStatusView::Failure(crate::session::StartupErrorView::InvalidToken),
            ),
{
    lemma_uuid_text_is_valid_token(fresh);
    let actions = session_step(s, e, fresh).1;
    let bad = SessionActionView::Exit(
        ExitStatusView::Failure(crate::session::StartupErrorView::InvalidToken),
    );
    assert forall|i: int| 0 <= i < actions.len() implies #[trigger] actions[i] != bad by {
        lemma_terminations_only_terminate(s);
        match s.stage {
            Stage::AwaitingCore => {
                match e {
                    SessionEventView::CoreLaunched(handle) => {
                        lemma_terminations_only_terminate(SessionView { core: Some(handle), ..s });
                    },
                    _ => {},
                }
            },
            Stage::Serving => {
                match e {
                    SessionEventView::FrontEndExited(pid) => {
                        lemma_terminations_only_terminate(
                            SessionView { front_ends: without_pid(s.front_ends, pid), ..s },
                        );
                    },
                    _ => {},
                }
            },
            _ => {},
        }
    }
}

/// Where a step needs no token, the token at hand makes no difference.
pub proof fn lemma_unused_token_is_ignored(
    s: SessionView,
    e: SessionEventView,
    a: Seq<char>,
    b: Seq<char>,
)
    requires
        !needs_token(s, e),
    ensures
        session_step(s, e, a) == session_step(s, e, b),
{
}

// ---------------------------------------------------------------------------
// The end of a session
// ---------------------------------------------------------------------------

/// The teardown order consists of terminations only, one for each child that
/// is owned.
pub proof fn lemma_terminations_only_terminate(s: SessionView)
    ensures
        forall|i: int|
            0 <= i < terminations(s).len() ==> (#[trigger] terminations(s)[i]) is Terminate,
        s.core is Some ==> terminations(s).contains(SessionActionView::Terminate(s.core->0)),
        forall|k: int|
            0 <= k < s.front_ends.len() ==> terminations(s).contains(
                SessionActionView::Terminate(#[trigger] s.front_ends[k]),
            ),
{
    let t = terminations(s);
    let offset: int = if s.core is Some {
        1
    } else {
        0
    };
    if s.core is Some {
        assert(t[0] == SessionActionView::Terminate(s.core->0));
    }
    assert forall|k: int| 0 <= k < s.front_ends.len() implies t.contains(
        SessionActionView::Terminate(#[trigger] s.front_ends[k]),
    ) by {
        assert(t[offset + k] == SessionActionView::Terminate(s.front_ends[k]));
    }
}

/// While serving in a session that is no daemon, the exit of the first front
/// end ends the session: the registry entry is cleared first, every child
/// that still runs is terminated, and the process exits in success.
pub proof fn lemma_primary_exit_ends_session(s: SessionView, pid: u32, fresh: Seq<char>)
    requires
        s.stage == Stage::Serving,
        !s.config.daemon,
        s.primary == Some(pid),
    ensures
        ({
            let (next, actions) = session_step(s, SessionEventView::FrontEndExited(pid), fresh);
            &&& phase_of(next.stage) == SessionPhase::ShuttingDown
            &&& next.core is None
            &&& next.front_ends.len() == 0
            &&& actions.first() == SessionActionView::ClearRecord
            &&& actions.last() == SessionActionView::Exit(ExitStatusView::Success)
            &&& s.core is Some ==> actions.contains(SessionActionView::Terminate(s.core->0))
            &&& forall|k: int|
                0 <= k < s.front_ends.len() && (#[trigger] s.front_ends[k]).pid != pid
                    ==> actions.contains(SessionActionView::Terminate(s.front_ends[k]))
        }),
{
    let left = SessionView { front_ends: without_pid(s.front_ends, pid), ..s };
    let (next, actions) = session_step(s, SessionEventView::FrontEndExited(pid), fresh);
    assert(actions == shutdown(left).1);
    let t = terminations(left);
    lemma_terminations_only_terminate(left);
    lemma_without_pid(s.front_ends, pid);
    let head = seq![SessionActionView::ClearRecord] + t;
    assert(actions[0] == SessionActionView::ClearRecord);
    assert forall|x: SessionActionView| t.contains(x) implies actions.contains(x) by {
        let m = choose|m: int| 0 <= m < t.len() && t[m] == x;
        assert(actions[m + 1] == x);
    }
    assert forall|k: int|
        0 <= k < s.front_ends.len() && (#[trigger] s.front_ends[k]).pid
            != pid implies actions.contains(SessionActionView::Terminate(s.front_ends[k])) by {
        let h = s.front_ends[k];
        assert(left.front_ends.contains(h));
        let m = choose|m: int| 0 <= m < left.front_ends.len() && left.front_ends[m] == h;
        assert(t.contains(SessionActionView::Terminate(left.front_ends[m])));
    }
}

/// In a daemon session the same exit ends nothing: the session goes on
/// serving, asks for nothing, and keeps the content server and every other
/// front end.
pub proof fn lemma_daemon_survives_primary_exit(s: SessionView, pid: u32, fresh: Seq<char>)
    requires
        s.stage == Stage::Serving,
        s.config.daemon,
    ensures
        ({
            let (next, actions) = session_step(s, SessionEventView::FrontEndExited(pid), fresh);
            &&& phase_of(next.stage) == SessionPhase::Serving
            &&& actions.len() == 0
            &&& next.core == s.core
            &&& next.front_ends == without_pid(s.front_ends, pid)
        }),
{
}

/// The exit of a front end other than the first never ends a session.
pub proof fn lemma_secondary_exit_is_harmless(s: SessionView, pid: u32, fresh: Seq<char>)
    requires
        s.stage == Stage::Serving,
        s.primary != Some(pid),
    ensures
        ({
            let (next, actions) = session_step(s, SessionEventView::FrontEndExited(pid), fresh);
            &&& phase_of(next.stage) == SessionPhase::Serving
            &&& actions.len() == 0
            &&& next.primary == s.primary
        }),
{
}

/// An interrupt, and the end of the RPC server, end a serving session in
/// either mode, with the same teardown.
pub proof fn lemma_interrupt_ends_session(s: SessionView, fresh: Seq<char>)
    requires
        s.stage == Stage::Serving,
    ensures
        session_step(s, SessionEventView::Interrupted, fresh) == shutdown(s),
        session_step(s, SessionEventView::ServerStopped, fresh) == shutdown(s),
        shutdown(s).0 == closed(s),
        shutdown(s).1.first() == SessionActionView::ClearRecord,
        shutdown(s).1.last() == SessionActionView::Exit(ExitStatusView::Success),
{
}

/// A delegation call that arrives while serving opens one more front end on
/// the broker's own endpoint and changes nothing else.
pub proof fn lemma_spawn_request_opens_front_end(s: SessionView, fresh: Seq<char>)
    requires
        s.stage == Stage::Serving,
    ensures
        session_step(s, SessionEventView::SpawnRequested, fresh) == (
            s,
            seq![launch_front_end(s)],
        ),
{
}

/// A session that is over stays over: whatever is observed afterwards, the
/// state does not change and nothing is asked for. Of the signals that race
/// to end a session, only the first has any effect.
pub proof fn lemma_closed_is_final(s: SessionView, e: SessionEventView, fresh: Seq<char>)
    requires
        s.stage == Stage::Closed,
    ensures
        session_step(s, e, fresh) == (s, Seq::<SessionActionView>::empty()),
{
}

/// The process exits only as the last action of a step, and only from a
/// session that is over and owns nothing. Every child that a well-formed
/// session owned before such a step, other than one whose exit was just
/// observed, is terminated in that step: no child outlives its session.
pub proof fn lemma_exit_leaves_no_child(s: SessionView, e: SessionEventView, fresh: Seq<char>)
    requires
        well_formed(s),
        exists|i: int|
            0 <= i < session_step(s, e, fresh).1.len() && (#[trigger] session_step(
                s,
                e,
                fresh,
            ).1[i]) is Exit,
    ensures
        ({
            let (next, actions) = session_step(s, e, fresh);
            &&& actions.last() is Exit
            &&& forall|i: int| 0 <= i < actions.len() - 1 ==> !((#[trigger] actions[i]) is Exit)
            &&& next.stage == Stage::Closed
            &&& next.core is None
            &&& next.front_ends.len() == 0
            &&& s.core is Some ==> actions.contains(SessionActionView::Terminate(s.core->0))
            &&& forall|k: int|
                0 <= k < s.front_ends.len() && e != SessionEventView::FrontEndExited(
                    (#[trigger] s.front_ends[k]).pid,
                ) ==> actions.contains(SessionActionView::Terminate(s.front_ends[k]))
        }),
{
    let (next, actions) = session_step(s, e, fresh);
    let i = choose|i: int| 0 <= i < actions.len() && (#[trigger] actions[i]) is Exit;
    lemma_terminations_only_terminate(s);
    let t = terminations(s);
    match s.stage {
        Stage::AwaitingCore => {
            match e {
                SessionEventView::CoreLaunched(handle) => {
                    lemma_terminations_only_terminate(SessionView { core: Some(handle), ..s });
                },
                _ => {},
            }
        },
        Stage::Serving => {
            match e {
                SessionEventView::FrontEndExited(pid) => {
                    let left = SessionView { front_ends: without_pid(s.front_ends, pid), ..s };
                    lemma_terminations_only_terminate(left);
                    lemma_without_pid(s.front_ends, pid);
                    let tl = terminations(left);
                    assert forall|x: SessionActionView| tl.contains(x) implies actions.contains(
                        x,
                    ) by {
                        let m = choose|m: int| 0 <= m < tl.len() && tl[m] == x;
                        assert(actions[m + 1] == x);
                    }
                    assert forall|k: int|
                        0 <= k < s.front_ends.len() && e != SessionEventView::FrontEndExited(
                            (#[trigger] s.front_ends[k]).pid,
                        ) implies actions.contains(
                        SessionActionView::Terminate(s.front_ends[k]),
                    ) by {
                        let h = s.front_ends[k];
                        assert(h.pid != pid);
                        assert(left.front_ends.contains(h));
                        let m = choose|m: int|
                            0 <= m < left.front_ends.len() && left.front_ends[m] == h;
                        assert(tl.contains(SessionActionView::Terminate(left.front_ends[m])));
                    }
                },
                SessionEventView::ServerStopped | SessionEventView::Interrupted => {
                    assert forall|x: SessionActionView| t.contains(x) implies actions.contains(
                        x,
                    ) by {
                        let m = choose|m: int| 0 <= m < t.len() && t[m] == x;
                        assert(actions[m + 1] == x);
                    }
                },
                _ => {},
            }
        },
        Stage::AwaitingBind | Stage::AwaitingSave | Stage::AwaitingFrontEnd => {
            assert forall|x: SessionActionView| t.contains(x) implies actions.contains(x) by {
                let m = choose|m: int| 0 <= m < t.len() && t[m] == x;
                assert(actions[m] == x);
            }
        },
        _ => {},
    }
}

/// While a session is still looking for a broker to delegate to, it asks for
/// no launch, no bind and no write.
pub proof fn lemma_delegating_touches_nothing(s: SessionView, e: SessionEventView, fresh: Seq<char>)
    requires
        well_formed(s),
        phase_of(s.stage) == SessionPhase::Delegating,
        phase_of(session_step(s, e, fresh).0.stage) != SessionPhase::Originating,
    ensures
        forall|i: int|
            0 <= i < session_step(s, e, fresh).1.len() ==> {
                let a = #[trigger] session_step(s, e, fresh).1[i];
                a is Delegate || a is Exit || a is ClearRecord || a is Terminate
            },
        forall|i: int|
            0 <= i < session_step(s, e, fresh).1.len() ==> !((#[trigger] session_step(
                s,
                e,
                fresh,
            ).1[i]) is Terminate),
{
    lemma_terminations_only_terminate(s);
    assert(terminations(s).len() == 0);
}

} // verus!
