//! The update orchestrator as a state machine. [`start`] hands out the
//! IP-lookup call; [`step`] consumes one collaborator answer and hands out the
//! next call, until the phase is `Done` (every target processed) or `Failed`.
//! [`update_dns`] replays a whole transcript of answers through the machine.

use vstd::prelude::*;
use vstd::string::StringExecFns;

use crate::config::{config_wf, Config};
use crate::messages::{
    edit_url, edit_url_spec, failed_message, failed_message_spec, labeled_message,
    labeled_message_spec, retrieve_url, retrieve_url_spec, trim_of, trim_ws, unchanged_message,
    unchanged_message_spec, updated_message, updated_message_spec,
};
use crate::protocol::{
    Action, ActionView, DdnsError, DnsReadRequest, DnsReadRequestView, DnsWriteRequest,
    DnsWriteRequestView, Event, EventView, NotifyRequest, NotifyRequestView,
};

verus! {

/// Where the run stands: which call is outstanding, which target is being
/// processed, and the outcome messages collected so far.
pub enum Phase {
    /// Awaiting the answer of the IP-lookup call.
    AwaitIp,
    /// Awaiting the provider's answer to the read for target `idx`.
    AwaitDnsRead { ip: String, idx: usize, results: Vec<String> },
    /// Awaiting the provider's answer to the write for target `idx`; `entry`
    /// is the record content the read returned.
    AwaitDnsWrite { ip: String, idx: usize, entry: String, results: Vec<String> },
    /// Awaiting the webhook's answer for target `idx`; `message` is the
    /// labeled outcome for that target.
    AwaitNotify { ip: String, idx: usize, message: String, results: Vec<String> },
    /// Every target was processed; `results` holds one outcome message per
    /// target, in configuration order.
    Done { results: Vec<String> },
    /// The run aborted.
    Failed { error: DdnsError },
}

/// The mathematical view of a [`Phase`].
pub enum PhaseView {
    AwaitIp,
    AwaitDnsRead { ip: Seq<char>, idx: int, results: Seq<Seq<char>> },
    AwaitDnsWrite { ip: Seq<char>, idx: int, entry: Seq<char>, results: Seq<Seq<char>> },
    AwaitNotify { ip: Seq<char>, idx: int, message: Seq<char>, results: Seq<Seq<char>> },
    Done { results: Seq<Seq<char>> },
    Failed { error: DdnsError },
}

impl View for Phase {
    type V = PhaseView;

    open spec fn view(&self) -> PhaseView {
        match self {
            Phase::AwaitIp => PhaseView::AwaitIp,
            Phase::AwaitDnsRead { ip, idx, results } => PhaseView::AwaitDnsRead {
                ip: ip@,
                idx: *idx as int,
                results: results.deep_view(),
            },
            Phase::AwaitDnsWrite { ip, idx, entry, results } => PhaseView::AwaitDnsWrite {
                ip: ip@,
                idx: *idx as int,
                entry: entry@,
                results: results.deep_view(),
            },
            Phase::AwaitNotify { ip, idx, message, results } => PhaseView::AwaitNotify {
                ip: ip@,
                idx: *idx as int,
                message: message@,
                results: results.deep_view(),
            },
            Phase::Done { results } => PhaseView::Done { results: results.deep_view() },
            Phase::Failed { error } => PhaseView::Failed { error: *error },
        }
    }
}

/// Whether an event answers the call that is outstanding in this phase.
/// Terminal phases have no outstanding call, so nothing answers them.
pub open spec fn event_matches(p: PhaseView, e: EventView) -> bool {
    match p {
        PhaseView::AwaitIp => e is IpResolved || e is IpFailed,
        PhaseView::AwaitDnsRead { .. } => e is DnsRecords || e is DnsReadFailed,
        PhaseView::AwaitDnsWrite { .. } => e is DnsWritten || e is DnsWriteFailed,
        PhaseView::AwaitNotify { .. } => e is Notified || e is NotifyFailed,
        PhaseView::Done { .. } => false,
        PhaseView::Failed { .. } => false,
    }
}

/// Executable check of [`event_matches`].
pub fn event_answers(phase: &Phase, event: &Event) -> (answers: bool)
    ensures
        answers == event_matches(phase@, event@),
{
    match (phase, event) {
        (Phase::AwaitIp, Event::IpResolved { .. }) => true,
        (Phase::AwaitIp, Event::IpFailed) => true,
        (Phase::AwaitDnsRead { .. }, Event::DnsRecords { .. }) => true,
        (Phase::AwaitDnsRead { .. }, Event::DnsReadFailed) => true,
        (Phase::AwaitDnsWrite { .. }, Event::DnsWritten { .. }) => true,
        (Phase::AwaitDnsWrite { .. }, Event::DnsWriteFailed) => true,
        (Phase::AwaitNotify { .. }, Event::Notified) => true,
        (Phase::AwaitNotify { .. }, Event::NotifyFailed) => true,
        _ => false,
    }
}

/// Every target index carried by a phase points at a configured target.
pub open spec fn phase_wf(cfg: &Config, p: PhaseView) -> bool {
    match p {
        PhaseView::AwaitIp => true,
        PhaseView::AwaitDnsRead { idx, .. } => 0 <= idx < cfg.domains@.len(),
        PhaseView::AwaitDnsWrite { idx, .. } => 0 <= idx < cfg.domains@.len(),
        PhaseView::AwaitNotify { idx, .. } => 0 <= idx < cfg.domains@.len(),
        PhaseView::Done { .. } => true,
        PhaseView::Failed { .. } => true,
    }
}

/// Move to target `idx`: request its read, or finish when every target is
/// done.
pub open spec fn next_domain_spec(
    cfg: &Config,
    ip: Seq<char>,
    idx: int,
    results: Seq<Seq<char>>,
) -> (PhaseView, ActionView) {
    if idx == cfg.domains@.len() {
        (PhaseView::Done { results }, ActionView::Report)
    } else {
        (
            PhaseView::AwaitDnsRead { ip, idx, results },
            ActionView::ReadDns {
                url: retrieve_url_spec(cfg.porkbun_base_url@, cfg.domains@[idx]@),
                request: DnsReadRequestView {
                    secretapikey: cfg.secretkey@,
                    apikey: cfg.apikey@,
                },
            },
        )
    }
}

/// Request that `message`, the labeled outcome for target `idx`, be delivered
/// to the webhook.
pub open spec fn notify_spec(
    cfg: &Config,
    ip: Seq<char>,
    idx: int,
    message: Seq<char>,
    results: Seq<Seq<char>>,
) -> (PhaseView, ActionView) {
    (
        PhaseView::AwaitNotify { ip, idx, message, results },
        ActionView::Notify {
            url: cfg.discord_webhook_url@,
            request: NotifyRequestView { content: message },
        },
    )
}

/// Abort the run.
pub open spec fn abort_spec(error: DdnsError) -> (PhaseView, ActionView) {
    (PhaseView::Failed { error }, ActionView::Abort { error })
}

/// The outcome message for target `idx` once the pending write was answered
/// with `status`: a literal success marker means the entry was updated; any
/// other status is the reportable "could not update" outcome.
pub open spec fn write_outcome_spec(status: Seq<char>, ip: Seq<char>, entry: Seq<char>) -> Seq<
    char,
> {
    if status == "SUCCESS"@ {
        updated_message_spec(ip)
    } else {
        failed_message_spec(entry, ip)
    }
}

/// One transition of the orchestrator: from the current phase and the answer
/// to its outstanding call, the next phase and the next call.
pub open spec fn step_spec(cfg: &Config, p: PhaseView, e: EventView) -> (PhaseView, ActionView)
    recommends
        event_matches(p, e),
{
    match (p, e) {
        (PhaseView::AwaitIp, EventView::IpResolved { body }) => next_domain_spec(
            cfg,
            trim_of(body),
            0,
            Seq::empty(),
        ),
        (PhaseView::AwaitIp, EventView::IpFailed) => abort_spec(DdnsError::IpLookup),
        (
            PhaseView::AwaitDnsRead { ip, idx, results },
            EventView::DnsRecords { records },
        ) => {
            if records.len() == 0 {
                abort_spec(DdnsError::NoRecords)
            } else {
                let entry = records[0].content;
                if ip == entry {
                    notify_spec(
                        cfg,
                        ip,
                        idx,
                        labeled_message_spec(
                            cfg.domains@.len() > 1,
                            cfg.domains@[idx]@,
                            unchanged_message_spec(ip, entry),
                        ),
                        results,
                    )
                } else {
                    (
                        PhaseView::AwaitDnsWrite { ip, idx, entry, results },
                        ActionView::WriteDns {
                            url: edit_url_spec(cfg.porkbun_base_url@, cfg.domains@[idx]@),
                            request: DnsWriteRequestView {
                                secretapikey: cfg.secretkey@,
                                apikey: cfg.apikey@,
                                content: ip,
                                ttl: "600"@,
                            },
                        },
                    )
                }
            }
        },
        (PhaseView::AwaitDnsRead { .. }, EventView::DnsReadFailed) => abort_spec(
            DdnsError::DnsRead,
        ),
        (
            PhaseView::AwaitDnsWrite { ip, idx, entry, results },
            EventView::DnsWritten { status },
        ) => notify_spec(
            cfg,
            ip,
            idx,
            labeled_message_spec(
                cfg.domains@.len() > 1,
                cfg.domains@[idx]@,
                write_outcome_spec(status, ip, entry),
            ),
            results,
        ),
        (PhaseView::AwaitDnsWrite { .. }, EventView::DnsWriteFailed) => abort_spec(
            DdnsError::DnsWrite,
        ),
        (
            PhaseView::AwaitNotify { ip, idx, message, results },
            EventView::Notified,
        ) => next_domain_spec(cfg, ip, idx + 1, results.push(message)),
        (PhaseView::AwaitNotify { .. }, EventView::NotifyFailed) => abort_spec(DdnsError::Notify),
        // No event answers a terminal phase, and `step` is never called there.
        _ => (p, ActionView::Report),
    }
}

fn next_domain(cfg: &Config, ip: String, idx: usize, results: Vec<String>) -> (r: (Phase, Action))
    requires
        idx <= cfg.domains@.len(),
    ensures
        (r.0@, r.1@) == next_domain_spec(cfg, ip@, idx as int, results.deep_view()),
        phase_wf(cfg, r.0@),
{
    if idx == cfg.domains.len() {
        (Phase::Done { results }, Action::Report)
    } else {
        let url = retrieve_url(cfg.porkbun_base_url.as_str(), &cfg.domains[idx]);
        let request = DnsReadRequest {
            secretapikey: cfg.secretkey.clone(),
            apikey: cfg.apikey.clone(),
        };
        (Phase::AwaitDnsRead { ip, idx, results }, Action::ReadDns { url, request })
    }
}

fn notify_target(cfg: &Config, ip: String, idx: usize, message: String, results: Vec<String>) -> (r:
    (Phase, Action))
    requires
        idx < cfg.domains@.len(),
    ensures
        (r.0@, r.1@) == notify_spec(cfg, ip@, idx as int, message@, results.deep_view()),
        phase_wf(cfg, r.0@),
{
    let url = cfg.discord_webhook_url.clone();
    let request = NotifyRequest { content: message.clone() };
    (Phase::AwaitNotify { ip, idx, message, results }, Action::Notify { url, request })
}

fn abort(error: DdnsError) -> (r: (Phase, Action))
    ensures
        (r.0@, r.1@) == abort_spec(error),
{
    (Phase::Failed { error }, Action::Abort { error })
}

/// Begin a run: the orchestrator awaits the current public IP, and the first
/// call to perform is a GET against the first configured lookup service.
pub fn start(cfg: &Config) -> (r: (Phase, Action))
    requires
        config_wf(cfg),
    ensures
        r.0@ == PhaseView::AwaitIp,
        r.1@ == (ActionView::ResolveIp { url: cfg.check_ip_providers@[0]@ }),
        phase_wf(cfg, r.0@),
{
    (Phase::AwaitIp, Action::ResolveIp { url: cfg.check_ip_providers[0].clone() })
}

/// Perform one transition: consume the answer to the outstanding call and
/// return the new phase together with the next call to perform.
pub fn step(cfg: &Config, phase: Phase, event: Event) -> (r: (Phase, Action))
    requires
        phase_wf(cfg, phase@),
        event_matches(phase@, event@),
    ensures
        (r.0@, r.1@) == step_spec(cfg, phase@, event@),
        phase_wf(cfg, r.0@),
{
    match (phase, event) {
        (Phase::AwaitIp, Event::IpResolved { body }) => {
            let ip = trim_ws(body.as_str());
            let results: Vec<String> = Vec::new();
            proof {
                assert(results.deep_view() =~= Seq::<Seq<char>>::empty());
            }
            next_domain(cfg, ip, 0, results)
        },
        (Phase::AwaitIp, Event::IpFailed) => abort(DdnsError::IpLookup),
        (Phase::AwaitDnsRead { ip, idx, results }, Event::DnsRecords { records }) => {
            if records.len() == 0 {
                abort(DdnsError::NoRecords)
            } else {
                let entry = records[0].content.clone();
                let multiple = cfg.domains.len() > 1;
                if ip == entry {
                    let outcome = unchanged_message(ip.as_str(), entry.as_str());
                    let message = labeled_message(multiple, &cfg.domains[idx], outcome);
                    notify_target(cfg, ip, idx, message, results)
                } else {
                    let url = edit_url(cfg.porkbun_base_url.as_str(), &cfg.domains[idx]);
                    let request = DnsWriteRequest {
                        secretapikey: cfg.secretkey.clone(),
                        apikey: cfg.apikey.clone(),
                        content: ip.clone(),
                        ttl: String::from_str("600"),
                    };
                    (
                        Phase::AwaitDnsWrite { ip, idx, entry, results },
                        Action::WriteDns { url, request },
                    )
                }
            }
        },
        (Phase::AwaitDnsRead { .. }, Event::DnsReadFailed) => abort(DdnsError::DnsRead),
        (Phase::AwaitDnsWrite { ip, idx, entry, results }, Event::DnsWritten { status }) => {
            let success = status == String::from_str("SUCCESS");
            let outcome = if success {
                updated_message(ip.as_str())
            } else {
                failed_message(entry.as_str(), ip.as_str())
            };
            let multiple = cfg.domains.len() > 1;
            let message = labeled_message(multiple, &cfg.domains[idx], outcome);
            notify_target(cfg, ip, idx, message, results)
        },
        (Phase::AwaitDnsWrite { .. }, Event::DnsWriteFailed) => abort(DdnsError::DnsWrite),
        (Phase::AwaitNotify { ip, idx, message, results }, Event::Notified) => {
            let count = cfg.domains.len();
            proof {
                assert(idx < count);
            }
            let ghost collected = results.deep_view();
            let mut results = results;
            results.push(message);
            proof {
                assert(results.deep_view() =~= collected.push(message@));
            }
            next_domain(cfg, ip, idx + 1, results)
        },
        (Phase::AwaitNotify { .. }, Event::NotifyFailed) => abort(DdnsError::Notify),
        _ => {
            // Unreachable: `event_matches` admits no other pairing.
            abort(DdnsError::IpLookup)
        },
    }
}

/// The phase and call trace that replaying `events` from phase `p` yields.
/// The machine steps while each answer matches the outstanding call, and
/// stops at a terminal phase, at the end of the transcript, or at an answer
/// that does not match.
pub open spec fn run_steps(cfg: &Config, p: PhaseView, events: Seq<EventView>) -> (
    PhaseView,
    Seq<ActionView>,
)
    decreases events.len(),
{
    if events.len() == 0 || !event_matches(p, events[0]) {
        (p, Seq::empty())
    } else {
        let stepped = step_spec(cfg, p, events[0]);
        let rest = run_steps(cfg, stepped.0, events.drop_first());
        (rest.0, seq![stepped.1] + rest.1)
    }
}

/// What one whole run did: every call it asked for, the IP lookup first, and
/// the phase it ended in (`Done` with the outcome messages, `Failed` with the
/// error, or an awaiting phase when the transcript ended early).
pub struct RunReport {
    pub actions: Vec<Action>,
    pub phase: Phase,
}

/// Run the updater against a transcript of collaborator answers: resolve the
/// current public IP once, then, for each configured domain target in order,
/// read its record, update it when its content differs from the resolved IP,
/// and report the outcome message to the webhook.
pub fn update_dns(cfg: &Config, events: Vec<Event>) -> (report: RunReport)
    requires
        config_wf(cfg),
    ensures
        ({
            let run = run_steps(cfg, PhaseView::AwaitIp, events.deep_view());
            &&& report.phase@ == run.0
            &&& report.actions.deep_view() == seq![
                ActionView::ResolveIp { url: cfg.check_ip_providers@[0]@ },
            ] + run.1
            &&& phase_wf(cfg, report.phase@)
        }),
{
    let ghost transcript = events.deep_view();
    let ghost first_action = ActionView::ResolveIp { url: cfg.check_ip_providers@[0]@ };
    let mut events = events;
    let started = start(cfg);
    let mut phase = started.0;
    let mut actions: Vec<Action> = Vec::new();
    actions.push(started.1);
    proof {
        assert(actions.deep_view() =~= seq![first_action]);
        assert(seq![first_action].drop_first() =~= Seq::<ActionView>::empty());
        assert(Seq::<ActionView>::empty() + run_steps(cfg, phase@, transcript).1 =~= run_steps(
            cfg,
            phase@,
            transcript,
        ).1);
    }
    while events.len() > 0 && event_answers(&phase, &events[0])
        invariant
            phase_wf(cfg, phase@),
            actions.deep_view().len() >= 1,
            actions.deep_view()[0] == first_action,
            run_steps(cfg, PhaseView::AwaitIp, transcript).0 == run_steps(
                cfg,
                phase@,
                events.deep_view(),
            ).0,
            run_steps(cfg, PhaseView::AwaitIp, transcript).1 == actions.deep_view().drop_first()
                + run_steps(cfg, phase@, events.deep_view()).1,
        decreases events@.len(),
    {
        let ghost pre_phase = phase@;
        let ghost pre_events = events.deep_view();
        let ghost pre_actions = actions.deep_view();
        let event = events.remove(0);
        proof {
            assert(events.deep_view() =~= pre_events.drop_first());
        }
        let stepped = step(cfg, phase, event);
        let ghost taken = stepped.1@;
        phase = stepped.0;
        actions.push(stepped.1);
        proof {
            assert(actions.deep_view() =~= pre_actions.push(taken));
            let rest = run_steps(cfg, phase@, events.deep_view());
            assert(run_steps(cfg, pre_phase, pre_events).1 == seq![taken] + rest.1);
            assert(pre_actions.push(taken).drop_first() =~= pre_actions.drop_first().push(taken));
            assert(pre_actions.drop_first().push(taken) + rest.1 =~= pre_actions.drop_first() + (
            seq![taken] + rest.1));
        }
    }
    proof {
        let remaining = events.deep_view();
        assert(remaining.len() == 0 || !event_matches(phase@, remaining[0]));
        assert(run_steps(cfg, phase@, remaining).1 =~= Seq::<ActionView>::empty());
        assert(actions.deep_view().drop_first() + Seq::<ActionView>::empty()
            =~= actions.deep_view().drop_first());
        assert(seq![first_action] + actions.deep_view().drop_first() =~= actions.deep_view());
    }
    RunReport { actions, phase }
}

} // verus!
