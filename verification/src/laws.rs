//! Properties of the orchestrator that hold of every run, proved against the
//! transition spec [`step_spec`] and the trace spec [`run_steps`].

use vstd::prelude::*;

use crate::config::{Config, DomainTargetView};
use crate::engine::{event_matches, run_steps, step_spec, write_outcome_spec, PhaseView};
use crate::messages::{
    failed_message_spec, labeled_message_spec, target_label_spec, trim_of, unchanged_message_spec,
    updated_message_spec,
};
use crate::protocol::{ActionView, DdnsError, DnsRecordView, EventView};

verus! {

/// `message` begins with the characters of `prefix`.
pub open spec fn starts_with(message: Seq<char>, prefix: Seq<char>) -> bool {
    message.len() >= prefix.len() && message.subrange(0, prefix.len() as int) == prefix
}

/// When more than one target is configured, an outcome message for target `j`
/// carries that target's label in front.
pub open spec fn outcome_labeled(cfg: &Config, j: int, message: Seq<char>) -> bool
    recommends
        0 <= j < cfg.domains@.len(),
{
    cfg.domains@.len() > 1 ==> starts_with(message, target_label_spec(cfg.domains@[j]@))
}

/// What the machine maintains across steps: target indexes point at configured
/// targets, exactly one outcome message was collected per finished target,
/// each labeled when several targets are configured, and a write is
/// outstanding only while the resolved IP differs from the record content.
pub open spec fn phase_inv(cfg: &Config, p: PhaseView) -> bool {
    match p {
        PhaseView::AwaitIp => true,
        PhaseView::AwaitDnsRead { ip, idx, results } => {
            &&& 0 <= idx < cfg.domains@.len()
            &&& results.len() == idx
            &&& forall|j: int|
                0 <= j < results.len() ==> outcome_labeled(cfg, j, #[trigger] results[j])
        },
        PhaseView::AwaitDnsWrite { ip, idx, entry, results } => {
            &&& 0 <= idx < cfg.domains@.len()
            &&& results.len() == idx
            &&& ip != entry
            &&& forall|j: int|
                0 <= j < results.len() ==> outcome_labeled(cfg, j, #[trigger] results[j])
        },
        PhaseView::AwaitNotify { ip, idx, message, results } => {
            &&& 0 <= idx < cfg.domains@.len()
            &&& results.len() == idx
            &&& outcome_labeled(cfg, idx, message)
            &&& forall|j: int|
                0 <= j < results.len() ==> outcome_labeled(cfg, j, #[trigger] results[j])
        },
        PhaseView::Done { results } => {
            &&& results.len() == cfg.domains@.len()
            &&& forall|j: int|
                0 <= j < results.len() ==> outcome_labeled(cfg, j, #[trigger] results[j])
        },
        PhaseView::Failed { .. } => true,
    }
}

/// A labeled message begins with its target's label.
proof fn lemma_labeled_starts_with_label(
    multiple: bool,
    target: DomainTargetView,
    message: Seq<char>,
)
    ensures
        multiple ==> starts_with(
            labeled_message_spec(multiple, target, message),
            target_label_spec(target),
        ),
{
    if multiple {
        let label = target_label_spec(target);
        assert((label + message).subrange(0, label.len() as int) =~= label);
    }
}

/// One step of the machine preserves [`phase_inv`].
pub proof fn lemma_step_preserves_inv(cfg: &Config, p: PhaseView, e: EventView)
    requires
        phase_inv(cfg, p),
        event_matches(p, e),
    ensures
        phase_inv(cfg, step_spec(cfg, p, e).0),
{
    let multiple = cfg.domains@.len() > 1;
    match (p, e) {
        (PhaseView::AwaitDnsRead { ip, idx, results }, EventView::DnsRecords { records }) => {
            if records.len() > 0 && ip == records[0].content {
                lemma_labeled_starts_with_label(
                    multiple,
                    cfg.domains@[idx]@,
                    unchanged_message_spec(ip, records[0].content),
                );
            }
        },
        (PhaseView::AwaitDnsWrite { ip, idx, entry, results }, EventView::DnsWritten { status }) => {
            lemma_labeled_starts_with_label(
                multiple,
                cfg.domains@[idx]@,
                write_outcome_spec(status, ip, entry),
            );
        },
        (PhaseView::AwaitNotify { ip, idx, message, results }, EventView::Notified) => {
            let extended = results.push(message);
            assert forall|j: int| 0 <= j < extended.len() implies outcome_labeled(
                cfg,
                j,
                #[trigger] extended[j],
            ) by {
                if j < results.len() {
                    assert(extended[j] == results[j]);
                } else {
                    assert(extended[j] == message);
                }
            }
        },
        _ => {},
    }
}

/// Replaying any transcript preserves [`phase_inv`].
pub proof fn lemma_run_preserves_inv(cfg: &Config, p: PhaseView, events: Seq<EventView>)
    requires
        phase_inv(cfg, p),
    ensures
        phase_inv(cfg, run_steps(cfg, p, events).0),
    decreases events.len(),
{
    if events.len() == 0 || !event_matches(p, events[0]) {
    } else {
        lemma_step_preserves_inv(cfg, p, events[0]);
        lemma_run_preserves_inv(cfg, step_spec(cfg, p, events[0]).0, events.drop_first());
    }
}

/// A run that completes produces exactly one outcome message per configured
/// domain target.
pub proof fn lemma_completed_run_one_outcome_per_target(cfg: &Config, events: Seq<EventView>)
    ensures
        run_steps(cfg, PhaseView::AwaitIp, events).0 matches PhaseView::Done { results }
            ==> results.len() == cfg.domains@.len(),
{
    lemma_run_preserves_inv(cfg, PhaseView::AwaitIp, events);
}

/// When more than one domain target is configured, every outcome message of a
/// completed run begins with its own target's "<subdomain>.<domain>: " label.
pub proof fn lemma_outcomes_carry_target_label(cfg: &Config, events: Seq<EventView>)
    ensures
        run_steps(cfg, PhaseView::AwaitIp, events).0 matches PhaseView::Done { results } ==> (
        forall|j: int|
            0 <= j < results.len() && cfg.domains@.len() > 1 ==> starts_with(
                #[trigger] results[j],
                target_label_spec(cfg.domains@[j]@),
            )),
{
    lemma_run_preserves_inv(cfg, PhaseView::AwaitIp, events);
}

/// When the resolved IP equals the record content that the provider returned,
/// the outcome message is exactly the "not updating" text for that value, and
/// the machine requests a webhook call, not a write.
pub proof fn lemma_unchanged_entry_skips_write(
    cfg: &Config,
    ip: Seq<char>,
    idx: int,
    results: Seq<Seq<char>>,
    records: Seq<DnsRecordView>,
)
    requires
        records.len() > 0,
        records[0].content == ip,
    ensures
        ({
            let stepped = step_spec(
                cfg,
                PhaseView::AwaitDnsRead { ip, idx, results },
                EventView::DnsRecords { records },
            );
            let message = labeled_message_spec(
                cfg.domains@.len() > 1,
                cfg.domains@[idx]@,
                unchanged_message_spec(ip, ip),
            );
            &&& !(stepped.1 is WriteDns)
            &&& stepped.1 matches ActionView::Notify { url, request } && url
                == cfg.discord_webhook_url@ && request.content == message
            &&& stepped.0 == (PhaseView::AwaitNotify { ip, idx, message, results })
        }),
{
}

/// When the resolved IP differs from the record content and the provider
/// answers the write with the literal success marker, the outcome message is
/// exactly "Updated DNS Entry to <ip>", labeled with its target.
pub proof fn lemma_write_success_outcome(
    cfg: &Config,
    ip: Seq<char>,
    idx: int,
    entry: Seq<char>,
    results: Seq<Seq<char>>,
    status: Seq<char>,
)
    requires
        ip != entry,
        status == "SUCCESS"@,
    ensures
        ({
            let stepped = step_spec(
                cfg,
                PhaseView::AwaitDnsWrite { ip, idx, entry, results },
                EventView::DnsWritten { status },
            );
            let message = labeled_message_spec(
                cfg.domains@.len() > 1,
                cfg.domains@[idx]@,
                updated_message_spec(ip),
            );
            stepped.1 matches ActionView::Notify { url, request } && url
                == cfg.discord_webhook_url@ && request.content == message
        }),
{
}

/// When the resolved IP differs from the record content and the provider
/// answers the write with any other status, the outcome message is exactly
/// "Could not update DNS Entry. <entry> -> <ip>", labeled with its target.
pub proof fn lemma_write_failure_outcome(
    cfg: &Config,
    ip: Seq<char>,
    idx: int,
    entry: Seq<char>,
    results: Seq<Seq<char>>,
    status: Seq<char>,
)
    requires
        ip != entry,
        status != "SUCCESS"@,
    ensures
        ({
            let stepped = step_spec(
                cfg,
                PhaseView::AwaitDnsWrite { ip, idx, entry, results },
                EventView::DnsWritten { status },
            );
            let message = labeled_message_spec(
                cfg.domains@.len() > 1,
                cfg.domains@[idx]@,
                failed_message_spec(entry, ip),
            );
            stepped.1 matches ActionView::Notify { url, request } && url
                == cfg.discord_webhook_url@ && request.content == message
        }),
{
}

/// A non-terminal phase past the IP lookup carries `ip` as the one resolved
/// IP of the run.
pub open spec fn carries_ip(p: PhaseView, ip: Seq<char>) -> bool {
    match p {
        PhaseView::AwaitIp => false,
        PhaseView::AwaitDnsRead { ip: current, .. } => current == ip,
        PhaseView::AwaitDnsWrite { ip: current, .. } => current == ip,
        PhaseView::AwaitNotify { ip: current, .. } => current == ip,
        PhaseView::Done { .. } => true,
        PhaseView::Failed { .. } => true,
    }
}

/// A provider write asks to store exactly `ip` with the fixed TTL "600" and
/// the configured credentials.
pub open spec fn write_uses_resolved_ip(cfg: &Config, a: ActionView, ip: Seq<char>) -> bool {
    a matches ActionView::WriteDns { url, request } ==> {
        &&& request.content == ip
        &&& request.ttl == "600"@
        &&& request.secretapikey == cfg.secretkey@
        &&& request.apikey == cfg.apikey@
    }
}

/// From any phase that carries `ip`, every write the machine ever requests
/// stores exactly `ip`, with TTL "600" and the configured credentials.
pub proof fn lemma_run_writes_carry_ip(cfg: &Config, p: PhaseView, ip: Seq<char>, events: Seq<EventView>)
    requires
        carries_ip(p, ip),
    ensures
        forall|j: int|
            0 <= j < run_steps(cfg, p, events).1.len() ==> write_uses_resolved_ip(
                cfg,
                #[trigger] run_steps(cfg, p, events).1[j],
                ip,
            ),
    decreases events.len(),
{
    if events.len() == 0 || !event_matches(p, events[0]) {
    } else {
        let stepped = step_spec(cfg, p, events[0]);
        let rest = run_steps(cfg, stepped.0, events.drop_first());
        assert(carries_ip(stepped.0, ip));
        assert(write_uses_resolved_ip(cfg, stepped.1, ip));
        lemma_run_writes_carry_ip(cfg, stepped.0, ip, events.drop_first());
        let trace = run_steps(cfg, p, events).1;
        assert forall|j: int| 0 <= j < trace.len() implies write_uses_resolved_ip(
            cfg,
            #[trigger] trace[j],
            ip,
        ) by {
            if j == 0 {
                assert(trace[j] == stepped.1);
            } else {
                assert(trace[j] == rest.1[j - 1]);
            }
        }
    }
}

/// Exactly one current-IP value is resolved per run and reused for every
/// domain target: once the lookup answers with `body`, every write the whole
/// run requests stores the trimmed `body`, with TTL "600" and the configured
/// credentials.
pub proof fn lemma_one_ip_per_run(cfg: &Config, events: Seq<EventView>)
    requires
        events.len() >= 1,
        events[0] matches EventView::IpResolved { body },
    ensures
        forall|j: int|
            0 <= j < run_steps(cfg, PhaseView::AwaitIp, events).1.len()
                ==> write_uses_resolved_ip(
                cfg,
                #[trigger] run_steps(cfg, PhaseView::AwaitIp, events).1[j],
                trim_of(events[0]->IpResolved_body),
            ),
{
    let ip = trim_of(events[0]->IpResolved_body);
    let stepped = step_spec(cfg, PhaseView::AwaitIp, events[0]);
    let rest = run_steps(cfg, stepped.0, events.drop_first());
    assert(carries_ip(stepped.0, ip));
    assert(write_uses_resolved_ip(cfg, stepped.1, ip));
    lemma_run_writes_carry_ip(cfg, stepped.0, ip, events.drop_first());
    let trace = run_steps(cfg, PhaseView::AwaitIp, events).1;
    assert forall|j: int| 0 <= j < trace.len() implies write_uses_resolved_ip(
        cfg,
        #[trigger] trace[j],
        ip,
    ) by {
        if j == 0 {
            assert(trace[j] == stepped.1);
        } else {
            assert(trace[j] == rest.1[j - 1]);
        }
    }
}

/// A failed IP lookup aborts the run at once: whatever the rest of the
/// transcript holds, the trace requests no DNS-provider read or write and no
/// webhook call.
pub proof fn lemma_ip_failure_aborts_run(cfg: &Config, events: Seq<EventView>)
    requires
        events.len() >= 1,
        events[0] is IpFailed,
    ensures
        ({
            let run = run_steps(cfg, PhaseView::AwaitIp, events);
            &&& run.0 == (PhaseView::Failed { error: DdnsError::IpLookup })
            &&& run.1 == seq![ActionView::Abort { error: DdnsError::IpLookup }]
            &&& forall|j: int|
                0 <= j < run.1.len() ==> !((#[trigger] run.1[j]) is ReadDns || run.1[j] is WriteDns
                    || run.1[j] is Notify)
        }),
{
    let run = run_steps(cfg, PhaseView::AwaitIp, events);
    let stepped = step_spec(cfg, PhaseView::AwaitIp, events[0]);
    assert(stepped.0 == (PhaseView::Failed { error: DdnsError::IpLookup }));
    assert(run_steps(cfg, stepped.0, events.drop_first()).1 =~= Seq::<ActionView>::empty());
    assert(run.1 =~= seq![ActionView::Abort { error: DdnsError::IpLookup }]);
}

} // verus!
