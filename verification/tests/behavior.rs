use ddns_rust::{
    config_is_valid, event_answers, start, step, update_dns, Action, Config, ConfigDomainsStruct,
    DdnsError, DnsRecord, Event, Phase,
};

fn config_with_domains(domains: Vec<ConfigDomainsStruct>) -> Config {
    Config {
        secretkey: String::from("secretkey"),
        apikey: String::from("apikey"),
        discord_webhook_url: String::from("http://discord.example/webhook"),
        check_ip_providers: Vec::from([
            String::from("http://ip.example/"),
            String::from("http://ip-spare.example/"),
        ]),
        domains,
        porkbun_base_url: String::from("http://porkbun.example"),
    }
}

fn target(domain: &str, subdomain: &str) -> ConfigDomainsStruct {
    ConfigDomainsStruct {
        domain: String::from(domain),
        dns_entry_type: String::from("A"),
        subdomain: String::from(subdomain),
    }
}

fn record(content: &str) -> DnsRecord {
    DnsRecord {
        id: String::from("12345"),
        name: String::from("subdomain.domain.tld"),
        record_type: String::from("A"),
        content: String::from(content),
        ttl: String::from("600"),
        prio: String::from("0"),
        notes: None,
    }
}

#[test]
fn ip_lookup_failure_aborts_before_any_provider_call() {
    let config = config_with_domains(Vec::from([target("domain.tld", "subdomain")]));
    // Whatever else the transcript holds, nothing past the failed lookup runs.
    let events = Vec::from([
        Event::IpFailed,
        Event::DnsRecords {
            records: Vec::from([record("10.0.1.2")]),
        },
    ]);
    let report = update_dns(&config, events);
    match report.phase {
        Phase::Failed { error } => assert_eq!(error, DdnsError::IpLookup),
        _ => panic!("the run should have aborted"),
    }
    assert_eq!(report.actions.len(), 2);
    assert!(matches!(report.actions[0], Action::ResolveIp { .. }));
    assert!(matches!(
        report.actions[1],
        Action::Abort {
            error: DdnsError::IpLookup
        }
    ));
}

#[test]
fn empty_record_list_aborts_the_run() {
    let config = config_with_domains(Vec::from([target("domain.tld", "subdomain")]));
    let events = Vec::from([
        Event::IpResolved {
            body: String::from("10.0.1.1"),
        },
        Event::DnsRecords {
            records: Vec::new(),
        },
    ]);
    let report = update_dns(&config, events);
    match report.phase {
        Phase::Failed { error } => assert_eq!(error, DdnsError::NoRecords),
        _ => panic!("the run should have aborted"),
    }
}

#[test]
fn write_transport_failure_aborts_the_run() {
    let config = config_with_domains(Vec::from([target("domain.tld", "subdomain")]));
    let events = Vec::from([
        Event::IpResolved {
            body: String::from("10.0.1.1"),
        },
        Event::DnsRecords {
            records: Vec::from([record("10.0.1.2")]),
        },
        Event::DnsWriteFailed,
    ]);
    let report = update_dns(&config, events);
    match report.phase {
        Phase::Failed { error } => assert_eq!(error, DdnsError::DnsWrite),
        _ => panic!("the run should have aborted"),
    }
}

#[test]
fn webhook_failure_aborts_the_run() {
    let config = config_with_domains(Vec::from([target("domain.tld", "subdomain")]));
    let events = Vec::from([
        Event::IpResolved {
            body: String::from("10.0.1.1"),
        },
        Event::DnsRecords {
            records: Vec::from([record("10.0.1.1")]),
        },
        Event::NotifyFailed,
    ]);
    let report = update_dns(&config, events);
    match report.phase {
        Phase::Failed { error } => assert_eq!(error, DdnsError::Notify),
        _ => panic!("the run should have aborted"),
    }
}

#[test]
fn two_domains_give_two_labeled_outcomes_in_order() {
    let config = config_with_domains(Vec::from([
        target("one.tld", "www"),
        target("two.tld", "home"),
    ]));
    let events = Vec::from([
        Event::IpResolved {
            body: String::from("10.0.1.1"),
        },
        // First target: already up to date.
        Event::DnsRecords {
            records: Vec::from([record("10.0.1.1")]),
        },
        Event::Notified,
        // Second target: updated successfully.
        Event::DnsRecords {
            records: Vec::from([record("10.0.1.2")]),
        },
        Event::DnsWritten {
            status: String::from("SUCCESS"),
        },
        Event::Notified,
    ]);
    let report = update_dns(&config, events);
    match report.phase {
        Phase::Done { results } => {
            assert_eq!(results.len(), 2);
            assert_eq!(
                "www.one.tld: Current IP: 10.0.1.1, identical to current DNS Entry, 10.0.1.1. Not updating.",
                results[0]
            );
            assert_eq!("home.two.tld: Updated DNS Entry to 10.0.1.1", results[1]);
        }
        _ => panic!("the run did not complete"),
    }
    // The second target's read went to its own endpoint.
    match &report.actions[3] {
        Action::ReadDns { url, .. } => {
            assert_eq!(url, "http://porkbun.example/retrieveByNameType/two.tld/A/home");
        }
        _ => panic!("expected the second read"),
    }
}

#[test]
fn lookup_response_body_is_trimmed() {
    let config = config_with_domains(Vec::from([target("domain.tld", "subdomain")]));
    let events = Vec::from([
        Event::IpResolved {
            body: String::from("  10.0.1.1\n"),
        },
        Event::DnsRecords {
            records: Vec::from([record("10.0.1.1")]),
        },
        Event::Notified,
    ]);
    let report = update_dns(&config, events);
    match report.phase {
        Phase::Done { results } => {
            assert_eq!(
                "Current IP: 10.0.1.1, identical to current DNS Entry, 10.0.1.1. Not updating.",
                results[0]
            );
        }
        _ => panic!("the run did not complete"),
    }
    // The trimmed IP equals the record content, so no write was requested.
    assert!(report
        .actions
        .iter()
        .all(|action| !matches!(action, Action::WriteDns { .. })));
}

#[test]
fn short_transcript_leaves_the_run_awaiting() {
    let config = config_with_domains(Vec::from([target("domain.tld", "subdomain")]));
    let events = Vec::from([Event::IpResolved {
        body: String::from("10.0.1.1"),
    }]);
    let report = update_dns(&config, events);
    match report.phase {
        Phase::AwaitDnsRead { ip, idx, results } => {
            assert_eq!(ip, "10.0.1.1");
            assert_eq!(idx, 0);
            assert!(results.is_empty());
        }
        _ => panic!("the run should still await the provider read"),
    }
}

#[test]
fn answer_that_does_not_match_stops_the_run() {
    let config = config_with_domains(Vec::from([target("domain.tld", "subdomain")]));
    let events = Vec::from([
        Event::IpResolved {
            body: String::from("10.0.1.1"),
        },
        Event::Notified,
    ]);
    let report = update_dns(&config, events);
    // The stray answer is not consumed: the run still awaits the read.
    assert!(matches!(report.phase, Phase::AwaitDnsRead { .. }));
    assert_eq!(report.actions.len(), 2);
}

#[test]
fn configuration_needs_a_lookup_service_and_a_target() {
    let valid = config_with_domains(Vec::from([target("domain.tld", "subdomain")]));
    assert!(config_is_valid(&valid));

    let no_domains = config_with_domains(Vec::new());
    assert!(!config_is_valid(&no_domains));

    let mut no_providers = config_with_domains(Vec::from([target("domain.tld", "subdomain")]));
    no_providers.check_ip_providers = Vec::new();
    assert!(!config_is_valid(&no_providers));
}

#[test]
fn stepping_by_hand_matches_the_replayed_run() {
    let config = config_with_domains(Vec::from([target("domain.tld", "subdomain")]));
    let (phase, action) = start(&config);
    match &action {
        Action::ResolveIp { url } => assert_eq!(url, "http://ip.example/"),
        _ => panic!("expected the IP lookup first"),
    }
    let event = Event::IpResolved {
        body: String::from("10.0.1.1"),
    };
    assert!(event_answers(&phase, &event));
    let (phase, action) = step(&config, phase, event);
    match &action {
        Action::ReadDns { url, .. } => {
            assert_eq!(
                url,
                "http://porkbun.example/retrieveByNameType/domain.tld/A/subdomain"
            );
        }
        _ => panic!("expected the provider read"),
    }
    let event = Event::DnsRecords {
        records: Vec::from([record("10.0.1.1")]),
    };
    assert!(event_answers(&phase, &event));
    let (phase, action) = step(&config, phase, event);
    match &action {
        Action::Notify { request, .. } => {
            assert_eq!(
                request.content,
                "Current IP: 10.0.1.1, identical to current DNS Entry, 10.0.1.1. Not updating."
            );
        }
        _ => panic!("expected the webhook call"),
    }
    let (phase, action) = step(&config, phase, Event::Notified);
    assert!(matches!(action, Action::Report));
    match phase {
        Phase::Done { results } => assert_eq!(results.len(), 1),
        _ => panic!("the run did not complete"),
    }
}

#[test]
fn only_the_first_lookup_service_is_used() {
    let config = config_with_domains(Vec::from([target("domain.tld", "subdomain")]));
    let report = update_dns(&config, Vec::new());
    // The spare lookup service is configured but never called.
    assert_eq!(report.actions.len(), 1);
    match &report.actions[0] {
        Action::ResolveIp { url } => assert_eq!(url, "http://ip.example/"),
        _ => panic!("expected the IP lookup first"),
    }
}
