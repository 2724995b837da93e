use ddns_rust::{update_dns, Action, Config, ConfigDomainsStruct, DdnsError, DnsRecord, Event, Phase};

fn single_domain_config() -> Config {
    Config {
        secretkey: String::from("secretkey"),
        apikey: String::from("apikey"),
        discord_webhook_url: String::from("http://discord.example/webhook"),
        check_ip_providers: Vec::from([String::from("http://ip.example/")]),
        domains: Vec::from([ConfigDomainsStruct {
            domain: String::from("domain.tld"),
            dns_entry_type: String::from("A"),
            subdomain: String::from("subdomain"),
        }]),
        porkbun_base_url: String::from("http://porkbun.example"),
    }
}

fn record_with_content(content: &str) -> DnsRecord {
    DnsRecord {
        id: String::from("12345"),
        name: String::from("subdomain.domain.tld"),
        record_type: String::from("A"),
        content: String::from(content),
        ttl: String::from("600"),
        prio: String::from("0"),
        notes: Some(String::from("")),
    }
}

#[test]
fn test_update_dns() {
    let config = single_domain_config();
    let events = Vec::from([
        Event::IpResolved {
            body: String::from("10.0.1.1"),
        },
        Event::DnsRecords {
            records: Vec::from([record_with_content("10.0.1.2")]),
        },
        Event::DnsWritten {
            status: String::from("SUCCESS"),
        },
        Event::Notified,
    ]);
    let report = update_dns(&config, events);
    match report.phase {
        Phase::Done { results } => {
            assert_eq!(results.len(), 1);
            assert_eq!("Updated DNS Entry to 10.0.1.1", results[0]);
        }
        _ => panic!("the run did not complete"),
    }
    assert_eq!(report.actions.len(), 5);
    match &report.actions[0] {
        Action::ResolveIp { url } => assert_eq!(url, "http://ip.example/"),
        _ => panic!("expected the IP lookup first"),
    }
    match &report.actions[1] {
        Action::ReadDns { url, request } => {
            assert_eq!(
                url,
                "http://porkbun.example/retrieveByNameType/domain.tld/A/subdomain"
            );
            assert_eq!(request.secretapikey, "secretkey");
            assert_eq!(request.apikey, "apikey");
        }
        _ => panic!("expected the provider read"),
    }
    match &report.actions[2] {
        Action::WriteDns { url, request } => {
            assert_eq!(
                url,
                "http://porkbun.example/editByNameType/domain.tld/A/subdomain"
            );
            assert_eq!(request.secretapikey, "secretkey");
            assert_eq!(request.apikey, "apikey");
            assert_eq!(request.content, "10.0.1.1");
            assert_eq!(request.ttl, "600");
        }
        _ => panic!("expected the provider write"),
    }
    match &report.actions[3] {
        Action::Notify { url, request } => {
            assert_eq!(url, "http://discord.example/webhook");
            assert_eq!(request.content, "Updated DNS Entry to 10.0.1.1");
        }
        _ => panic!("expected the webhook call"),
    }
    assert!(matches!(report.actions[4], Action::Report));
}

#[test]
fn test_ip_already_updated() {
    let config = single_domain_config();
    let events = Vec::from([
        Event::IpResolved {
            body: String::from("10.0.1.1"),
        },
        Event::DnsRecords {
            records: Vec::from([record_with_content("10.0.1.1")]),
        },
        Event::Notified,
    ]);
    let report = update_dns(&config, events);
    match report.phase {
        Phase::Done { results } => {
            assert_eq!(results.len(), 1);
            assert_eq!(
                "Current IP: 10.0.1.1, identical to current DNS Entry, 10.0.1.1. Not updating.",
                results[0]
            );
        }
        _ => panic!("the run did not complete"),
    }
    // No write call was made: the trace is lookup, read, notify, report.
    assert_eq!(report.actions.len(), 4);
    assert!(report
        .actions
        .iter()
        .all(|action| !matches!(action, Action::WriteDns { .. })));
    assert!(matches!(report.actions[1], Action::ReadDns { .. }));
    assert!(matches!(report.actions[2], Action::Notify { .. }));
}

#[test]
fn test_error_updating_dns() {
    let config = single_domain_config();
    let events = Vec::from([
        Event::IpResolved {
            body: String::from("10.0.1.1"),
        },
        Event::DnsRecords {
            records: Vec::from([record_with_content("10.0.1.2")]),
        },
        Event::DnsWritten {
            status: String::from("error"),
        },
        Event::Notified,
    ]);
    let report = update_dns(&config, events);
    match report.phase {
        Phase::Done { results } => {
            assert_eq!(results.len(), 1);
            assert_eq!("Could not update DNS Entry. 10.0.1.2 -> 10.0.1.1", results[0]);
        }
        _ => panic!("the run did not complete"),
    }
    // The failed update is still a reported outcome, not a fault.
    match &report.actions[3] {
        Action::Notify { request, .. } => {
            assert_eq!(
                request.content,
                "Could not update DNS Entry. 10.0.1.2 -> 10.0.1.1"
            );
        }
        _ => panic!("expected the webhook call"),
    }
}

#[test]
fn test_error_getting_dns() {
    // The provider's answer to the read could not be parsed as a record list:
    // the run aborts with no outcome list.
    let config = single_domain_config();
    let events = Vec::from([
        Event::IpResolved {
            body: String::from("10.0.1.1"),
        },
        Event::DnsReadFailed,
    ]);
    let report = update_dns(&config, events);
    match report.phase {
        Phase::Failed { error } => assert_eq!(error, DdnsError::DnsRead),
        _ => panic!("the run should have aborted"),
    }
    assert!(matches!(report.actions[2], Action::Abort { .. }));
}
