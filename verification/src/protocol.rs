//! The orchestrator's interface to its collaborators: the outbound calls it
//! asks for ([`Action`]), the answers it consumes ([`Event`]), the provider's
//! record shape ([`DnsRecord`]), and the reasons a run aborts ([`DdnsError`]).

use vstd::prelude::*;

verus! {

/// The provider's view of one DNS record. Only `content` is ever read or
/// written by this updater; the other fields are carried along unmodified.
pub struct DnsRecord {
    pub id: String,
    pub name: String,
    pub record_type: String,
    pub content: String,
    pub ttl: String,
    pub prio: String,
    pub notes: Option<String>,
}

/// The mathematical view of a DNS record.
pub struct DnsRecordView {
    pub id: Seq<char>,
    pub name: Seq<char>,
    pub record_type: Seq<char>,
    pub content: Seq<char>,
    pub ttl: Seq<char>,
    pub prio: Seq<char>,
    pub notes: Option<Seq<char>>,
}

impl View for DnsRecord {
    type V = DnsRecordView;

    open spec fn view(&self) -> DnsRecordView {
        DnsRecordView {
            id: self.id@,
            name: self.name@,
            record_type: self.record_type@,
            content: self.content@,
            ttl: self.ttl@,
            prio: self.prio@,
            notes: self.notes.deep_view(),
        }
    }
}

impl DeepView for DnsRecord {
    type V = DnsRecordView;

    open spec fn deep_view(&self) -> DnsRecordView {
        self.view()
    }
}

/// Why a run aborted. A provider write answered with a non-success status is
/// not among these: it is a normal, reported outcome, not a fault.
#[derive(Clone, Copy, Debug, PartialEq, Eq, Structural)]
pub enum DdnsError {
    /// The IP-lookup call failed; nothing else was attempted.
    IpLookup,
    /// A provider read failed in transport or returned a malformed payload.
    DnsRead,
    /// A provider read answered with an empty record list.
    NoRecords,
    /// A provider write failed in transport or returned a malformed payload.
    DnsWrite,
    /// A webhook call failed.
    Notify,
}

/// What a collaborator answered to the pending outbound call.
pub enum Event {
    /// The IP-lookup service answered with this response body.
    IpResolved { body: String },
    /// The IP-lookup call failed: network error or non-success status.
    IpFailed,
    /// The provider answered the pending read with this record list.
    DnsRecords { records: Vec<DnsRecord> },
    /// The pending read failed: transport error, non-success status, or a
    /// payload that is not a record list.
    DnsReadFailed,
    /// The provider answered the pending write with this status field.
    DnsWritten { status: String },
    /// The pending write failed in transport or returned a malformed payload.
    DnsWriteFailed,
    /// The webhook accepted the pending message.
    Notified,
    /// The webhook call failed.
    NotifyFailed,
}

/// The mathematical view of an [`Event`].
pub enum EventView {
    IpResolved { body: Seq<char> },
    IpFailed,
    DnsRecords { records: Seq<DnsRecordView> },
    DnsReadFailed,
    DnsWritten { status: Seq<char> },
    DnsWriteFailed,
    Notified,
    NotifyFailed,
}

impl View for Event {
    type V = EventView;

    open spec fn view(&self) -> EventView {
        match self {
            Event::IpResolved { body } => EventView::IpResolved { body: body@ },
            Event::IpFailed => EventView::IpFailed,
            Event::DnsRecords { records } => EventView::DnsRecords {
                records: records.deep_view(),
            },
            Event::DnsReadFailed => EventView::DnsReadFailed,
            Event::DnsWritten { status } => EventView::DnsWritten { status: status@ },
            Event::DnsWriteFailed => EventView::DnsWriteFailed,
            Event::Notified => EventView::Notified,
            Event::NotifyFailed => EventView::NotifyFailed,
        }
    }
}

impl DeepView for Event {
    type V = EventView;

    open spec fn deep_view(&self) -> EventView {
        self.view()
    }
}

/// The body of a provider read: the two credentials.
pub struct DnsReadRequest {
    pub secretapikey: String,
    pub apikey: String,
}

/// The view of a read request body.
pub struct DnsReadRequestView {
    pub secretapikey: Seq<char>,
    pub apikey: Seq<char>,
}

impl View for DnsReadRequest {
    type V = DnsReadRequestView;

    open spec fn view(&self) -> DnsReadRequestView {
        DnsReadRequestView { secretapikey: self.secretapikey@, apikey: self.apikey@ }
    }
}

/// The body of a provider write: the credentials, the new record content, and
/// the fixed TTL, transmitted as its string representation.
pub struct DnsWriteRequest {
    pub secretapikey: String,
    pub apikey: String,
    pub content: String,
    pub ttl: String,
}

/// The view of a write request body.
pub struct DnsWriteRequestView {
    pub secretapikey: Seq<char>,
    pub apikey: Seq<char>,
    pub content: Seq<char>,
    pub ttl: Seq<char>,
}

impl View for DnsWriteRequest {
    type V = DnsWriteRequestView;

    open spec fn view(&self) -> DnsWriteRequestView {
        DnsWriteRequestView {
            secretapikey: self.secretapikey@,
            apikey: self.apikey@,
            content: self.content@,
            ttl: self.ttl@,
        }
    }
}

/// The body of a webhook call: the outcome message to deliver.
pub struct NotifyRequest {
    pub content: String,
}

/// The view of a webhook request body.
pub struct NotifyRequestView {
    pub content: Seq<char>,
}

impl View for NotifyRequest {
    type V = NotifyRequestView;

    open spec fn view(&self) -> NotifyRequestView {
        NotifyRequestView { content: self.content@ }
    }
}

/// The next outbound call the orchestrator asks its driver to perform, or the
/// terminal outcome of the run.
#[allow(inconsistent_fields)]
pub enum Action {
    /// GET this URL; the response body is the current public IP.
    ResolveIp { url: String },
    /// POST the read request to this URL.
    ReadDns { url: String, request: DnsReadRequest },
    /// POST the write request to this URL.
    WriteDns { url: String, request: DnsWriteRequest },
    /// POST the outcome message to the webhook.
    Notify { url: String, request: NotifyRequest },
    /// The run finished; the outcome messages stand in the final phase.
    Report,
    /// The run aborted with this error.
    Abort { error: DdnsError },
}

/// The mathematical view of an [`Action`].
#[allow(inconsistent_fields)]
pub enum ActionView {
    ResolveIp { url: Seq<char> },
    ReadDns { url: Seq<char>, request: DnsReadRequestView },
    WriteDns { url: Seq<char>, request: DnsWriteRequestView },
    Notify { url: Seq<char>, request: NotifyRequestView },
    Report,
    Abort { error: DdnsError },
}

impl View for Action {
    type V = ActionView;

    open spec fn view(&self) -> ActionView {
        match self {
            Action::ResolveIp { url } => ActionView::ResolveIp { url: url@ },
            Action::ReadDns { url, request } => ActionView::ReadDns {
                url: url@,
                request: request@,
            },
            Action::WriteDns { url, request } => ActionView::WriteDns {
                url: url@,
                request: request@,
            },
            Action::Notify { url, request } => ActionView::Notify {
                url: url@,
                request: request@,
            },
            Action::Report => ActionView::Report,
            Action::Abort { error } => ActionView::Abort { error: *error },
        }
    }
}

impl DeepView for Action {
    type V = ActionView;

    open spec fn deep_view(&self) -> ActionView {
        self.view()
    }
}

} // verus!
