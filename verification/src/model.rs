//! The values a reconciliation run works on, each with its mathematical view.
//!
//! Text is viewed as a sequence of characters, and every contract of the
//! crate is stated over these views.

use vstd::prelude::*;

verus! {

/// Time-to-live, in seconds, that every update writes.
pub const UPDATE_TTL: u32 = 120;

/// Proxying flag that every update writes.
pub const UPDATE_PROXIED: bool = false;

/// View of an optional text.
pub open spec fn text_view(text: Option<String>) -> Option<Seq<char>> {
    match text {
        Some(t) => Some(t@),
        None => None,
    }
}

/// View of a [`Notification`].
pub struct NotificationView {
    pub reported_ip: Seq<char>,
    pub domain_name: Seq<char>,
    pub credential: Seq<char>,
}

/// One update notification: the address the router reports, the
/// fully-qualified name it is for, and the credential to present to the
/// provider. It belongs to a single run.
///
/// The credential is a secret, so a notification cannot be printed.
#[derive(PartialEq, Eq)]
pub struct Notification {
    pub reported_ip: String,
    pub domain_name: String,
    pub credential: String,
}

impl View for Notification {
    type V = NotificationView;

    open spec fn view(&self) -> NotificationView {
        NotificationView {
            reported_ip: self.reported_ip@,
            domain_name: self.domain_name@,
            credential: self.credential@,
        }
    }
}

impl Clone for Notification {
    fn clone(&self) -> (copy: Self)
        ensures
            copy@ == self@,
    {
        Notification {
            reported_ip: self.reported_ip.clone(),
            domain_name: self.domain_name.clone(),
            credential: self.credential.clone(),
        }
    }
}

impl Notification {
    /// A notification with the given address, name and credential.
    pub fn new(reported_ip: &str, domain_name: &str, credential: &str) -> (notification: Self)
        ensures
            notification@ == (NotificationView {
                reported_ip: reported_ip@,
                domain_name: domain_name@,
                credential: credential@,
            }),
    {
        Notification {
            reported_ip: reported_ip.to_owned(),
            domain_name: domain_name.to_owned(),
            credential: credential.to_owned(),
        }
    }

    /// The notification carried by the three request parameters, or `None`
    /// as soon as one of them is missing.
    pub fn from_params(
        myip: Option<String>,
        domainname: Option<String>,
        password: Option<String>,
    ) -> (notification: Option<Self>)
        ensures
            notification is Some <==> myip is Some && domainname is Some && password is Some,
            notification matches Some(n) ==> n@ == (NotificationView {
                reported_ip: myip->0@,
                domain_name: domainname->0@,
                credential: password->0@,
            }),
    {
        match (myip, domainname, password) {
            (Some(reported_ip), Some(domain_name), Some(credential)) => Some(
                Notification { reported_ip, domain_name, credential },
            ),
            _ => None,
        }
    }
}

/// View of a [`Zone`].
pub struct ZoneView {
    pub zone_id: Seq<char>,
}

/// The provider's grouping of records under a parent domain, known by its
/// identifier.
#[derive(Debug, PartialEq, Eq)]
pub struct Zone {
    pub zone_id: String,
}

impl View for Zone {
    type V = ZoneView;

    open spec fn view(&self) -> ZoneView {
        ZoneView { zone_id: self.zone_id@ }
    }
}

impl Clone for Zone {
    fn clone(&self) -> (copy: Self)
        ensures
            copy@ == self@,
    {
        Zone { zone_id: self.zone_id.clone() }
    }
}

impl Zone {
    /// The zone with the given identifier.
    pub fn new(zone_id: &str) -> (zone: Self)
        ensures
            zone@ == (ZoneView { zone_id: zone_id@ }),
    {
        Zone { zone_id: zone_id.to_owned() }
    }
}

/// View of a [`ZoneEntry`].
pub struct ZoneEntryView {
    pub name: Seq<char>,
    pub zone_id: Seq<char>,
}

/// One line of the provider's zone directory: a domain and the identifier
/// of the zone that owns it.
#[derive(Debug, PartialEq, Eq)]
pub struct ZoneEntry {
    pub name: String,
    pub zone_id: String,
}

impl View for ZoneEntry {
    type V = ZoneEntryView;

    open spec fn view(&self) -> ZoneEntryView {
        ZoneEntryView { name: self.name@, zone_id: self.zone_id@ }
    }
}

impl Clone for ZoneEntry {
    fn clone(&self) -> (copy: Self)
        ensures
            copy@ == self@,
    {
        ZoneEntry { name: self.name.clone(), zone_id: self.zone_id.clone() }
    }
}

impl ZoneEntry {
    /// The directory line that gives `name` to the zone `zone_id`.
    pub fn new(name: &str, zone_id: &str) -> (entry: Self)
        ensures
            entry@ == (ZoneEntryView { name: name@, zone_id: zone_id@ }),
    {
        ZoneEntry { name: name.to_owned(), zone_id: zone_id.to_owned() }
    }
}

/// View of a [`DnsRecord`].
pub struct DnsRecordView {
    pub record_id: Seq<char>,
    pub content: Seq<char>,
}

/// The provider's address record for a name: its identifier and the address
/// it currently holds.
#[derive(Debug, PartialEq, Eq)]
pub struct DnsRecord {
    pub record_id: String,
    pub content: String,
}

impl View for DnsRecord {
    type V = DnsRecordView;

    open spec fn view(&self) -> DnsRecordView {
        DnsRecordView { record_id: self.record_id@, content: self.content@ }
    }
}

impl Clone for DnsRecord {
    fn clone(&self) -> (copy: Self)
        ensures
            copy@ == self@,
    {
        DnsRecord { record_id: self.record_id.clone(), content: self.content.clone() }
    }
}

impl DnsRecord {
    /// A record with the given identifier and content.
    pub fn new(record_id: &str, content: &str) -> (record: Self)
        ensures
            record@ == (DnsRecordView { record_id: record_id@, content: content@ }),
    {
        DnsRecord { record_id: record_id.to_owned(), content: content.to_owned() }
    }
}

/// View of an [`UpdateRequest`].
pub struct UpdateRequestView {
    pub content: Seq<char>,
    pub ttl: u32,
    pub proxied: bool,
}

/// What one update writes into a record: the new address, and the
/// time-to-live and proxying flag that replace whatever the record had.
#[derive(Debug, PartialEq, Eq)]
pub struct UpdateRequest {
    pub content: String,
    pub ttl: u32,
    pub proxied: bool,
}

impl View for UpdateRequest {
    type V = UpdateRequestView;

    open spec fn view(&self) -> UpdateRequestView {
        UpdateRequestView { content: self.content@, ttl: self.ttl, proxied: self.proxied }
    }
}

impl Clone for UpdateRequest {
    fn clone(&self) -> (copy: Self)
        ensures
            copy@ == self@,
    {
        UpdateRequest { content: self.content.clone(), ttl: self.ttl, proxied: self.proxied }
    }
}

/// View of a [`TransportError`].
pub struct TransportErrorView {
    pub detail: Seq<char>,
}

/// A remote call that did not yield an answer: the provider was not
/// reached, did not answer in time, or answered with something unreadable.
#[derive(Debug, PartialEq, Eq)]
pub struct TransportError {
    pub detail: String,
}

impl View for TransportError {
    type V = TransportErrorView;

    open spec fn view(&self) -> TransportErrorView {
        TransportErrorView { detail: self.detail@ }
    }
}

impl Clone for TransportError {
    fn clone(&self) -> (copy: Self)
        ensures
            copy@ == self@,
    {
        TransportError { detail: self.detail.clone() }
    }
}

impl TransportError {
    /// A transport failure described by `detail`.
    pub fn new(detail: &str) -> (error: Self)
        ensures
            error@ == (TransportErrorView { detail: detail@ }),
    {
        TransportError { detail: detail.to_owned() }
    }
}

} // verus!
