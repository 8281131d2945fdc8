//! Record Locator: from the provider's list of address records for a name
//! to the record that a run updates.

use crate::model::{DnsRecord, DnsRecordView};
use vstd::prelude::*;

verus! {

/// View of a list of records, record by record.
pub open spec fn records_view(records: Seq<DnsRecord>) -> Seq<DnsRecordView> {
    records.map_values(|record: DnsRecord| record@)
}

/// View of an optional record.
pub open spec fn record_view(record: Option<DnsRecord>) -> Option<DnsRecordView> {
    match record {
        Some(r) => Some(r@),
        None => None,
    }
}

/// The record that a list of matches stands for: its first, in the order
/// the provider gave; none where the list is empty.
pub open spec fn located(records: Seq<DnsRecordView>) -> Option<DnsRecordView> {
    if records.len() > 0 {
        Some(records[0])
    } else {
        None
    }
}

/// Picks the record to update from the provider's list of address records
/// for a name: the first one, as the provider ordered them. An empty list
/// gives `None`, which is no error; further matches are ignored.
pub fn find_dns_record(records: &Vec<DnsRecord>) -> (record: Option<DnsRecord>)
    ensures
        record_view(record) == located(records_view(records@)),
{
    if records.len() > 0 {
        Some(records[0].clone())
    } else {
        None
    }
}

/// An empty list locates nothing; a list with a first record locates that
/// record, whatever follows it.
pub proof fn lemma_located_is_first(records: Seq<DnsRecordView>)
    ensures
        records.len() == 0 ==> located(records) is None,
        records.len() > 0 ==> located(records) == Some(records[0]),
        records.len() > 0 ==> located(records) == located(records.take(1)),
{
}

/// Locating is repeatable: lists that hold the same records in the same
/// order locate the same record.
pub proof fn lemma_same_records_locate_same(records: Seq<DnsRecord>, again: Seq<DnsRecord>)
    requires
        records_view(records) == records_view(again),
    ensures
        located(records_view(records)) == located(records_view(again)),
{
}

} // verus!
