//! The records and response envelopes exchanged with the DNS provider.
use vstd::prelude::*;

verus! {

/// One DNS record as the provider stores it.
#[derive(Debug)]
pub struct Record {
    /// The record's address. Written from the address-echo service's answer
    /// as it came, without checking that it is a well-formed IPv4 address.
    pub content: String,
    /// Fully-qualified record name.
    pub name: String,
    /// Record type; this library only ever writes `A`.
    pub type_: String,
    /// Free-text annotation of the record.
    pub comment: Option<String>,
    /// Identifier that the provider assigned; absent on a record not yet created.
    pub id: Option<String>,
}

/// One entry of the provider's error or informational lists.
#[derive(Debug)]
pub struct CloudflareResultItem {
    pub code: u32,
    pub message: String,
}

/// The envelope of the provider's answer to a listing of records.
#[derive(Debug)]
pub struct ListRequestResponse {
    pub result: Option<Vec<Record>>,
    pub errors: Vec<CloudflareResultItem>,
    pub messages: Option<Vec<CloudflareResultItem>>,
    pub success: bool,
}

/// The envelope of the provider's answer to a creation or an update.
#[derive(Debug)]
pub struct WriteRequestResponse {
    pub result: Option<Record>,
    pub errors: Vec<CloudflareResultItem>,
    pub messages: Option<Vec<CloudflareResultItem>>,
    pub success: bool,
}

/// Why a run of the updater could not go on.
#[derive(Debug)]
pub enum DdnsError {
    /// The provider answered `success = false`, with its own error list.
    Provider(Vec<CloudflareResultItem>),
    /// The provider answered `success = true` but carried no result.
    MissingResult,
    /// An update is due but the matching record carries no identifier.
    MissingRecordId,
}

} // verus!
