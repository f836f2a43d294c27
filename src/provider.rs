//! The provider client's own logic: which request each operation sends, and
//! what each response envelope means.
use vstd::prelude::*;
use crate::model::{CloudflareResultItem, DdnsError, ListRequestResponse, Record, WriteRequestResponse};
use crate::reconcile::{reconcile, reconcile_spec, Action};

verus! {

/// What the updater needs to reach the provider and name its record.
#[derive(Debug)]
pub struct Config {
    pub zone_id: String,
    pub email: String,
    pub api_key: String,
    pub record_name: String,
}

/// The HTTP method of a provider request.
#[derive(PartialEq, Eq, Structural, Clone, Copy, Debug)]
pub enum Method {
    Get,
    Post,
    Put,
}

/// One authenticated request to the provider, ready to be sent.
#[derive(Debug)]
pub struct ProviderRequest {
    pub method: Method,
    pub url: String,
    /// Sent as the `X-Auth-Email` header.
    pub email: String,
    /// Sent as the `X-Auth-Key` header.
    pub api_key: String,
    /// The record sent as the JSON body, if any.
    pub body: Option<Record>,
}

/// Address of the record set of the zone `zone_id`.
pub open spec fn records_url_spec(zone_id: Seq<char>) -> Seq<char> {
    "https://api.cloudflare.com/client/v4/zones/"@ + zone_id + "/dns_records"@
}

/// Address of the record `record_id` in the zone `zone_id`.
pub open spec fn record_url_spec(zone_id: Seq<char>, record_id: Seq<char>) -> Seq<char> {
    records_url_spec(zone_id) + "/"@ + record_id
}

/// `req` carries the credentials of `config` and nothing else of it.
pub open spec fn authenticated_by(req: ProviderRequest, config: Config) -> bool {
    req.email == config.email && req.api_key == config.api_key
}

/// The record as it is sent on creation: everything but the identifier.
pub open spec fn without_id(record: Record) -> Record {
    Record { id: None, ..record }
}

/// Address of the record set of the zone `zone_id`.
pub fn records_url(zone_id: &str) -> (r: String)
    ensures
        r@ == records_url_spec(zone_id@),
{
    let mut url = String::from_str("https://api.cloudflare.com/client/v4/zones/");
    url.append(zone_id);
    url.append("/dns_records");
    url
}

/// Address of the record `record_id` in the zone `zone_id`.
pub fn record_url(zone_id: &str, record_id: &str) -> (r: String)
    ensures
        r@ == record_url_spec(zone_id@, record_id@),
{
    let mut url = records_url(zone_id);
    url.append("/");
    url.append(record_id);
    url
}

/// The request that lists every record of the configured zone.
pub fn list_request(config: &Config) -> (r: ProviderRequest)
    ensures
        r.method == Method::Get,
        r.url@ == records_url_spec(config.zone_id@),
        authenticated_by(r, *config),
        r.body is None,
{
    ProviderRequest {
        method: Method::Get,
        url: records_url(config.zone_id.as_str()),
        email: config.email.clone(),
        api_key: config.api_key.clone(),
        body: None,
    }
}

/// The request that creates `record` in the configured zone; the identifier
/// is never sent.
pub fn create_request(config: &Config, record: Record) -> (r: ProviderRequest)
    ensures
        r.method == Method::Post,
        r.url@ == records_url_spec(config.zone_id@),
        authenticated_by(r, *config),
        r.body == Some(without_id(record)),
{
    ProviderRequest {
        method: Method::Post,
        url: records_url(config.zone_id.as_str()),
        email: config.email.clone(),
        api_key: config.api_key.clone(),
        body: Some(Record { id: None, ..record }),
    }
}

/// The request that replaces the record `record_id` of the configured zone
/// by `record`.
pub fn update_request(config: &Config, record_id: &str, record: Record) -> (r: ProviderRequest)
    ensures
        r.method == Method::Put,
        r.url@ == record_url_spec(config.zone_id@, record_id@),
        authenticated_by(r, *config),
        r.body == Some(record),
{
    ProviderRequest {
        method: Method::Put,
        url: record_url(config.zone_id.as_str(), record_id),
        email: config.email.clone(),
        api_key: config.api_key.clone(),
        body: Some(record),
    }
}

/// The request that carries out `action`, or `None` where nothing is to be done.
pub fn write_request(config: &Config, action: Action) -> (r: Option<ProviderRequest>)
    ensures
        match action {
            Action::Skip => r is None,
            Action::Create(record) => r is Some && r->Some_0.method == Method::Post
                && r->Some_0.url@ == records_url_spec(config.zone_id@)
                && authenticated_by(r->Some_0, *config)
                && r->Some_0.body == Some(without_id(record)),
            Action::Update(id, record) => r is Some && r->Some_0.method == Method::Put
                && r->Some_0.url@ == record_url_spec(config.zone_id@, id@)
                && authenticated_by(r->Some_0, *config)
                && r->Some_0.body == Some(record),
        },
{
    match action {
        Action::Skip => None,
        Action::Create(record) => Some(create_request(config, record)),
        Action::Update(id, record) => Some(update_request(config, id.as_str(), record)),
    }
}

/// The list holds at least one message.
pub open spec fn has_items(messages: Option<Vec<CloudflareResultItem>>) -> bool {
    messages is Some && messages->Some_0@.len() > 0
}

impl ListRequestResponse {
    /// The provider sent informational messages worth reporting.
    pub fn has_messages(&self) -> (r: bool)
        ensures
            r == has_items(self.messages),
    {
        match &self.messages {
            Some(m) => m.len() > 0,
            None => false,
        }
    }

    /// The records listed, or the failure the envelope reports. A failed
    /// envelope never yields its result, even where it carries one.
    pub fn into_records(self) -> (r: Result<Vec<Record>, DdnsError>)
        ensures
            !self.success ==> r == Err::<Vec<Record>, DdnsError>(DdnsError::Provider(self.errors)),
            self.success && self.result is Some ==> r == Ok::<Vec<Record>, DdnsError>(
                self.result->Some_0,
            ),
            self.success && self.result is None ==> r == Err::<Vec<Record>, DdnsError>(
                DdnsError::MissingResult,
            ),
    {
        if !self.success {
            Err(DdnsError::Provider(self.errors))
        } else {
            match self.result {
                Some(records) => Ok(records),
                None => Err(DdnsError::MissingResult),
            }
        }
    }
}

impl WriteRequestResponse {
    /// The provider sent informational messages worth reporting.
    pub fn has_messages(&self) -> (r: bool)
        ensures
            r == has_items(self.messages),
    {
        match &self.messages {
            Some(m) => m.len() > 0,
            None => false,
        }
    }

    /// Success, or the failure the envelope reports.
    pub fn into_outcome(self) -> (r: Result<(), DdnsError>)
        ensures
            self.success ==> r == Ok::<(), DdnsError>(()),
            !self.success ==> r == Err::<(), DdnsError>(DdnsError::Provider(self.errors)),
    {
        if self.success {
            Ok(())
        } else {
            Err(DdnsError::Provider(self.errors))
        }
    }
}

/// Reconciles `desired` against the records of a listing envelope. A failed
/// listing is reported as such, and then no decision is made.
pub fn reconcile_listing(desired: Record, listing: ListRequestResponse) -> (r: Result<Action, DdnsError>)
    ensures
        !listing.success ==> r == Err::<Action, DdnsError>(DdnsError::Provider(listing.errors)),
        listing.success && listing.result is Some ==> r == reconcile_spec(
            desired,
            listing.result->Some_0@,
        ),
        listing.success && listing.result is None ==> r == Err::<Action, DdnsError>(
            DdnsError::MissingResult,
        ),
{
    match listing.into_records() {
        Ok(records) => reconcile(desired, &records),
        Err(e) => Err(e),
    }
}

} // verus!
