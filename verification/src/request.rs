//! The HTTP request that carries an update to the provider.

use vstd::prelude::*;
use crate::config::{Config, ConfigView};
use crate::record::{address_record, record_json, DnsRecordUpdate};

verus! {

/// A `PUT` request to the provider, ready to send: where it goes, the two
/// headers it carries and its body.
#[derive(Clone, Debug)]
pub struct UpdateRequest {
    /// The address of the record at the provider's API.
    pub url: String,
    /// Value of the `Authorization` header.
    pub authorization: String,
    /// Value of the `Content-Type` header.
    pub content_type: String,
    /// The JSON body.
    pub body: String,
}

/// An [`UpdateRequest`] as plain text values.
pub struct UpdateRequestView {
    pub url: Seq<char>,
    pub authorization: Seq<char>,
    pub content_type: Seq<char>,
    pub body: Seq<char>,
}

impl View for UpdateRequest {
    type V = UpdateRequestView;

    open spec fn view(&self) -> UpdateRequestView {
        UpdateRequestView {
            url: self.url@,
            authorization: self.authorization@,
            content_type: self.content_type@,
            body: self.body@,
        }
    }
}

/// Where the record `record_id` of zone `zone_id` lives at the provider.
pub open spec fn record_url_text(zone_id: Seq<char>, record_id: Seq<char>) -> Seq<char> {
    "https://api.cloudflare.com/client/v4/zones/"@ + zone_id + "/dns_records/"@ + record_id
}

/// The `Authorization` header value that presents `token` as a bearer token.
pub open spec fn bearer_text(token: Seq<char>) -> Seq<char> {
    "Bearer "@ + token
}

/// The request that points the configured record at `address`.
pub open spec fn update_request(config: ConfigView, address: Seq<char>) -> UpdateRequestView {
    UpdateRequestView {
        url: record_url_text(config.zone_id, config.record_id),
        authorization: bearer_text(config.api_token),
        content_type: "application/json"@,
        body: record_json(address_record(config.record_name, address)),
    }
}

/// Where the record `record_id` of zone `zone_id` lives at the provider.
pub fn record_url(zone_id: &str, record_id: &str) -> (url: String)
    ensures
        url@ == record_url_text(zone_id@, record_id@),
{
    let mut url = String::from_str("https://api.cloudflare.com/client/v4/zones/");
    url.append(zone_id);
    url.append("/dns_records/");
    url.append(record_id);
    url
}

/// The `Authorization` header value that presents `token` as a bearer token.
pub fn bearer(token: &str) -> (value: String)
    ensures
        value@ == bearer_text(token@),
{
    let mut value = String::from_str("Bearer ");
    value.append(token);
    value
}

impl UpdateRequest {
    /// The request that points the configured record at `address`.
    pub fn for_address(config: &Config, address: &str) -> (request: UpdateRequest)
        ensures
            request@ == update_request(config@, address@),
    {
        let record = DnsRecordUpdate::for_address(config.record_name.as_str(), address);
        UpdateRequest {
            url: record_url(config.zone_id.as_str(), config.record_id.as_str()),
            authorization: bearer(config.api_token.as_str()),
            content_type: String::from_str("application/json"),
            body: record.to_json(),
        }
    }
}

} // verus!
