//! The record state that an update asks the provider to store, and its JSON.

use vstd::prelude::*;
use crate::json::{array_text, bool_text, decimal_text, is_plain, json_string};
use crate::text::{joined, texts_of};
use crate::json::{quote, quote_each, render_array, render_bool, render_number};

verus! {

/// The desired state of the DNS record, as the provider's API takes it.
#[derive(Clone, Debug)]
pub struct DnsRecordUpdate {
    /// Free text stored beside the record.
    pub comment: String,
    /// The DNS name of the record.
    pub name: String,
    /// Whether the provider proxies traffic for the record.
    pub proxied: bool,
    /// Labels attached to the record.
    pub tags: Vec<String>,
    /// Time to live, in seconds.
    pub ttl: u32,
    /// The address the record points at.
    pub content: String,
    /// The record type; sent under the key `type`.
    pub record_type: String,
}

/// A [`DnsRecordUpdate`] as plain values.
pub struct DnsRecordUpdateView {
    pub comment: Seq<char>,
    pub name: Seq<char>,
    pub proxied: bool,
    pub tags: Seq<Seq<char>>,
    pub ttl: u32,
    pub content: Seq<char>,
    pub record_type: Seq<char>,
}

impl View for DnsRecordUpdate {
    type V = DnsRecordUpdateView;

    open spec fn view(&self) -> DnsRecordUpdateView {
        DnsRecordUpdateView {
            comment: self.comment@,
            name: self.name@,
            proxied: self.proxied,
            tags: texts_of(self.tags@),
            ttl: self.ttl,
            content: self.content@,
            record_type: self.record_type@,
        }
    }
}

/// The record that points `name` at `address`: an `A` record, proxied, with a
/// time to live of one hour, no tags and the comment `DDNS update`.
pub open spec fn address_record(name: Seq<char>, address: Seq<char>) -> DnsRecordUpdateView {
    DnsRecordUpdateView {
        comment: "DDNS update"@,
        name: name,
        proxied: true,
        tags: Seq::empty(),
        ttl: 3600,
        content: address,
        record_type: "A"@,
    }
}

/// The JSON object of a record whose members are JSON texts already: the
/// seven keys in the order the provider documents, without white space.
pub open spec fn object_text(
    comment: Seq<char>,
    name: Seq<char>,
    proxied: bool,
    tags: Seq<Seq<char>>,
    ttl: nat,
    content: Seq<char>,
    record_type: Seq<char>,
) -> Seq<char> {
    "{\"comment\":"@ + comment + ",\"name\":"@ + name + ",\"proxied\":"@ + bool_text(proxied)
        + ",\"tags\":"@ + array_text(tags) + ",\"ttl\":"@ + decimal_text(ttl) + ",\"content\":"@
        + content + ",\"type\":"@ + record_type + "}"@
}

/// The request body for `record`: [`object_text`] over its values, every
/// string as the JSON literal that stands for it.
pub open spec fn record_json(record: DnsRecordUpdateView) -> Seq<char> {
    object_text(
        json_string(record.comment),
        json_string(record.name),
        record.proxied,
        Seq::new(record.tags.len(), |i: int| json_string(record.tags[i])),
        record.ttl as nat,
        json_string(record.content),
        json_string(record.record_type),
    )
}

/// The request body that points `name` at `address`, written out, with the
/// two values in place as they are.
pub open spec fn address_json(name: Seq<char>, address: Seq<char>) -> Seq<char> {
    "{\"comment\":\"DDNS update\",\"name\":\""@ + name
        + "\",\"proxied\":true,\"tags\":[],\"ttl\":3600,\"content\":\""@ + address
        + "\",\"type\":\"A\"}"@
}

/// The text before the name in [`address_json`], piece by piece.
proof fn lemma_head_of_address_json()
    ensures
        is_plain("DDNS update"@),
        "{\"comment\":"@ + json_string("DDNS update"@) + ",\"name\":"@ + "\""@
            == "{\"comment\":\"DDNS update\",\"name\":\""@,
{
    reveal_strlit("DDNS update");
    reveal_strlit("\"");
    reveal_strlit("{\"comment\":");
    reveal_strlit(",\"name\":");
    reveal_strlit("{\"comment\":\"DDNS update\",\"name\":\"");
    assert(is_plain("DDNS update"@));
    assert("{\"comment\":"@ + ("\""@ + "DDNS update"@ + "\""@) + ",\"name\":"@ + "\""@
        =~= "{\"comment\":\"DDNS update\",\"name\":\""@);
}

/// The text between the name and the address in [`address_json`], piece by
/// piece.
proof fn lemma_middle_of_address_json()
    ensures
        "\""@ + ",\"proxied\":"@ + bool_text(true) + ",\"tags\":"@ + array_text(Seq::empty())
            + ",\"ttl\":"@ + decimal_text(3600) + ",\"content\":"@ + "\""@
            == "\",\"proxied\":true,\"tags\":[],\"ttl\":3600,\"content\":\""@,
{
    reveal_strlit("\"");
    reveal_strlit(",\"proxied\":");
    reveal_strlit("true");
    reveal_strlit(",\"tags\":");
    reveal_strlit("[");
    reveal_strlit(",");
    reveal_strlit("]");
    reveal_strlit(",\"ttl\":");
    reveal_strlit("3");
    reveal_strlit("6");
    reveal_strlit("0");
    reveal_strlit(",\"content\":");
    reveal_strlit("\",\"proxied\":true,\"tags\":[],\"ttl\":3600,\"content\":\"");
    reveal_with_fuel(decimal_text, 4);
    assert(joined(Seq::empty(), ","@) =~= Seq::<char>::empty());
    assert(decimal_text(3600) =~= "3"@ + "6"@ + "0"@ + "0"@);
    assert("\""@ + ",\"proxied\":"@ + "true"@ + ",\"tags\":"@ + ("["@ + Seq::<char>::empty()
        + "]"@) + ",\"ttl\":"@ + ("3"@ + "6"@ + "0"@ + "0"@) + ",\"content\":"@ + "\""@
        =~= "\",\"proxied\":true,\"tags\":[],\"ttl\":3600,\"content\":\""@);
}

/// The text after the address in [`address_json`], piece by piece.
proof fn lemma_tail_of_address_json()
    ensures
        is_plain("A"@),
        "\""@ + ",\"type\":"@ + json_string("A"@) + "}"@ == "\",\"type\":\"A\"}"@,
{
    reveal_strlit("A");
    reveal_strlit("\"");
    reveal_strlit(",\"type\":");
    reveal_strlit("}");
    reveal_strlit("\",\"type\":\"A\"}");
    assert(is_plain("A"@));
    assert("\""@ + ",\"type\":"@ + ("\""@ + "A"@ + "\""@) + "}"@ =~= "\",\"type\":\"A\"}"@);
}

/// The request body is the object the provider's API takes: for a name and
/// an address that need no escapes, the body that points the one at the
/// other is [`address_json`], the seven members in order and without white
/// space, the name and the address between double quotes as they are.
pub proof fn lemma_body_of_plain_values(name: Seq<char>, address: Seq<char>)
    requires
        is_plain(name),
        is_plain(address),
    ensures
        record_json(address_record(name, address)) == address_json(name, address),
{
    lemma_head_of_address_json();
    lemma_middle_of_address_json();
    lemma_tail_of_address_json();
    let record = address_record(name, address);
    let tags = Seq::new(record.tags.len(), |i: int| json_string(record.tags[i]));
    assert(tags =~= Seq::<Seq<char>>::empty());
    let head = "{\"comment\":"@ + json_string("DDNS update"@) + ",\"name\":"@ + "\""@;
    let middle = "\""@ + ",\"proxied\":"@ + bool_text(true) + ",\"tags\":"@ + array_text(
        Seq::empty(),
    ) + ",\"ttl\":"@ + decimal_text(3600) + ",\"content\":"@ + "\""@;
    let tail = "\""@ + ",\"type\":"@ + json_string("A"@) + "}"@;
    assert(record_json(record) =~= head + name + middle + address + tail);
}

/// Writes the JSON object of a record from its members. The string members
/// and the tags are taken as JSON literals and copied as they are.
pub fn write_object(
    comment: &str,
    name: &str,
    proxied: bool,
    tags: &Vec<String>,
    ttl: u32,
    content: &str,
    record_type: &str,
) -> (text: String)
    ensures
        text@ == object_text(
            comment@,
            name@,
            proxied,
            texts_of(tags@),
            ttl as nat,
            content@,
            record_type@,
        ),
{
    let mut text = String::from_str("{\"comment\":");
    text.append(comment);
    text.append(",\"name\":");
    text.append(name);
    text.append(",\"proxied\":");
    text.append(render_bool(proxied).as_str());
    text.append(",\"tags\":");
    text.append(render_array(tags).as_str());
    text.append(",\"ttl\":");
    text.append(render_number(ttl).as_str());
    text.append(",\"content\":");
    text.append(content);
    text.append(",\"type\":");
    text.append(record_type);
    text.append("}");
    text
}

impl DnsRecordUpdate {
    /// The record that points `name` at `address`.
    pub fn for_address(name: &str, address: &str) -> (record: DnsRecordUpdate)
        ensures
            record@ == address_record(name@, address@),
    {
        let record = DnsRecordUpdate {
            comment: String::from_str("DDNS update"),
            name: String::from_str(name),
            proxied: true,
            tags: Vec::new(),
            ttl: 3600,
            content: String::from_str(address),
            record_type: String::from_str("A"),
        };
        assert(record@.tags =~= Seq::empty());
        record
    }

    /// The request body that asks the provider to store this record.
    pub fn to_json(&self) -> (text: String)
        ensures
            text@ == record_json(self@),
    {
        let comment = quote(self.comment.as_str());
        let name = quote(self.name.as_str());
        let tags = quote_each(&self.tags);
        let content = quote(self.content.as_str());
        let record_type = quote(self.record_type.as_str());
        assert(texts_of(tags@) =~= Seq::new(
            self@.tags.len(),
            |i: int| json_string(self@.tags[i]),
        ));
        write_object(
            comment.as_str(),
            name.as_str(),
            self.proxied,
            &tags,
            self.ttl,
            content.as_str(),
            record_type.as_str(),
        )
    }
}

} // verus!
