//! The exact texts the updater produces: the per-target outcome messages, the
//! "<subdomain>.<domain>: " label, and the provider endpoint URLs.

use vstd::prelude::*;
use vstd::string::StringExecFns;

use crate::config::{ConfigDomainsStruct, DomainTargetView};

verus! {

/// The outcome message when the resolved IP already equals the record content.
pub open spec fn unchanged_message_spec(ip: Seq<char>, entry: Seq<char>) -> Seq<char> {
    "Current IP: "@ + ip + ", identical to current DNS Entry, "@ + entry + ". Not updating."@
}

/// The outcome message when the provider confirmed the write.
pub open spec fn updated_message_spec(ip: Seq<char>) -> Seq<char> {
    "Updated DNS Entry to "@ + ip
}

/// The outcome message when the provider answered the write with a
/// non-success status.
pub open spec fn failed_message_spec(entry: Seq<char>, ip: Seq<char>) -> Seq<char> {
    "Could not update DNS Entry. "@ + entry + " -> "@ + ip
}

/// The label that identifies a target in front of its outcome message.
pub open spec fn target_label_spec(target: DomainTargetView) -> Seq<char> {
    target.subdomain + "."@ + target.domain + ": "@
}

/// An outcome message carries its target's label exactly when more than one
/// domain target is configured.
pub open spec fn labeled_message_spec(
    multiple: bool,
    target: DomainTargetView,
    message: Seq<char>,
) -> Seq<char> {
    if multiple {
        target_label_spec(target) + message
    } else {
        message
    }
}

/// The provider's "retrieve by name and type" endpoint for one target.
pub open spec fn retrieve_url_spec(base: Seq<char>, target: DomainTargetView) -> Seq<char> {
    base + "/retrieveByNameType/"@ + target.domain + "/"@ + target.dns_entry_type + "/"@
        + target.subdomain
}

/// The provider's "edit by name and type" endpoint for one target.
pub open spec fn edit_url_spec(base: Seq<char>, target: DomainTargetView) -> Seq<char> {
    base + "/editByNameType/"@ + target.domain + "/"@ + target.dns_entry_type + "/"@
        + target.subdomain
}

pub fn unchanged_message(ip: &str, entry: &str) -> (message: String)
    ensures
        message@ == unchanged_message_spec(ip@, entry@),
{
    let mut message = String::from_str("Current IP: ");
    message.append(ip);
    message.append(", identical to current DNS Entry, ");
    message.append(entry);
    message.append(". Not updating.");
    message
}

pub fn updated_message(ip: &str) -> (message: String)
    ensures
        message@ == updated_message_spec(ip@),
{
    let mut message = String::from_str("Updated DNS Entry to ");
    message.append(ip);
    message
}

pub fn failed_message(entry: &str, ip: &str) -> (message: String)
    ensures
        message@ == failed_message_spec(entry@, ip@),
{
    let mut message = String::from_str("Could not update DNS Entry. ");
    message.append(entry);
    message.append(" -> ");
    message.append(ip);
    message
}

/// Prepend the target's label when `multiple` targets are configured;
/// otherwise hand the message back unchanged.
pub fn labeled_message(multiple: bool, target: &ConfigDomainsStruct, message: String) -> (labeled:
    String)
    ensures
        labeled@ == labeled_message_spec(multiple, target@, message@),
{
    if multiple {
        let mut labeled = String::from_str(target.subdomain.as_str());
        labeled.append(".");
        labeled.append(target.domain.as_str());
        labeled.append(": ");
        labeled.append(message.as_str());
        labeled
    } else {
        message
    }
}

pub fn retrieve_url(base: &str, target: &ConfigDomainsStruct) -> (url: String)
    ensures
        url@ == retrieve_url_spec(base@, target@),
{
    let mut url = String::from_str(base);
    url.append("/retrieveByNameType/");
    url.append(target.domain.as_str());
    url.append("/");
    url.append(target.dns_entry_type.as_str());
    url.append("/");
    url.append(target.subdomain.as_str());
    url
}

pub fn edit_url(base: &str, target: &ConfigDomainsStruct) -> (url: String)
    ensures
        url@ == edit_url_spec(base@, target@),
{
    let mut url = String::from_str(base);
    url.append("/editByNameType/");
    url.append(target.domain.as_str());
    url.append("/");
    url.append(target.dns_entry_type.as_str());
    url.append("/");
    url.append(target.subdomain.as_str());
    url
}

/// What `str::trim` returns: the input without leading or trailing
/// whitespace. The result depends on the input characters alone.
pub uninterp spec fn trim_of(s: Seq<char>) -> Seq<char>;

/// Relies on `str::trim`: removes leading and trailing whitespace from the
/// response body that an IP-lookup service returned.
#[verifier::external_body]
pub(crate) fn trim_ws(s: &str) -> (trimmed: String)
    ensures
        trimmed@ == trim_of(s@),
{
    s.trim().to_string()
}

} // verus!
