//! The read operations of the authenticated client: the account summary,
//! the identifiers of the account's networks, and the devices of a network.
//! Each has a function that begins the call and one that reads the reply
//! with which the call ended.

use crate::client::{begun, Client, PlanView, Step};
use crate::error::Error;
use crate::http::{is_success, Method, Reply, ReplyView};
use crate::json::{parsed_document, Json, JsonView};
use crate::schema::{decoded_devices, device_views, envelope_payload};
use crate::schema::{AccountSummary, Device, DeviceView, FromJson, NetworkView, Response};
use crate::text::{final_segment, join, last_segment};
use vstd::prelude::*;
use vstd::string::*;

verus! {

/// The characters of each text of a list.
pub open spec fn texts(list: Seq<String>) -> Seq<Seq<char>> {
    list.map_values(|text: String| text@)
}

/// The identifier of each network of a list: the last segment of its
/// address.
pub open spec fn network_ids_of(networks: Seq<NetworkView>) -> Seq<Seq<char>> {
    networks.map_values(|network: NetworkView| final_segment(network.url))
}

/// The identifiers of the networks of the account that a reply describes:
/// the reply is an envelope whose payload is an account summary. `None`
/// where the reply is no such envelope.
pub open spec fn network_ids_in(reply: JsonView) -> Option<Seq<Seq<char>>> {
    match envelope_payload(reply) {
        Some(payload) => match AccountSummary::decoded(payload) {
            Some(account) => Some(network_ids_of(account.networks.data)),
            None => None,
        },
        None => None,
    }
}

/// The document that the body of a reply holds: a reply whose status
/// reports no success is refused with [`Error::Status`], whatever its body
/// holds; one that reports success gives the document of its body, or
/// [`Error::Decode`] where the body is no JSON.
pub open spec fn reply_document(reply: ReplyView) -> Result<JsonView, Error> {
    if !is_success(reply.status) {
        Err(Error::Status)
    } else {
        match parsed_document(reply.body) {
            Some(document) => Ok(document),
            None => Err(Error::Decode),
        }
    }
}

/// The identifiers of the account's networks that a reply gives: those
/// that its document describes, or [`Error::Decode`] where the document
/// describes no account; a reply without a document is refused as it
/// stands.
pub open spec fn network_ids_reply(reply: ReplyView) -> Result<Seq<Seq<char>>, Error> {
    match reply_document(reply) {
        Ok(document) => match network_ids_in(document) {
            Some(ids) => Ok(ids),
            None => Err(Error::Decode),
        },
        Err(error) => Err(error),
    }
}

/// The devices that a reply lists: the reply is an envelope whose payload
/// is an array, and the devices are the items of it that denote one.
pub open spec fn listed_devices(reply: JsonView) -> Option<Seq<DeviceView>> {
    match envelope_payload(reply) {
        Some(JsonView::Array(items)) => Some(decoded_devices(items)),
        _ => None,
    }
}

/// The devices that a reply gives: a reply whose status reports no success
/// is refused with [`Error::Unsupported`], whatever its body holds; one
/// that reports success gives the devices that its body lists, or
/// [`Error::Decode`] where the body is no JSON or no envelope around an
/// array.
pub open spec fn devices_reply(reply: ReplyView) -> Result<Seq<DeviceView>, Error> {
    if !is_success(reply.status) {
        Err(Error::Unsupported)
    } else {
        match parsed_document(reply.body) {
            Some(document) => match listed_devices(document) {
                Some(devices) => Ok(devices),
                None => Err(Error::Decode),
            },
            None => Err(Error::Decode),
        }
    }
}

/// The route of the devices of a network.
pub open spec fn devices_route(network_id: Seq<char>) -> Seq<char> {
    "networks/"@ + network_id + "/devices"@
}

impl AccountSummary {
    /// The identifier of each network of the account, in the order in which
    /// the account lists them.
    pub fn network_ids(&self) -> (ids: Vec<String>)
        ensures
            texts(ids@) == network_ids_of(self@.networks.data),
    {
        let mut ids: Vec<String> = Vec::new();
        let mut i: usize = 0;
        while i < self.networks.data.len()
            invariant
                i <= self.networks.data.len(),
                ids.len() == i,
                forall|k: int|
                    0 <= k < i ==> (#[trigger] ids[k])@ == final_segment(self.networks.data[k].url@),
            decreases self.networks.data.len() - i,
        {
            ids.push(last_segment(self.networks.data[i].url.as_str()));
            i += 1;
        }
        assert(texts(ids@) =~= network_ids_of(self@.networks.data));
        ids
    }
}

/// Reads the identifiers of the account's networks from the document of a
/// reply. It fails, with [`Error::Decode`], exactly where the document is
/// no envelope around an account summary.
pub fn network_ids_from(reply: Json) -> (ids: Result<Vec<String>, Error>)
    ensures
        match ids {
            Ok(list) => network_ids_in(reply@) == Some(texts(list@)),
            Err(error) => error == Error::Decode && network_ids_in(reply@) is None,
        },
{
    match Response::from_json(reply) {
        Some(envelope) => match envelope.from_response::<AccountSummary>() {
            Ok(account) => Ok(account.network_ids()),
            Err(error) => Err(error),
        },
        None => Err(Error::Decode),
    }
}

/// Reads the devices that a reply lists, and passes over each item of the
/// list that denotes none. It fails, with [`Error::Decode`], exactly where
/// the reply is no envelope around an array.
pub fn devices_from(reply: Json) -> (devices: Result<Vec<Device>, Error>)
    ensures
        match devices {
            Ok(list) => listed_devices(reply@) == Some(device_views(list@)),
            Err(error) => error == Error::Decode && listed_devices(reply@) is None,
        },
{
    match Response::from_json(reply) {
        Some(envelope) => match envelope.data() {
            Json::Array(items) => {
                assert(envelope.payload()->Array_0 =~= items@.map_values(|item: Json| item@));
                Ok(Device::list_from(items))
            },
            _ => Err(Error::Decode),
        },
        None => Err(Error::Decode),
    }
}

impl Client {
    /// Begins the call for the account summary.
    pub fn request_account_summary(&self) -> (step: Step)
        ensures
            step@ == begun(
                self.token(),
                PlanView { method: Method::Get, route: "account"@, body: None },
            ),
    {
        self.get("account", None)
    }

    /// Reads the account summary from the reply with which the call for it
    /// ended: the document that the body holds, envelope and all. It fails
    /// with [`Error::Status`] exactly where the status reports no success,
    /// and with [`Error::Decode`] exactly where the status reports success
    /// and the body is no JSON.
    pub fn get_account_summary(reply: &Reply) -> (summary: Result<Json, Error>)
        ensures
            match summary {
                Ok(json) => reply_document(reply@) == Ok::<JsonView, Error>(json@),
                Err(error) => reply_document(reply@) == Err::<JsonView, Error>(error),
            },
    {
        if !reply.is_success() {
            return Err(Error::Status);
        }
        match Json::parse(reply.body.as_str()) {
            Some(json) => Ok(json),
            None => Err(Error::Decode),
        }
    }

    /// Reads the identifiers of the account's networks from the reply with
    /// which the call for the account summary ended. It fails with
    /// [`Error::Status`] exactly where the status reports no success, and
    /// with [`Error::Decode`] exactly where the status reports success and
    /// the body is no JSON or no envelope around an account summary.
    pub fn get_network_ids(reply: &Reply) -> (ids: Result<Vec<String>, Error>)
        ensures
            match ids {
                Ok(list) => network_ids_reply(reply@) == Ok::<Seq<Seq<char>>, Error>(texts(list@)),
                Err(error) => network_ids_reply(reply@) == Err::<Seq<Seq<char>>, Error>(error),
            },
    {
        match Client::get_account_summary(reply) {
            Ok(summary) => network_ids_from(summary),
            Err(error) => Err(error),
        }
    }

    /// Begins the call for the devices of a network.
    pub fn request_devices_for_network(&self, network_id: &str) -> (step: Step)
        ensures
            step@ == begun(
                self.token(),
                PlanView { method: Method::Get, route: devices_route(network_id@), body: None },
            ),
    {
        let route = join("networks/", network_id).concat("/devices");
        self.get(route.as_str(), None)
    }

    /// Reads the devices of a network from the reply with which the call
    /// for them ended. A reply whose status reports no success gives
    /// [`Error::Unsupported`], whatever its body holds. Otherwise the
    /// devices are those that the body lists, and the call fails, with
    /// [`Error::Decode`], exactly where the body is no JSON or no envelope
    /// around an array.
    pub fn get_devices_for_network(reply: &Reply) -> (devices: Result<Vec<Device>, Error>)
        ensures
            match devices {
                Ok(list) => devices_reply(reply@) == Ok::<Seq<DeviceView>, Error>(
                    device_views(list@),
                ),
                Err(error) => devices_reply(reply@) == Err::<Seq<DeviceView>, Error>(error),
            },
    {
        if !reply.is_success() {
            return Err(Error::Unsupported);
        }
        match Json::parse(reply.body.as_str()) {
            Some(json) => devices_from(json),
            None => Err(Error::Decode),
        }
    }
}

} // verus!
