//! The typed values that the service's replies hold, and how each is read
//! from a JSON document.
//!
//! A record is read from an object, member by member and by name, or from an
//! array that lists exactly its fields in their declared order. Members of an
//! object that the record does not know are passed over.

use crate::error::Error;
use crate::json::{lookup, parsed_document, Json, JsonNumber, JsonView, NumberView};
use vstd::prelude::*;

verus! {

/// Whether a document can stand for a record of `count` fields: any object,
/// or an array of exactly `count` items.
pub open spec fn is_record(json: JsonView, count: nat) -> bool {
    match json {
        JsonView::Object(_) => true,
        JsonView::Array(items) => items.len() == count,
        _ => false,
    }
}

/// The document given for one field of a record: in an object the first
/// member called `name`, in an array the item at `position`.
pub open spec fn record_field(json: JsonView, position: int, name: Seq<char>) -> Option<JsonView> {
    match json {
        JsonView::Object(members) => lookup(members, name),
        JsonView::Array(items) => if 0 <= position < items.len() {
            Some(items[position])
        } else {
            None
        },
        _ => None,
    }
}

/// A field that must hold a text.
pub open spec fn as_text(raw: Option<JsonView>) -> Option<Seq<char>> {
    match raw {
        Some(JsonView::Text(text)) => Some(text),
        _ => None,
    }
}

/// A field that may be left out or be `null`, and otherwise holds a text.
pub open spec fn as_optional_text(raw: Option<JsonView>) -> Option<Option<Seq<char>>> {
    match raw {
        None => Some(None),
        Some(JsonView::Null) => Some(None),
        Some(JsonView::Text(text)) => Some(Some(text)),
        _ => None,
    }
}

/// A field that must hold `true` or `false`.
pub open spec fn as_flag(raw: Option<JsonView>) -> Option<bool> {
    match raw {
        Some(JsonView::Bool(flag)) => Some(flag),
        _ => None,
    }
}

/// A field that must hold an unsigned integer that fits a `usize`.
pub open spec fn as_count(raw: Option<JsonView>) -> Option<usize> {
    match raw {
        Some(JsonView::Number(NumberView::Unsigned(n))) => if n <= usize::MAX {
            Some(n as usize)
        } else {
            None
        },
        _ => None,
    }
}

/// A field that must hold an array.
pub open spec fn as_items(raw: Option<JsonView>) -> Option<Seq<JsonView>> {
    match raw {
        Some(JsonView::Array(items)) => Some(items),
        _ => None,
    }
}

/// The view of an optional document.
pub open spec fn view_of(found: Option<&Json>) -> Option<JsonView> {
    match found {
        Some(json) => Some(json@),
        None => None,
    }
}

/// Whether an outcome is the expected one: the same value by its view, or
/// nothing on both sides.
pub open spec fn yields<T: View>(got: Option<T>, expected: Option<T::V>) -> bool {
    match got {
        Some(value) => expected == Some(value@),
        None => expected is None,
    }
}

/// A value that can be read from a JSON document.
pub trait FromJson: Sized + View {
    /// The value that a document denotes, or `None` where it denotes none.
    spec fn decoded(json: JsonView) -> Option<Self::V>;

    /// Reads the value from a document.
    fn from_json(json: &Json) -> (value: Option<Self>)
        ensures
            yields(value, Self::decoded(json@)),
    ;
}

fn has_record_shape(json: &Json, count: usize) -> (fits: bool)
    ensures
        fits == is_record(json@, count as nat),
{
    match json {
        Json::Object(_) => true,
        Json::Array(items) => items.len() == count,
        _ => false,
    }
}

fn field<'a>(json: &'a Json, position: usize, name: &str) -> (found: Option<&'a Json>)
    ensures
        view_of(found) == record_field(json@, position as int, name@),
{
    match json {
        Json::Object(_) => json.member(name),
        Json::Array(items) => if position < items.len() {
            Some(&items[position])
        } else {
            None
        },
        _ => None,
    }
}

fn text_in(raw: Option<&Json>) -> (text: Option<String>)
    ensures
        yields(text, as_text(view_of(raw))),
{
    match raw {
        Some(Json::Text(text)) => Some(text.clone()),
        _ => None,
    }
}

fn optional_text_in(raw: Option<&Json>) -> (text: Option<Option<String>>)
    ensures
        match text {
            Some(inner) => as_optional_text(view_of(raw)) is Some && yields(
                inner,
                as_optional_text(view_of(raw))->0,
            ),
            None => as_optional_text(view_of(raw)) is None,
        },
{
    match raw {
        None => Some(None),
        Some(Json::Null) => Some(None),
        Some(Json::Text(text)) => Some(Some(text.clone())),
        _ => None,
    }
}

fn flag_in(raw: Option<&Json>) -> (flag: Option<bool>)
    ensures
        flag == as_flag(view_of(raw)),
{
    match raw {
        Some(Json::Bool(flag)) => Some(*flag),
        _ => None,
    }
}

fn count_in(raw: Option<&Json>) -> (count: Option<usize>)
    ensures
        count == as_count(view_of(raw)),
{
    match raw {
        Some(Json::Number(JsonNumber::Unsigned(n))) => if *n <= usize::MAX as u64 {
            Some(*n as usize)
        } else {
            None
        },
        _ => None,
    }
}

/// The session token that the login and refresh calls hand out.
#[derive(Debug, Clone, PartialEq)]
pub struct UserToken {
    pub user_token: String,
}

/// The mathematical value of a [`UserToken`].
pub struct UserTokenView {
    pub user_token: Seq<char>,
}

impl View for UserToken {
    type V = UserTokenView;

    open spec fn view(&self) -> UserTokenView {
        UserTokenView { user_token: self.user_token@ }
    }
}

impl FromJson for UserToken {
    open spec fn decoded(json: JsonView) -> Option<UserTokenView> {
        if is_record(json, 1) {
            match as_text(record_field(json, 0, "user_token"@)) {
                Some(user_token) => Some(UserTokenView { user_token }),
                None => None,
            }
        } else {
            None
        }
    }

    fn from_json(json: &Json) -> (value: Option<UserToken>) {
        if !has_record_shape(json, 1) {
            return None;
        }
        match text_in(field(json, 0, "user_token")) {
            Some(user_token) => Some(UserToken { user_token }),
            None => None,
        }
    }
}

/// A device on a network.
#[derive(Debug, Clone, PartialEq)]
pub struct Device {
    pub display_name: String,
    pub hostname: Option<String>,
    pub connected: bool,
}

/// The mathematical value of a [`Device`].
pub struct DeviceView {
    pub display_name: Seq<char>,
    pub hostname: Option<Seq<char>>,
    pub connected: bool,
}

impl View for Device {
    type V = DeviceView;

    open spec fn view(&self) -> DeviceView {
        DeviceView {
            display_name: self.display_name@,
            hostname: match self.hostname {
                Some(hostname) => Some(hostname@),
                None => None,
            },
            connected: self.connected,
        }
    }
}

impl FromJson for Device {
    open spec fn decoded(json: JsonView) -> Option<DeviceView> {
        if is_record(json, 3) {
            match (
                as_text(record_field(json, 0, "display_name"@)),
                as_optional_text(record_field(json, 1, "hostname"@)),
                as_flag(record_field(json, 2, "connected"@)),
            ) {
                (Some(display_name), Some(hostname), Some(connected)) => Some(
                    DeviceView { display_name, hostname, connected },
                ),
                _ => None,
            }
        } else {
            None
        }
    }

    fn from_json(json: &Json) -> (value: Option<Device>) {
        if !has_record_shape(json, 3) {
            return None;
        }
        let display_name = text_in(field(json, 0, "display_name"));
        let hostname = optional_text_in(field(json, 1, "hostname"));
        let connected = flag_in(field(json, 2, "connected"));
        match (display_name, hostname, connected) {
            (Some(display_name), Some(hostname), Some(connected)) => Some(
                Device { display_name, hostname, connected },
            ),
            _ => None,
        }
    }
}

/// The views of a list of devices.
pub open spec fn device_views(devices: Seq<Device>) -> Seq<DeviceView> {
    devices.map_values(|device: Device| device@)
}

/// The devices among a list of documents, in the order of the list: the
/// items that denote no device are left out.
pub open spec fn decoded_devices(items: Seq<JsonView>) -> Seq<DeviceView>
    decreases items.len(),
{
    if items.len() == 0 {
        Seq::empty()
    } else {
        match Device::decoded(items.last()) {
            Some(device) => decoded_devices(items.drop_last()).push(device),
            None => decoded_devices(items.drop_last()),
        }
    }
}

impl Device {
    /// Reads the devices of a list, and passes over each item that is none.
    pub fn list_from(items: &Vec<Json>) -> (devices: Vec<Device>)
        ensures
            device_views(devices@) == decoded_devices(items@.map_values(|item: Json| item@)),
    {
        let ghost views = items@.map_values(|item: Json| item@);
        let mut devices: Vec<Device> = Vec::new();
        let mut i: usize = 0;
        assert(views.take(0) =~= Seq::empty());
        while i < items.len()
            invariant
                i <= items.len(),
                views == items@.map_values(|item: Json| item@),
                device_views(devices@) =~= decoded_devices(views.take(i as int)),
            decreases items.len() - i,
        {
            let ghost before = devices@;
            assert(views.take(i + 1).drop_last() =~= views.take(i as int));
            assert(views.take(i + 1).last() == items[i as int]@);
            match Device::from_json(&items[i]) {
                Some(device) => {
                    devices.push(device);
                    assert(device_views(devices@) =~= device_views(before).push(device@));
                },
                None => {},
            }
            i += 1;
        }
        assert(views.take(i as int) =~= views);
        devices
    }
}

/// A network of the account: its name, and the address under which the
/// service keeps it.
#[derive(Debug, Clone, PartialEq)]
pub struct Network {
    pub name: String,
    pub url: String,
}

/// The mathematical value of a [`Network`].
pub struct NetworkView {
    pub name: Seq<char>,
    pub url: Seq<char>,
}

impl View for Network {
    type V = NetworkView;

    open spec fn view(&self) -> NetworkView {
        NetworkView { name: self.name@, url: self.url@ }
    }
}

impl FromJson for Network {
    open spec fn decoded(json: JsonView) -> Option<NetworkView> {
        if is_record(json, 2) {
            match (
                as_text(record_field(json, 0, "name"@)),
                as_text(record_field(json, 1, "url"@)),
            ) {
                (Some(name), Some(url)) => Some(NetworkView { name, url }),
                _ => None,
            }
        } else {
            None
        }
    }

    fn from_json(json: &Json) -> (value: Option<Network>) {
        if !has_record_shape(json, 2) {
            return None;
        }
        let name = text_in(field(json, 0, "name"));
        let url = text_in(field(json, 1, "url"));
        match (name, url) {
            (Some(name), Some(url)) => Some(Network { name, url }),
            _ => None,
        }
    }
}

/// The views of a list of networks.
pub open spec fn network_views(networks: Seq<Network>) -> Seq<NetworkView> {
    networks.map_values(|network: Network| network@)
}

/// The networks that a list of documents denotes: every item must denote
/// one.
pub open spec fn decoded_networks(items: Seq<JsonView>) -> Option<Seq<NetworkView>> {
    if forall|i: int| 0 <= i < items.len() ==> (#[trigger] Network::decoded(items[i])) is Some {
        Some(Seq::new(items.len(), |i: int| Network::decoded(items[i])->0))
    } else {
        None
    }
}

fn networks_in(raw: Option<&Json>) -> (networks: Option<Vec<Network>>)
    ensures
        match networks {
            Some(list) => as_items(view_of(raw)) is Some && decoded_networks(
                as_items(view_of(raw))->0,
            ) == Some(network_views(list@)),
            None => as_items(view_of(raw)) is None || decoded_networks(
                as_items(view_of(raw))->0,
            ) is None,
        },
{
    match raw {
        Some(Json::Array(items)) => {
            let ghost views = as_items(view_of(raw))->0;
            let mut list: Vec<Network> = Vec::new();
            let mut i: usize = 0;
            while i < items.len()
                invariant
                    i <= items.len(),
                    as_items(view_of(raw)) == Some(views),
                    views.len() == items.len(),
                    forall|k: int| 0 <= k < items.len() ==> (#[trigger] views[k]) == items[k]@,
                    list.len() == i,
                    forall|k: int|
                        0 <= k < i ==> (#[trigger] Network::decoded(views[k])) == Some(list[k]@),
                decreases items.len() - i,
            {
                match Network::from_json(&items[i]) {
                    Some(network) => {
                        list.push(network);
                    },
                    None => {
                        assert(Network::decoded(views[i as int]) is None);
                        return None;
                    },
                }
                i += 1;
            }
            assert(network_views(list@) =~= Seq::new(
                views.len(),
                |i: int| Network::decoded(views[i])->0,
            ));
            Some(list)
        },
        _ => None,
    }
}

/// The networks of an account, with the number that the service gives for
/// them.
#[derive(Debug, Clone, PartialEq)]
pub struct NetworksCollection {
    pub count: usize,
    pub data: Vec<Network>,
}

/// The mathematical value of a [`NetworksCollection`].
pub struct NetworksCollectionView {
    pub count: usize,
    pub data: Seq<NetworkView>,
}

impl View for NetworksCollection {
    type V = NetworksCollectionView;

    open spec fn view(&self) -> NetworksCollectionView {
        NetworksCollectionView { count: self.count, data: network_views(self.data@) }
    }
}

impl FromJson for NetworksCollection {
    open spec fn decoded(json: JsonView) -> Option<NetworksCollectionView> {
        if is_record(json, 2) {
            match (
                as_count(record_field(json, 0, "count"@)),
                as_items(record_field(json, 1, "data"@)),
            ) {
                (Some(count), Some(items)) => match decoded_networks(items) {
                    Some(data) => Some(NetworksCollectionView { count, data }),
                    None => None,
                },
                _ => None,
            }
        } else {
            None
        }
    }

    fn from_json(json: &Json) -> (value: Option<NetworksCollection>) {
        if !has_record_shape(json, 2) {
            return None;
        }
        let count = count_in(field(json, 0, "count"));
        let data = networks_in(field(json, 1, "data"));
        match (count, data) {
            (Some(count), Some(data)) => Some(NetworksCollection { count, data }),
            _ => None,
        }
    }
}

/// What the service tells of an account.
#[derive(Debug, Clone, PartialEq)]
pub struct AccountSummary {
    pub networks: NetworksCollection,
}

/// The mathematical value of an [`AccountSummary`].
pub struct AccountSummaryView {
    pub networks: NetworksCollectionView,
}

impl View for AccountSummary {
    type V = AccountSummaryView;

    open spec fn view(&self) -> AccountSummaryView {
        AccountSummaryView { networks: self.networks@ }
    }
}

impl FromJson for AccountSummary {
    open spec fn decoded(json: JsonView) -> Option<AccountSummaryView> {
        if is_record(json, 1) {
            match record_field(json, 0, "networks"@) {
                Some(inner) => match NetworksCollection::decoded(inner) {
                    Some(networks) => Some(AccountSummaryView { networks }),
                    None => None,
                },
                None => None,
            }
        } else {
            None
        }
    }

    fn from_json(json: &Json) -> (value: Option<AccountSummary>) {
        if !has_record_shape(json, 1) {
            return None;
        }
        match field(json, 0, "networks") {
            Some(inner) => match NetworksCollection::from_json(inner) {
                Some(networks) => Some(AccountSummary { networks }),
                None => None,
            },
            None => None,
        }
    }
}

/// The envelope around every reply of the service: a record whose one
/// field, `data`, holds the payload.
#[derive(Debug, PartialEq)]
pub struct Response {
    data: Json,
}

/// The payload of an envelope, or `None` for a document that is none.
pub open spec fn envelope_payload(json: JsonView) -> Option<JsonView> {
    if is_record(json, 1) {
        record_field(json, 0, "data"@)
    } else {
        None
    }
}

/// The payload of the envelope that a text holds, or `None` where the text
/// is no JSON or the JSON no envelope.
pub open spec fn parsed_payload(text: Seq<char>) -> Option<JsonView> {
    match parsed_document(text) {
        Some(json) => envelope_payload(json),
        None => None,
    }
}

impl Response {
    /// The payload that the envelope holds.
    pub closed spec fn payload(self) -> JsonView {
        self.data@
    }

    /// Opens the envelope that a document is.
    pub fn from_json(json: Json) -> (envelope: Option<Response>)
        ensures
            match envelope {
                Some(response) => envelope_payload(json@) == Some(response.payload()),
                None => envelope_payload(json@) is None,
            },
    {
        let found = match json {
            Json::Object(_) => json.into_member("data"),
            Json::Array(_) => json.into_single_item(),
            _ => None,
        };
        match found {
            Some(data) => Some(Response { data }),
            None => None,
        }
    }

    /// Reads an envelope from the text of a reply.
    pub fn parse(text: &str) -> (envelope: Option<Response>)
        ensures
            match envelope {
                Some(response) => parsed_payload(text@) == Some(response.payload()),
                None => parsed_payload(text@) is None,
            },
    {
        match Json::parse(text) {
            Some(json) => Response::from_json(json),
            None => None,
        }
    }

    /// The payload as it stands.
    pub fn data(&self) -> (data: &Json)
        ensures
            data@ == self.payload(),
    {
        &self.data
    }

    /// Reads the payload as a value of type `T`. It fails, with
    /// [`Error::Decode`], exactly where the payload denotes no such value.
    pub fn from_response<T: FromJson>(self) -> (value: Result<T, Error>)
        ensures
            match value {
                Ok(payload) => T::decoded(self.payload()) == Some(payload@),
                Err(error) => error == Error::Decode && T::decoded(self.payload()) is None,
            },
    {
        match T::from_json(&self.data) {
            Some(payload) => Ok(payload),
            None => Err(Error::Decode),
        }
    }
}

} // verus!
