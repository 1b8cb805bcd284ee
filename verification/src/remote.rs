//! The pure halves of the transport and service glue: connection
//! parameters, the exact request strings the services are sent, and the
//! extraction of what their replies carry.  The I/O itself — sockets,
//! brokers, HTTP — lives outside the library; everything here is a
//! function from plain values to plain values.

use crate::classify::str_at;
use crate::raw::{resolve, RawValue, Step, StepModel};
use crate::text::{spec_udec, u64_to_string};
use vstd::prelude::*;
use vstd::string::StringExecFns;

verus! {

/// Whether `url::Url::parse` accepts a string.
pub uninterp spec fn parses_as_url(s: Seq<char>) -> bool;

/// Relies on url::Url::parse: whether a string parses as a URL is a
/// function of the string alone.
#[verifier::external_body]
fn url_parse_ok(s: &str) -> (r: bool)
    ensures
        r == parses_as_url(s@),
{
    url::Url::parse(s).is_ok()
}

/// A listen URL that the URL parser refused.
#[derive(Clone, Copy, Debug, PartialEq, Eq, Structural)]
pub struct UrlError;

/// The station-telemetry stream: where to connect and what to ask for.
pub struct WebsocketDatabaseLogger {
    pub websocket_url: String,
    pub access_token: String,
    pub device_id: String,
}

impl WebsocketDatabaseLogger {
    /// Remembers the endpoint, credential and station to listen for.
    pub fn new(websocket_url: &String, access_token: &String, device_id: &String) -> (r: Self)
        ensures
            r.websocket_url@ == websocket_url@,
            r.access_token@ == access_token@,
            r.device_id@ == device_id@,
    {
        Self {
            websocket_url: websocket_url.clone(),
            access_token: access_token.clone(),
            device_id: device_id.clone(),
        }
    }

    /// The full URL the stream is opened on: the endpoint with the access
    /// token as its query, accepted by the URL parser or refused whole.
    pub fn listen_url(&self) -> (r: Result<String, UrlError>)
        ensures
            r matches Ok(u) ==> u@ == self.websocket_url@ + "?token="@ + self.access_token@
                && parses_as_url(u@),
            r is Err <==> !parses_as_url(
                self.websocket_url@ + "?token="@ + self.access_token@,
            ),
    {
        let mut u = self.websocket_url.clone();
        u.append("?token=");
        u.append(self.access_token.as_str());
        proof {
            assert(u@ =~= self.websocket_url@ + "?token="@ + self.access_token@);
        }
        if url_parse_ok(u.as_str()) {
            Ok(u)
        } else {
            Err(UrlError)
        }
    }

    /// The subscription message sent once the stream is open.
    pub fn listen_command(&self) -> (r: String)
        ensures
            r@ == "{\"type\":\"listen_start\",\"device_id\": "@ + self.device_id@
                + ",\"id\":\"vineiq-"@ + self.device_id@ + "\"}"@,
    {
        let mut s = "{\"type\":\"listen_start\",\"device_id\": ".to_owned();
        s.append(self.device_id.as_str());
        s.append(",\"id\":\"vineiq-");
        s.append(self.device_id.as_str());
        s.append("\"}");
        proof {
            assert(s@ =~= "{\"type\":\"listen_start\",\"device_id\": "@ + self.device_id@
                + ",\"id\":\"vineiq-"@ + self.device_id@ + "\"}"@);
        }
        s
    }
}

/// The sensor-telemetry stream: broker parameters and the report topic.
pub struct MqttDatabaseLogger {
    pub broker: String,
    pub port: u16,
    pub topic: String,
    pub username: String,
    pub servicename: String,
}

impl MqttDatabaseLogger {
    /// Remembers the broker, credential and service name, and forms the
    /// report topic of the home.
    pub fn new(
        mqtt_broker: &String,
        mqtt_port: u16,
        home_id: &String,
        access_token: &String,
        service_name: &String,
    ) -> (r: Self)
        ensures
            r.broker@ == mqtt_broker@,
            r.port == mqtt_port,
            r.topic@ == "yl-home/"@ + home_id@ + "/+/report"@,
            r.username@ == access_token@,
            r.servicename@ == service_name@,
    {
        let mut topic = "yl-home/".to_owned();
        topic.append(home_id.as_str());
        topic.append("/+/report");
        proof {
            assert(topic@ =~= "yl-home/"@ + home_id@ + "/+/report"@);
        }
        Self {
            broker: mqtt_broker.clone(),
            port: mqtt_port,
            topic,
            username: access_token.clone(),
            servicename: service_name.clone(),
        }
    }
}

/// The sink connection string for a store address.
pub fn sender_conf(db_url: &String) -> (r: String)
    ensures
        r@ == "tcp::addr="@ + db_url@ + ";"@,
{
    let mut s = "tcp::addr=".to_owned();
    s.append(db_url.as_str());
    s.append(";");
    proof {
        assert(s@ =~= "tcp::addr="@ + db_url@ + ";"@);
    }
    s
}

/// One device of the sensor service's device list.
#[derive(Clone, Debug, PartialEq, Eq)]
pub struct Device {
    pub id: String,
    pub eui: String,
    pub model: String,
    pub name: String,
    pub token: String,
    pub dtype: String,
}

/// Ghost form of a device entry.
#[verifier::ext_equal]
pub ghost struct DeviceModel {
    pub id: Seq<char>,
    pub eui: Seq<char>,
    pub model: Seq<char>,
    pub name: Seq<char>,
    pub token: Seq<char>,
    pub dtype: Seq<char>,
}

impl View for Device {
    type V = DeviceModel;

    open spec fn view(&self) -> DeviceModel {
        DeviceModel {
            id: self.id@,
            eui: self.eui@,
            model: self.model@,
            name: self.name@,
            token: self.token@,
            dtype: self.dtype@,
        }
    }
}

impl DeepView for Device {
    type V = DeviceModel;

    open spec fn deep_view(&self) -> DeviceModel {
        self.view()
    }
}

/// The sensor service's API endpoint and credential.
pub struct Api {
    pub url: String,
    pub access_token: String,
}

/// The reply to a service request was not what the call needs.
#[derive(Clone, Copy, Debug, PartialEq, Eq, Structural)]
pub enum ApiError {
    BadCode,
    MissingField,
}

/// The string under a top-level key of a document, or empty.
pub open spec fn str_field_or_empty(v: RawValue, key: Seq<char>) -> Seq<char> {
    match str_at(v, key) {
        Some(s) => s,
        None => Seq::empty(),
    }
}

/// The device entry one element of the device list describes.
pub open spec fn device_of(v: RawValue) -> DeviceModel {
    DeviceModel {
        id: str_field_or_empty(v, "deviceId"@),
        eui: str_field_or_empty(v, "deviceeui"@),
        model: str_field_or_empty(v, "modelName"@),
        name: str_field_or_empty(v, "name"@),
        token: str_field_or_empty(v, "token"@),
        dtype: str_field_or_empty(v, "type"@),
    }
}

/// The device list a reply document carries: one entry per element of its
/// `data.devices` array, empty if the array is missing.
pub open spec fn device_list_of(doc: RawValue) -> Seq<DeviceModel> {
    match resolve(doc, seq![StepModel::Key("data"@), StepModel::Key("devices"@)]) {
        Some(v) => match v {
            RawValue::Arr(items) => items@.map(|i: int, d: RawValue| device_of(d)),
            _ => Seq::empty(),
        },
        None => Seq::empty(),
    }
}

/// The home id a reply document carries: its `data.id` string, provided
/// the reply's `code` is the success code.
pub open spec fn home_id_of(doc: RawValue) -> Result<Seq<char>, ApiError> {
    if str_at(doc, "code"@) != Some("000000"@) {
        Err(ApiError::BadCode)
    } else {
        match resolve(doc, seq![StepModel::Key("data"@), StepModel::Key("id"@)]) {
            Some(v) => match v {
                RawValue::Str(s) => Ok(s@),
                _ => Err(ApiError::MissingField),
            },
            None => Err(ApiError::MissingField),
        }
    }
}

/// The access token a reply document carries.
pub open spec fn access_token_of(doc: RawValue) -> Result<Seq<char>, ApiError> {
    match str_at(doc, "access_token"@) {
        Some(s) => Ok(s),
        None => Err(ApiError::MissingField),
    }
}

fn top_level_str(doc: &RawValue, key: &str) -> (r: Option<String>)
    ensures
        match r {
            Some(s) => str_at(*doc, key@) == Some(s@),
            None => str_at(*doc, key@) is None,
        },
{
    let mut path: Vec<Step> = Vec::new();
    path.push(Step::Key(key.to_owned()));
    proof {
        assert(path.deep_view() =~= seq![StepModel::Key(key@)]);
    }
    match crate::raw::resolve_value(doc, &path) {
        Some(v) => match v {
            RawValue::Str(s) => Some(s.clone()),
            _ => None,
        },
        None => None,
    }
}

fn two_key_value<'a>(doc: &'a RawValue, k0: &str, k1: &str) -> (r: Option<&'a RawValue>)
    ensures
        match r {
            Some(w) => resolve(*doc, seq![StepModel::Key(k0@), StepModel::Key(k1@)]) == Some(
                *w,
            ),
            None => resolve(*doc, seq![StepModel::Key(k0@), StepModel::Key(k1@)]) is None,
        },
{
    let mut path: Vec<Step> = Vec::new();
    path.push(Step::Key(k0.to_owned()));
    path.push(Step::Key(k1.to_owned()));
    proof {
        assert(path.deep_view() =~= seq![StepModel::Key(k0@), StepModel::Key(k1@)]);
    }
    crate::raw::resolve_value(doc, &path)
}

impl Api {
    /// Remembers the endpoint and credential.
    pub fn new(api_url: &String, access_token: &String) -> (r: Self)
        ensures
            r.url@ == api_url@,
            r.access_token@ == access_token@,
    {
        Self { url: api_url.clone(), access_token: access_token.clone() }
    }

    /// The request body asking for the device list, stamped with the
    /// caller's epoch milliseconds.
    pub fn device_list_request_body(&self, epoch_ms: u64) -> (r: String)
        ensures
            r@ == "{\"method\":\"Home.getDeviceList\",\"time\":"@ + spec_udec(epoch_ms as nat)
                + "}"@,
    {
        let mut s = "{\"method\":\"Home.getDeviceList\",\"time\":".to_owned();
        let digits = u64_to_string(epoch_ms);
        s.append(digits.as_str());
        s.append("}");
        proof {
            assert(s@ =~= "{\"method\":\"Home.getDeviceList\",\"time\":"@ + spec_udec(
                epoch_ms as nat,
            ) + "}"@);
        }
        s
    }

    /// The request body asking for the home's general info, stamped with
    /// the caller's epoch milliseconds.
    pub fn home_info_request_body(&self, epoch_ms: u64) -> (r: String)
        ensures
            r@ == "{\"method\":\"Home.getGeneralInfo\",\"time\":"@ + spec_udec(epoch_ms as nat)
                + "}"@,
    {
        let mut s = "{\"method\":\"Home.getGeneralInfo\",\"time\":".to_owned();
        let digits = u64_to_string(epoch_ms);
        s.append(digits.as_str());
        s.append("}");
        proof {
            assert(s@ =~= "{\"method\":\"Home.getGeneralInfo\",\"time\":"@ + spec_udec(
                epoch_ms as nat,
            ) + "}"@);
        }
        s
    }

    /// Reads the device list out of a reply document.
    pub fn devices_from_document(&self, doc: &RawValue) -> (r: Vec<Device>)
        ensures
            r.deep_view() == device_list_of(*doc),
    {
        let mut out: Vec<Device> = Vec::new();
        match two_key_value(doc, "data", "devices") {
            Some(v) => match v {
                RawValue::Arr(items) => {
                    let ghost model = items@.map(|i: int, d: RawValue| device_of(d));
                    let mut i: usize = 0;
                    while i < items.len()
                        invariant
                            i <= items.len(),
                            model == items@.map(|k: int, d: RawValue| device_of(d)),
                            out.deep_view() =~= model.take(i as int),
                        decreases items.len() - i,
                    {
                        let item = &items[i];
                        let d = Device {
                            id: str_or_empty(item, "deviceId"),
                            eui: str_or_empty(item, "deviceeui"),
                            model: str_or_empty(item, "modelName"),
                            name: str_or_empty(item, "name"),
                            token: str_or_empty(item, "token"),
                            dtype: str_or_empty(item, "type"),
                        };
                        proof {
                            assert(d@ =~~= device_of(items@[i as int]));
                            assert(model[i as int] == device_of(items@[i as int]));
                        }
                        let ghost old_dv = out.deep_view();
                        out.push(d);
                        proof {
                            assert(out.deep_view() =~= old_dv.push(d.deep_view()));
                            assert(out.deep_view() =~= model.take(i as int + 1));
                        }
                        i = i + 1;
                    }
                    proof {
                        assert(out.deep_view() =~= device_list_of(*doc));
                    }
                    out
                },
                _ => {
                    proof {
                        assert(out.deep_view() =~= device_list_of(*doc));
                    }
                    out
                },
            },
            None => {
                proof {
                    assert(out.deep_view() =~= device_list_of(*doc));
                }
                out
            },
        }
    }

    /// Reads the home id out of a reply document: the reply must carry the
    /// success code and the id string, exactly as `home_id_of` says.
    pub fn home_id_from_document(&self, doc: &RawValue) -> (r: Result<String, ApiError>)
        ensures
            r matches Ok(s) ==> home_id_of(*doc) == Ok::<Seq<char>, ApiError>(s@),
            r matches Err(e) ==> home_id_of(*doc) == Err::<Seq<char>, ApiError>(e),
    {
        let code = top_level_str(doc, "code");
        let code_ok = match &code {
            Some(c) => *c == "000000".to_owned(),
            None => false,
        };
        if !code_ok {
            return Err(ApiError::BadCode);
        }
        match two_key_value(doc, "data", "id") {
            Some(v) => match v {
                RawValue::Str(s) => Ok(s.clone()),
                _ => Err(ApiError::MissingField),
            },
            None => Err(ApiError::MissingField),
        }
    }
}

fn str_or_empty(v: &RawValue, key: &str) -> (r: String)
    ensures
        r@ == str_field_or_empty(*v, key@),
{
    match top_level_str(v, key) {
        Some(s) => s,
        None => {
            proof {
                assert(Seq::<char>::empty() =~= str_field_or_empty(*v, key@));
            }
            String::new()
        },
    }
}

/// The request body asking the token service for an access token.
pub fn token_request_body() -> (r: String)
    ensures
        r@ == "grant_type=client_credentials"@,
{
    "grant_type=client_credentials".to_owned()
}

/// Reads the access token out of a token-service reply document.
pub fn access_token_from_document(doc: &RawValue) -> (r: Result<String, ApiError>)
    ensures
        r matches Ok(s) ==> access_token_of(*doc) == Ok::<Seq<char>, ApiError>(s@),
        r matches Err(e) ==> access_token_of(*doc) == Err::<Seq<char>, ApiError>(e),
{
    match top_level_str(doc, "access_token") {
        Some(s) => Ok(s),
        None => Err(ApiError::MissingField),
    }
}

} // verus!
