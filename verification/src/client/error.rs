//! The client's errors.
use vstd::prelude::*;

verus! {

/// The client's errors, with the outside error that caused each, if any.
#[derive(Debug)]
pub enum ErrorKind {
    WsConnect { url: String, source: tokio_tungstenite::tungstenite::Error },
    WsRead(tokio_tungstenite::tungstenite::Error),
    DeserializeJson(serde_json::Error),
    ReadConfig { path: std::path::PathBuf, source: std::io::Error },
    DeserializeToml(toml::de::Error),
    Url(url::ParseError),
    StunDiscovery { message: String },
    HttpDiscovery(reqwest::Error),
    ParseIp { body: String },
    DiscoveryFailed,
    Reqwest(reqwest::Error),
    InvalidKey { context: String },
    CreateInterface { interface: String, source: std::io::Error },
    ConfigureDevice { interface: String, source: std::io::Error },
    Netlink { context: String },
    SetAddress { source: rtnetlink::Error },
    SetLinkUp { source: rtnetlink::Error },
    GetInterface { interface: String },
    Registration { source: reqwest::Error },
    Deregister { public_key: String, source: reqwest::Error },
    RegistrationStatus { status: u16, body: String },
    DeleteInterface { name: String, source: rtnetlink::Error },
    AddRoute { destination: String, source: rtnetlink::Error },
}

} // verus!
