//! WireGuard public keys: base64 text that decodes to 32 bytes.
use vstd::prelude::*;
use base64::Engine;

verus! {

/// Name for what the `base64` crate's `STANDARD` engine decodes from a
/// text (its characters taken as UTF-8 bytes); `None` when it refuses it.
pub uninterp spec fn base64_standard_decoded(s: Seq<char>) -> Option<Seq<u8>>;

/// Name for the 32 key bytes that `wireguard_control::Key::from_base64`
/// reads from a text; `None` when it refuses it.
pub uninterp spec fn wireguard_key_decoded(s: Seq<char>) -> Option<Seq<u8>>;

/// Calls `base64::engine::general_purpose::STANDARD.decode`; the bytes
/// are `base64_standard_decoded(s)` (the decoder's error is dropped).
#[verifier::external_body]
fn base64_standard_decode(s: &str) -> (r: Option<Vec<u8>>)
    ensures
        r matches Some(b) ==> base64_standard_decoded(s@) == Some(b@),
        r is None <==> base64_standard_decoded(s@) is None,
{
    base64::engine::general_purpose::STANDARD.decode(s).ok()
}

/// Calls `wireguard_control::Key::from_base64` and keeps the key's bytes,
/// or the text of its error, whose `Display` writes `Invalid key format`.
/// Its source returns a key only when the text decodes to exactly 32
/// bytes.
#[verifier::external_body]
fn wireguard_key_from_base64(s: &str) -> (r: Result<[u8; 32], String>)
    ensures
        r matches Ok(b) ==> wireguard_key_decoded(s@) == Some(b@),
        r is Err <==> wireguard_key_decoded(s@) is None,
        r matches Err(m) ==> m@ == "Invalid key format"@,
{
    match wireguard_control::Key::from_base64(s) {
        Ok(k) => Ok(k.0),
        Err(e) => Err(e.to_string()),
    }
}

/// The bytes of a WireGuard key.
#[derive(Clone, Copy, Debug, PartialEq, Eq)]
pub struct WgKey(pub [u8; 32]);

/// Reads a WireGuard key from base64 text, as `wireguard_control::Key::from_base64`;
/// on failure, gives the text of the key error (`Invalid key format`).
pub fn parse_wireguard_key(s: &str) -> (r: Result<WgKey, String>)
    ensures
        r matches Ok(k) ==> wireguard_key_decoded(s@) == Some(k.0@),
        r is Err <==> wireguard_key_decoded(s@) is None,
        r matches Err(m) ==> m@ == "Invalid key format"@,
{
    match wireguard_key_from_base64(s) {
        Ok(b) => Ok(WgKey(b)),
        Err(m) => Err(m),
    }
}

/// Whether `s` is the text of a WireGuard public key: standard base64 of
/// exactly 32 bytes.
pub open spec fn valid_public_key_text(s: Seq<char>) -> bool {
    base64_standard_decoded(s) matches Some(b) && b.len() == 32
}

/// Why a text is not a WireGuard public key.
#[derive(Clone, Copy, Debug, PartialEq, Eq)]
pub enum PublicKeyError {
    /// The text is not standard base64.
    InvalidBase64,
    /// The text decodes to `len` bytes instead of 32.
    InvalidLength { len: usize },
}

/// A WireGuard public key, kept as the base64 text it was given; the text
/// always decodes to exactly 32 bytes.
#[derive(Debug)]
pub struct WireguardPublicKey(String);

impl Clone for WireguardPublicKey {
    fn clone(&self) -> (r: Self)
        ensures
            r@ == self@,
    {
        proof {
            use_type_invariant(self);
        }
        WireguardPublicKey(self.0.clone())
    }
}

impl View for WireguardPublicKey {
    type V = Seq<char>;

    closed spec fn view(&self) -> Seq<char> {
        self.0@
    }
}

impl WireguardPublicKey {
    #[verifier::type_invariant]
    spec fn decodes_to_32_bytes(self) -> bool {
        valid_public_key_text(self.0@)
    }

    /// Accepts `s` when it is standard base64 of exactly 32 bytes.
    pub fn parse(s: String) -> (r: Result<WireguardPublicKey, PublicKeyError>)
        ensures
            r matches Ok(k) ==> k@ == s@,
            r is Ok <==> valid_public_key_text(s@),
            r == Err::<WireguardPublicKey, PublicKeyError>(PublicKeyError::InvalidBase64)
                <==> base64_standard_decoded(s@) is None,
            r matches Err(PublicKeyError::InvalidLength { len }) ==> base64_standard_decoded(
                s@,
            ) matches Some(b) && b.len() == len && len != 32,
    {
        match base64_standard_decode(s.as_str()) {
            None => Err(PublicKeyError::InvalidBase64),
            Some(bytes) => {
                if bytes.len() != 32 {
                    Err(PublicKeyError::InvalidLength { len: bytes.len() })
                } else {
                    Ok(WireguardPublicKey(s))
                }
            },
        }
    }

    /// The key's base64 text, which decodes to exactly 32 bytes.
    pub fn as_str(&self) -> (r: &str)
        ensures
            r@ == self@,
            valid_public_key_text(r@),
    {
        proof {
            use_type_invariant(self);
        }
        self.0.as_str()
    }
}

} // verus!
