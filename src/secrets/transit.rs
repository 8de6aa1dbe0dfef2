//! The transit secrets engine: named encryption keys.
use vstd::prelude::*;

use crate::client::{sub_path, Call, Method};
use crate::error::Error;
use crate::json::{
    bool_value, empty_object, field_bool, field_of, field_str, field_u64, find_field,
    member_decodable, opt_bool_member, opt_u64_member, put_field, put_opt_bool, put_opt_u64,
    json_same, shape_error, str_value, strings_in, strings_value, u64_value, FromJson, Json,
};
use crate::response::{joined, same_reply, Response};

verus! {

/// The standard, padded base64 text of some bytes, as `base64::encode` writes it.
pub uninterp spec fn base64_of(b: Seq<u8>) -> Seq<char>;

/// Relies on `base64::encode` (standard alphabet, padded): four characters for every
/// started group of three bytes. It panics when that length overflows `usize`, which the
/// bound on the input rules out.
#[verifier::external_body]
fn encode_base64(b: &[u8]) -> (r: String)
    requires
        b@.len() <= usize::MAX / 2,
    ensures
        r@ == base64_of(b@),
        r@.len() == 4 * ((b@.len() + 2) / 3),
{
    base64::encode(b)
}

/// The kinds of key the engine can create.
#[derive(Debug, Clone, Copy, PartialEq, Eq, Structural)]
pub enum KeyType {
    /// AES-256 in GCM with a 96-bit nonce.
    AES256GCM96,
    /// ChaCha20-Poly1305.
    ChaCha20Poly1305AEAD,
    /// Ed25519.
    ED25519,
    /// ECDSA on the P-256 curve.
    EC256,
    /// RSA with 2048 bits.
    RSA2048,
    /// RSA with 4096 bits.
    RSA4096,
}

/// The name a key type goes by on the wire.
pub open spec fn key_type_name(k: KeyType) -> Seq<char> {
    match k {
        KeyType::AES256GCM96 => "aes256-gcm96"@,
        KeyType::ChaCha20Poly1305AEAD => "chacha20-poly1305"@,
        KeyType::ED25519 => "ed25519"@,
        KeyType::EC256 => "ecdsa-p256"@,
        KeyType::RSA2048 => "rsa-2048"@,
        KeyType::RSA4096 => "rsa-4096"@,
    }
}

impl KeyType {
    /// The name of the key type on the wire.
    pub fn as_str(&self) -> (r: &'static str)
        ensures
            r@ == key_type_name(*self),
    {
        match self {
            KeyType::AES256GCM96 => "aes256-gcm96",
            KeyType::ChaCha20Poly1305AEAD => "chacha20-poly1305",
            KeyType::ED25519 => "ed25519",
            KeyType::EC256 => "ecdsa-p256",
            KeyType::RSA2048 => "rsa-2048",
            KeyType::RSA4096 => "rsa-4096",
        }
    }
}

impl Default for KeyType {
    fn default() -> (r: KeyType)
        ensures
            r == KeyType::AES256GCM96,
    {
        KeyType::AES256GCM96
    }
}

impl FromJson for KeyType {
    open spec fn decodable(v: Json) -> bool {
        v is Str && exists|k: KeyType| key_type_name(k) == v->Str_0@
    }

    open spec fn decodes_to(v: Json, x: KeyType) -> bool {
        key_type_name(x) == v->Str_0@
    }

    fn from_json(v: &Json) -> (r: Result<KeyType, Error>) {
        let s = match v {
            Json::Str(s) => s.as_str(),
            _ => {
                return Err(shape_error("expected a key type"));
            },
        };
        if text_is(s, KeyType::AES256GCM96) {
            Ok(KeyType::AES256GCM96)
        } else if text_is(s, KeyType::ChaCha20Poly1305AEAD) {
            Ok(KeyType::ChaCha20Poly1305AEAD)
        } else if text_is(s, KeyType::ED25519) {
            Ok(KeyType::ED25519)
        } else if text_is(s, KeyType::EC256) {
            Ok(KeyType::EC256)
        } else if text_is(s, KeyType::RSA2048) {
            Ok(KeyType::RSA2048)
        } else if text_is(s, KeyType::RSA4096) {
            Ok(KeyType::RSA4096)
        } else {
            assert forall|k: KeyType| key_type_name(k) != s@ by {
                match k {
                    KeyType::AES256GCM96 => {},
                    KeyType::ChaCha20Poly1305AEAD => {},
                    KeyType::ED25519 => {},
                    KeyType::EC256 => {},
                    KeyType::RSA2048 => {},
                    KeyType::RSA4096 => {},
                }
            }
            Err(shape_error("unknown key type"))
        }
    }
}

/// Whether `s` is the wire name of `k`.
fn text_is(s: &str, k: KeyType) -> (r: bool)
    ensures
        r == (s@ == key_type_name(k)),
{
    crate::json::text_eq(s, k.as_str())
}

/// Parameters for creating a named key.
#[derive(Debug, PartialEq, Eq)]
pub struct CreateKey {
    /// Name of the key; it names the key in the path, not in the body.
    pub name: String,
    /// Convergent encryption: the same plaintext gives the same ciphertext.
    pub convergent_encryption: Option<bool>,
    /// Key derivation.
    pub derived: Option<bool>,
    /// Whether the key can be exported.
    pub exportable: Option<bool>,
    /// Whether a plaintext backup of the key is allowed.
    pub allow_plaintext_backup: Option<bool>,
    /// Kind of key.
    pub key_type: KeyType,
}

impl Default for CreateKey {
    fn default() -> (r: CreateKey)
        ensures
            r.name@ == Seq::<char>::empty(),
            r.convergent_encryption is None,
            r.derived is None,
            r.exportable is None,
            r.allow_plaintext_backup is None,
            r.key_type == KeyType::AES256GCM96,
    {
        CreateKey {
            name: String::new(),
            convergent_encryption: None,
            derived: None,
            exportable: None,
            allow_plaintext_backup: None,
            key_type: KeyType::AES256GCM96,
        }
    }
}

impl CreateKey {
    /// Whether `j` is the body that creates this key: every setting that has a value,
    /// the type, and no name.
    pub open spec fn body_encoded_as(&self, j: Json) -> bool {
        match j {
            Json::Object(fs) => {
                &&& opt_bool_member(field_of(fs@, "convergent_encryption"@), self.convergent_encryption)
                &&& opt_bool_member(field_of(fs@, "derived"@), self.derived)
                &&& opt_bool_member(field_of(fs@, "exportable"@), self.exportable)
                &&& opt_bool_member(field_of(fs@, "allow_plaintext_backup"@), self.allow_plaintext_backup)
                &&& field_of(fs@, "type"@) matches Some(Json::Str(t)) && t@ == key_type_name(self.key_type)
                &&& field_of(fs@, "name"@) is None
            },
            _ => false,
        }
    }

    /// The body of the request that creates the key.
    pub fn body(&self) -> (r: Json)
        ensures
            self.body_encoded_as(r),
    {
        proof {
            reveal_strlit("convergent_encryption");
            reveal_strlit("derived");
            reveal_strlit("exportable");
            reveal_strlit("allow_plaintext_backup");
            reveal_strlit("type");
            reveal_strlit("name");
            assert("convergent_encryption"@.len() == 21 && "derived"@.len() == 7
                && "exportable"@.len() == 10 && "allow_plaintext_backup"@.len() == 22
                && "type"@.len() == 4 && "name"@.len() == 4);
            assert("type"@[0] != "name"@[0]);
        }
        let mut fs = empty_object();
        put_field(&mut fs, String::from_str("type"), Json::Str(String::from_str(self.key_type.as_str())));
        put_opt_bool(&mut fs, "allow_plaintext_backup", self.allow_plaintext_backup);
        put_opt_bool(&mut fs, "exportable", self.exportable);
        put_opt_bool(&mut fs, "derived", self.derived);
        put_opt_bool(&mut fs, "convergent_encryption", self.convergent_encryption);
        Json::Object(fs)
    }
}

/// A named key as the engine reports it.
pub struct Key {
    /// Name of the key.
    pub name: String,
    /// Key derivation.
    pub derived: bool,
    /// Whether the key can be exported.
    pub exportable: bool,
    /// Whether a plaintext backup of the key is allowed.
    pub allow_plaintext_backup: bool,
    /// Kind of key.
    pub key_type: KeyType,
    /// Whether the key can be deleted.
    pub deletion_allowed: bool,
    /// The versions of the key, by version number.
    pub keys: Vec<(String, Json)>,
    /// Minimum version allowed to decrypt.
    pub min_decryption_version: u64,
    /// Minimum version allowed to encrypt.
    pub min_encryption_version: u64,
    /// The key supports encryption.
    pub supports_encryption: bool,
    /// The key supports decryption.
    pub supports_decryption: bool,
    /// The key supports derivation.
    pub supports_derivation: bool,
    /// The key supports signing.
    pub supports_signing: bool,
}

impl FromJson for Key {
    open spec fn decodable(v: Json) -> bool {
        match v {
            Json::Object(fs) => {
                &&& str_value(field_of(fs@, "name"@)) is Some
                &&& bool_value(field_of(fs@, "derived"@)) is Some
                &&& bool_value(field_of(fs@, "exportable"@)) is Some
                &&& bool_value(field_of(fs@, "allow_plaintext_backup"@)) is Some
                &&& member_decodable::<KeyType>(field_of(fs@, "type"@))
                &&& bool_value(field_of(fs@, "deletion_allowed"@)) is Some
                &&& field_of(fs@, "keys"@) matches Some(Json::Object(_))
                &&& u64_value(field_of(fs@, "min_decryption_version"@)) is Some
                &&& u64_value(field_of(fs@, "min_encryption_version"@)) is Some
                &&& bool_value(field_of(fs@, "supports_encryption"@)) is Some
                &&& bool_value(field_of(fs@, "supports_decryption"@)) is Some
                &&& bool_value(field_of(fs@, "supports_derivation"@)) is Some
                &&& bool_value(field_of(fs@, "supports_signing"@)) is Some
            },
            _ => false,
        }
    }

    open spec fn decodes_to(v: Json, x: Key) -> bool {
        match v {
            Json::Object(fs) => {
                &&& str_value(field_of(fs@, "name"@)) == Some(x.name)
                &&& bool_value(field_of(fs@, "derived"@)) == Some(x.derived)
                &&& bool_value(field_of(fs@, "exportable"@)) == Some(x.exportable)
                &&& bool_value(field_of(fs@, "allow_plaintext_backup"@)) == Some(x.allow_plaintext_backup)
                &&& KeyType::decodes_to(field_of(fs@, "type"@)->Some_0, x.key_type)
                &&& bool_value(field_of(fs@, "deletion_allowed"@)) == Some(x.deletion_allowed)
                &&& json_same(field_of(fs@, "keys"@)->Some_0, Json::Object(x.keys))
                &&& u64_value(field_of(fs@, "min_decryption_version"@)) == Some(x.min_decryption_version)
                &&& u64_value(field_of(fs@, "min_encryption_version"@)) == Some(x.min_encryption_version)
                &&& bool_value(field_of(fs@, "supports_encryption"@)) == Some(x.supports_encryption)
                &&& bool_value(field_of(fs@, "supports_decryption"@)) == Some(x.supports_decryption)
                &&& bool_value(field_of(fs@, "supports_derivation"@)) == Some(x.supports_derivation)
                &&& bool_value(field_of(fs@, "supports_signing"@)) == Some(x.supports_signing)
            },
            _ => false,
        }
    }

    fn from_json(v: &Json) -> (r: Result<Key, Error>) {
        let fs = match v {
            Json::Object(fs) => fs,
            _ => {
                return Err(shape_error("expected an object"));
            },
        };
        let name = field_str(fs, "name")?;
        let derived = field_bool(fs, "derived")?;
        let exportable = field_bool(fs, "exportable")?;
        let allow_plaintext_backup = field_bool(fs, "allow_plaintext_backup")?;
        let key_type = crate::json::field_decode::<KeyType>(fs, "type")?;
        let deletion_allowed = field_bool(fs, "deletion_allowed")?;
        let keys = match find_field(fs, "keys") {
            Some(j) => match j {
                Json::Object(_) => match j.duplicate() {
                    Json::Object(ks) => ks,
                    _ => {
                        return Err(shape_error("expected an object of key versions"));
                    },
                },
                _ => {
                    return Err(shape_error("expected an object of key versions"));
                },
            },
            None => {
                return Err(shape_error("missing member"));
            },
        };
        let min_decryption_version = field_u64(fs, "min_decryption_version")?;
        let min_encryption_version = field_u64(fs, "min_encryption_version")?;
        let supports_encryption = field_bool(fs, "supports_encryption")?;
        let supports_decryption = field_bool(fs, "supports_decryption")?;
        let supports_derivation = field_bool(fs, "supports_derivation")?;
        let supports_signing = field_bool(fs, "supports_signing")?;
        Ok(
            Key {
                name,
                derived,
                exportable,
                allow_plaintext_backup,
                key_type,
                deletion_allowed,
                keys,
                min_decryption_version,
                min_encryption_version,
                supports_encryption,
                supports_decryption,
                supports_derivation,
                supports_signing,
            },
        )
    }
}

/// Parameters for configuring a key.
#[derive(Debug, PartialEq, Eq)]
pub struct ConfigureKey {
    /// Minimum version of ciphertext allowed to be decrypted.
    pub min_decryption_version: Option<u64>,
    /// Minimum version of the key used to encrypt, sign or make HMACs.
    pub min_encryption_version: Option<u64>,
    /// Whether the key may be deleted.
    pub deletion_allowed: Option<bool>,
    /// Whether the key can be exported.
    pub exportable: Option<bool>,
    /// Whether a plaintext backup of the key is allowed.
    pub allow_plaintext_backup: Option<bool>,
}

impl Default for ConfigureKey {
    fn default() -> (r: ConfigureKey)
        ensures
            r.min_decryption_version is None,
            r.min_encryption_version is None,
            r.deletion_allowed is None,
            r.exportable is None,
            r.allow_plaintext_backup is None,
    {
        ConfigureKey {
            min_decryption_version: None,
            min_encryption_version: None,
            deletion_allowed: None,
            exportable: None,
            allow_plaintext_backup: None,
        }
    }
}

impl ConfigureKey {
    /// Whether `j` is the body for this configuration: the settings that have a value.
    pub open spec fn encoded_as(&self, j: Json) -> bool {
        match j {
            Json::Object(fs) => {
                &&& opt_u64_member(field_of(fs@, "min_decryption_version"@), self.min_decryption_version)
                &&& opt_u64_member(field_of(fs@, "min_encryption_version"@), self.min_encryption_version)
                &&& opt_bool_member(field_of(fs@, "deletion_allowed"@), self.deletion_allowed)
                &&& opt_bool_member(field_of(fs@, "exportable"@), self.exportable)
                &&& opt_bool_member(field_of(fs@, "allow_plaintext_backup"@), self.allow_plaintext_backup)
            },
            _ => false,
        }
    }

    /// The JSON body.
    pub fn to_json(&self) -> (r: Json)
        ensures
            self.encoded_as(r),
    {
        proof {
            reveal_strlit("min_decryption_version");
            reveal_strlit("min_encryption_version");
            reveal_strlit("deletion_allowed");
            reveal_strlit("exportable");
            reveal_strlit("allow_plaintext_backup");
            assert("min_decryption_version"@.len() == 22 && "min_encryption_version"@.len() == 22
                && "deletion_allowed"@.len() == 16 && "exportable"@.len() == 10
                && "allow_plaintext_backup"@.len() == 22);
            assert("min_decryption_version"@[4] != "min_encryption_version"@[4]);
            assert("min_decryption_version"@[4] != "allow_plaintext_backup"@[4]);
            assert("min_encryption_version"@[4] != "allow_plaintext_backup"@[4]);
        }
        let mut fs = empty_object();
        put_opt_bool(&mut fs, "allow_plaintext_backup", self.allow_plaintext_backup);
        put_opt_bool(&mut fs, "exportable", self.exportable);
        put_opt_bool(&mut fs, "deletion_allowed", self.deletion_allowed);
        put_opt_u64(&mut fs, "min_encryption_version", self.min_encryption_version);
        put_opt_u64(&mut fs, "min_decryption_version", self.min_decryption_version);
        Json::Object(fs)
    }
}

/// One item to encrypt. Bytes go on the wire as base64 text; an absent nonce or
/// context is written as null.
#[derive(Debug, PartialEq, Eq)]
pub struct EncryptPayload<'a, 'b, 'c> {
    /// The plaintext.
    pub plaintext: &'a [u8],
    /// The nonce, if any.
    pub nonce: Option<&'b [u8]>,
    /// The derivation context, if any.
    pub context: Option<&'c [u8]>,
}

/// Optional bytes as a member: base64 text, or null when absent.
pub open spec fn opt_bytes_member(j: Option<Json>, b: Option<&[u8]>) -> bool {
    match b {
        Some(bytes) => j matches Some(Json::Str(s)) && s@ == base64_of(bytes@),
        None => j == Some(Json::Null),
    }
}

/// Optional bytes as JSON.
fn opt_bytes_json(b: Option<&[u8]>) -> (r: Json)
    requires
        b matches Some(bytes) ==> bytes@.len() <= usize::MAX / 2,
    ensures
        opt_bytes_member(Some(r), b),
{
    match b {
        Some(bytes) => Json::Str(encode_base64(bytes)),
        None => Json::Null,
    }
}

impl<'a, 'b, 'c> EncryptPayload<'a, 'b, 'c> {
    /// Whether `j` is the body for this item.
    pub open spec fn encoded_as(&self, j: Json) -> bool {
        match j {
            Json::Object(fs) => {
                &&& field_of(fs@, "plaintext"@) matches Some(Json::Str(s)) && s@ == base64_of(self.plaintext@)
                &&& opt_bytes_member(field_of(fs@, "nonce"@), self.nonce)
                &&& opt_bytes_member(field_of(fs@, "context"@), self.context)
            },
            _ => false,
        }
    }

    /// The JSON body. Each byte string must be short enough for its base64 text to
    /// have a length that fits in `usize`.
    pub fn to_json(&self) -> (r: Json)
        requires
            self.plaintext@.len() <= usize::MAX / 2,
            self.nonce matches Some(n) ==> n@.len() <= usize::MAX / 2,
            self.context matches Some(c) ==> c@.len() <= usize::MAX / 2,
        ensures
            self.encoded_as(r),
    {
        proof {
            reveal_strlit("plaintext");
            reveal_strlit("nonce");
            reveal_strlit("context");
            assert("plaintext"@.len() == 9 && "nonce"@.len() == 5 && "context"@.len() == 7);
        }
        let mut fs = empty_object();
        put_field(&mut fs, String::from_str("context"), opt_bytes_json(self.context));
        put_field(&mut fs, String::from_str("nonce"), opt_bytes_json(self.nonce));
        put_field(&mut fs, String::from_str("plaintext"), Json::Str(encode_base64(self.plaintext)));
        Json::Object(fs)
    }
}

/// The path of the key `name` of the engine mounted at `path`.
pub open spec fn key_path(path: Seq<char>, name: Seq<char>) -> Seq<char> {
    path + "/keys/"@ + name
}

fn key_path_of(path: &str, name: &str) -> (r: String)
    ensures
        r@ == key_path(path@, name@),
{
    let p = sub_path(path, "/keys/");
    sub_path(p.as_str(), name)
}

/// Creates a named key: its name goes in the path, the rest in the body; the reply is empty.
pub fn create_key(path: &str, key: &CreateKey) -> (r: Call)
    ensures
        r.path@ == key_path(path@, key.name@),
        r.method == Method::Post,
        r.query is None,
        r.payload matches Some(j) && key.body_encoded_as(j),
        !r.response_expected,
{
    let p = key_path_of(path, key.name.as_str());
    Call::post(p.as_str(), key.body(), false)
}

/// Reads a named key; the reply's payload reads as a `Key`.
pub fn read_key(path: &str, key: &str) -> (r: Call)
    ensures
        r.path@ == key_path(path@, key@),
        r.method == Method::Get,
        r.query is None,
        r.payload is None,
        r.response_expected,
{
    let p = key_path_of(path, key);
    Call::get(p.as_str())
}

/// Lists the keys of the engine mounted at `path`; `key_names` reads the reply.
pub fn list_keys(path: &str) -> (r: Call)
    ensures
        r.path@ == path@ + "/keys"@,
        r.method == Method::List,
        r.query is None,
        r.payload is None,
        r.response_expected,
{
    let p = sub_path(path, "/keys");
    Call::list(p.as_str())
}

/// Deletes a named key; the reply is empty.
pub fn delete_key(path: &str, key: &str) -> (r: Call)
    ensures
        r.path@ == key_path(path@, key@),
        r.method == Method::Delete,
        r.query is None,
        r.payload == Some(Json::Null),
        !r.response_expected,
{
    let p = key_path_of(path, key);
    Call::delete(p.as_str(), false)
}

/// Updates the configuration of a named key; the reply is empty.
pub fn configure_key(path: &str, key: &str, configuration: &ConfigureKey) -> (r: Call)
    ensures
        r.path@ == key_path(path@, key@) + "/config"@,
        r.method == Method::Post,
        r.query is None,
        r.payload matches Some(j) && configuration.encoded_as(j),
        !r.response_expected,
{
    let p = key_path_of(path, key);
    let p = sub_path(p.as_str(), "/config");
    Call::post(p.as_str(), configuration.to_json(), false)
}

/// The key names in the reply to a key listing: the payload must be an object whose
/// `keys` member is an array of strings. A payload that is no object is a decode
/// error; a missing `keys`, one that is no array, or an item that is no string is a
/// malformed response.
pub fn key_names(response: &Response) -> (r: Result<Vec<String>, Error>)
    ensures
        match response {
            Response::Error { errors } => r matches Err(Error::VaultError(m)) && m@ == joined(
                errors@,
            ),
            Response::Empty => r matches Err(Error::MissingData(b)) && *b == Response::Empty,
            Response::Response(d) => match d.data {
                None => r matches Err(Error::MissingData(b)) && same_reply(*response, *b),
                Some(Json::Object(fs)) => match strings_value(field_of(fs@, "keys"@)) {
                    Some(names) => r matches Ok(v) && v@ == names,
                    None => r matches Err(Error::MalformedResponse),
                },
                Some(_) => r matches Err(Error::JsonError(_)),
            },
        },
{
    let data = response.data_value()?;
    let fs = match data {
        Json::Object(fs) => fs,
        _ => {
            return Err(shape_error("expected an object"));
        },
    };
    let keys = match find_field(fs, "keys") {
        Some(k) => k,
        None => {
            return Err(Error::MalformedResponse);
        },
    };
    let items = match keys {
        Json::Array(items) => items,
        _ => {
            return Err(Error::MalformedResponse);
        },
    };
    match strings_in(items) {
        Ok(names) => Ok(names),
        Err(_) => Err(Error::MalformedResponse),
    }
}

} // verus!
