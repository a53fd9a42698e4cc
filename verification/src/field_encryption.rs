//! Encryption of single fields.
//!
//! An encrypted field is an envelope: a JSON object that names the key and
//! holds a nonce and a ciphertext. The place of the field (its table, column
//! and row) is authenticated with it, so that an envelope cannot be moved.
use crate::ids::Uuid;
use crate::json::{parse, write_object, Json, JsonScalar, JsonText};
use crate::text::same_text;
use vstd::prelude::*;
use vstd::string::{StrSliceExecFns, StringExecFns};
use vstd::utf8::*;

verus! {

/// The member that marks an envelope.
pub const MARKER: &'static str = "__near_db_encrypted";

/// The key that fields are encrypted with where no other is named.
pub const DEFAULT_KEY_ID: &'static str = "db-v1";

/// The only algorithm of envelopes.
pub const ALGORITHM: &'static str = "AES-256-GCM";

/// The longest plaintext, in bytes, that one nonce can cover.
pub const MAX_PLAINTEXT: u64 = 68_719_476_704;

/// The longest ciphertext, in bytes, of such a plaintext.
pub const MAX_CIPHERTEXT: u64 = 68_719_476_720;

/// The longest place, in bytes, that can be authenticated with a field.
pub const MAX_PLACE: u64 = 68_719_476_736;

/// Why a field could not be encrypted or decrypted.
#[derive(Debug, Clone, Copy, PartialEq, Eq, Structural)]
pub enum EncryptionError {
    InvalidKeyId,
    KeyNotHex,
    KeyLength(usize),
    EncryptionFailed,
    InvalidJson,
    MissingMarker,
    UnsupportedVersion,
    UnsupportedAlgorithm,
    UnsupportedKeyId,
    MissingNonce,
    InvalidBase64,
    InvalidNonceLength,
    MissingCiphertext,
    AuthenticationFailed,
    InvalidText,
}

impl EncryptionError {
    /// The message of an error.
    pub open spec fn message(self) -> Seq<char> {
        match self {
            EncryptionError::InvalidKeyId =>
                "database encryption key id must be 1-64 ASCII letters, digits, '.', '_' or '-'"@,
            EncryptionError::KeyNotHex => "database encryption key must be hex encoded"@,
            EncryptionError::KeyLength(len) => "database encryption key must be 32 bytes, got "@
                + crate::text::decimal(len as nat),
            EncryptionError::EncryptionFailed => "encryption failed"@,
            EncryptionError::InvalidJson => "invalid JSON"@,
            EncryptionError::MissingMarker => "missing encryption marker"@,
            EncryptionError::UnsupportedVersion => "unsupported envelope version"@,
            EncryptionError::UnsupportedAlgorithm => "unsupported envelope algorithm"@,
            EncryptionError::UnsupportedKeyId => "unsupported encryption key id"@,
            EncryptionError::MissingNonce => "missing nonce"@,
            EncryptionError::InvalidBase64 => "invalid base64"@,
            EncryptionError::InvalidNonceLength => "invalid nonce length"@,
            EncryptionError::MissingCiphertext => "missing ciphertext"@,
            EncryptionError::AuthenticationFailed => "envelope authentication failed"@,
            EncryptionError::InvalidText => "invalid utf-8"@,
        }
    }

    /// The message of an error.
    pub fn to_text(&self) -> (r: String)
        ensures
            r@ == self.message(),
    {
        match self {
            EncryptionError::InvalidKeyId =>
                "database encryption key id must be 1-64 ASCII letters, digits, '.', '_' or '-'".to_owned(),
            EncryptionError::KeyNotHex => "database encryption key must be hex encoded".to_owned(),
            EncryptionError::KeyLength(len) => {
                let mut text = "database encryption key must be 32 bytes, got ".to_owned();
                text.append(crate::text::decimal_text(*len as u64).as_str());
                text
            },
            EncryptionError::EncryptionFailed => "encryption failed".to_owned(),
            EncryptionError::InvalidJson => "invalid JSON".to_owned(),
            EncryptionError::MissingMarker => "missing encryption marker".to_owned(),
            EncryptionError::UnsupportedVersion => "unsupported envelope version".to_owned(),
            EncryptionError::UnsupportedAlgorithm => "unsupported envelope algorithm".to_owned(),
            EncryptionError::UnsupportedKeyId => "unsupported encryption key id".to_owned(),
            EncryptionError::MissingNonce => "missing nonce".to_owned(),
            EncryptionError::InvalidBase64 => "invalid base64".to_owned(),
            EncryptionError::InvalidNonceLength => "invalid nonce length".to_owned(),
            EncryptionError::MissingCiphertext => "missing ciphertext".to_owned(),
            EncryptionError::AuthenticationFailed => "envelope authentication failed".to_owned(),
            EncryptionError::InvalidText => "invalid utf-8".to_owned(),
        }
    }
}

/// The characters that a key id may hold.
pub open spec fn is_key_id_char(c: char) -> bool {
    ||| 'a' <= c && c <= 'z'
    ||| 'A' <= c && c <= 'Z'
    ||| '0' <= c && c <= '9'
    ||| c == '-'
    ||| c == '_'
    ||| c == '.'
}

/// Whether a text can be a key id: 1 to 64 of those characters.
pub open spec fn is_key_id(key_id: Seq<char>) -> bool {
    &&& 0 < key_id.len() <= 64
    &&& forall|i: int| 0 <= i < key_id.len() ==> is_key_id_char(#[trigger] key_id[i])
}

/// Accepts a key id, or rejects it where it is empty, too long, or holds a
/// character that it may not hold.
pub fn validate_key_id(key_id: &str) -> (r: Result<(), EncryptionError>)
    ensures
        r == (if is_key_id(key_id@) {
            Ok(())
        } else {
            Err(EncryptionError::InvalidKeyId)
        }),
{
    let len: usize = key_id.unicode_len();
    if len == 0 || len > 64 {
        return Err(EncryptionError::InvalidKeyId);
    }
    let mut i: usize = 0;
    while i < len
        invariant
            i <= len,
            len == key_id@.len(),
            forall|k: int| 0 <= k < i ==> is_key_id_char(#[trigger] key_id@[k]),
        decreases len - i,
    {
        let c: char = key_id.get_char(i);
        if !(('a' <= c && c <= 'z') || ('A' <= c && c <= 'Z') || ('0' <= c && c <= '9') || c == '-'
            || c == '_' || c == '.') {
            return Err(EncryptionError::InvalidKeyId);
        }
        i = i + 1;
    }
    Ok(())
}

/// Whether a text writes bytes in hexadecimal.
pub open spec fn is_hex(text: Seq<char>) -> bool {
    &&& text.len() % 2 == 0
    &&& forall|i: int| 0 <= i < text.len() ==> crate::text::hex_value(#[trigger] text[i]) is Some
}

/// The bytes that a text writes in hexadecimal.
pub open spec fn hex_bytes(text: Seq<char>) -> Seq<u8> {
    Seq::new(
        text.len() / 2,
        |i: int|
            (crate::text::hex_value(text[2 * i])->0 * 16 + crate::text::hex_value(
                text[2 * i + 1],
            )->0) as u8,
    )
}

/// `hex::decode`: one byte for each two hexadecimal digits, in either case;
/// nothing where the length is odd or a character is no such digit.
#[verifier::external_body]
fn decode_hex(text: &str) -> (r: Option<Vec<u8>>)
    ensures
        match r {
            Some(bytes) => is_hex(text@) && bytes@ == hex_bytes(text@),
            None => !is_hex(text@),
        },
{
    hex::decode(text).ok()
}

/// Reads a key: 32 bytes in hexadecimal.
pub fn parse_key(hex_key: &str) -> (r: Result<[u8; 32], EncryptionError>)
    ensures
        match r {
            Ok(key) => is_hex(hex_key@) && key@ == hex_bytes(hex_key@),
            Err(e) => if is_hex(hex_key@) {
                hex_key@.len() != 64 && e == EncryptionError::KeyLength(
                    (hex_key@.len() / 2) as usize,
                )
            } else {
                e == EncryptionError::KeyNotHex
            },
        },
        r is Ok <==> is_hex(hex_key@) && hex_key@.len() == 64,
{
    match decode_hex(hex_key) {
        None => Err(EncryptionError::KeyNotHex),
        Some(bytes) => {
            if bytes.len() != 32 {
                return Err(EncryptionError::KeyLength(bytes.len()));
            }
            let mut key: [u8; 32] = [0u8; 32];
            let mut i: usize = 0;
            while i < 32
                invariant
                    i <= 32,
                    bytes@.len() == 32,
                    forall|k: int| 0 <= k < i ==> #[trigger] key@[k] == bytes@[k],
                decreases 32 - i,
            {
                key[i] = bytes[i];
                i = i + 1;
            }
            assert(key@ =~= bytes@);
            Ok(key)
        },
    }
}

/// The members of an envelope that a reader looks at.
#[derive(Debug, Clone)]
pub struct EnvelopeFields {
    pub marker: Option<Json>,
    pub version: Option<Json>,
    pub algorithm: Option<Json>,
    pub key_id: Option<Json>,
    pub nonce: Option<Json>,
    pub ciphertext: Option<Json>,
}

/// Those members, with their texts as characters.
pub struct EnvelopeFieldsView {
    pub marker: Option<crate::json::JsonView>,
    pub version: Option<crate::json::JsonView>,
    pub algorithm: Option<crate::json::JsonView>,
    pub key_id: Option<crate::json::JsonView>,
    pub nonce: Option<crate::json::JsonView>,
    pub ciphertext: Option<crate::json::JsonView>,
}

impl View for EnvelopeFields {
    type V = EnvelopeFieldsView;

    open spec fn view(&self) -> EnvelopeFieldsView {
        EnvelopeFieldsView {
            marker: crate::json::optional_json(self.marker),
            version: crate::json::optional_json(self.version),
            algorithm: crate::json::optional_json(self.algorithm),
            key_id: crate::json::optional_json(self.key_id),
            nonce: crate::json::optional_json(self.nonce),
            ciphertext: crate::json::optional_json(self.ciphertext),
        }
    }
}

/// The members that a reader looks at, of a value.
pub open spec fn fields_of(value: crate::json::JsonView) -> EnvelopeFieldsView {
    EnvelopeFieldsView {
        marker: crate::json::member_of(value, MARKER@),
        version: crate::json::member_of(value, "version"@),
        algorithm: crate::json::member_of(value, "alg"@),
        key_id: crate::json::member_of(value, "key_id"@),
        nonce: crate::json::member_of(value, "nonce"@),
        ciphertext: crate::json::member_of(value, "ciphertext"@),
    }
}

fn envelope_fields(value: &Json) -> (r: EnvelopeFields)
    ensures
        r@ == fields_of(value@),
{
    EnvelopeFields {
        marker: value.member(MARKER),
        version: value.member("version"),
        algorithm: value.member("alg"),
        key_id: value.member("key_id"),
        nonce: value.member("nonce"),
        ciphertext: value.member("ciphertext"),
    }
}

/// The text of a member that is a text.
pub open spec fn text_of(value: Option<crate::json::JsonView>) -> Option<Seq<char>> {
    match value {
        Some(crate::json::JsonView::Text(text)) => Some(text),
        _ => None,
    }
}

fn as_text(value: &Option<Json>) -> (r: Option<&String>)
    ensures
        text_of(crate::json::optional_json(*value)) == (match r {
            Some(text) => Some(text@),
            None => None,
        }),
{
    match value {
        Some(Json::Text(text)) => Some(text),
        _ => None,
    }
}

/// Whether the marker is the JSON value true.
pub open spec fn is_marked(fields: EnvelopeFieldsView) -> bool {
    fields.marker == Some(crate::json::JsonView::Bool(true))
}

/// Whether the version is the integer 1.
pub open spec fn is_version_one(fields: EnvelopeFieldsView) -> bool {
    fields.version == Some(crate::json::JsonView::Number("1"@))
}

fn marked(fields: &EnvelopeFields) -> (r: bool)
    ensures
        r == is_marked(fields@),
{
    match fields.marker {
        Some(Json::Bool(true)) => true,
        _ => false,
    }
}

fn version_one(fields: &EnvelopeFields) -> (r: bool)
    ensures
        r == is_version_one(fields@),
{
    match &fields.version {
        Some(Json::Number(number)) => same_text(number.as_str(), "1"),
        _ => false,
    }
}

fn has_text(value: &Option<Json>, expected: &str) -> (r: bool)
    ensures
        r == (text_of(crate::json::optional_json(*value)) == Some(expected@)),
{
    match as_text(value) {
        Some(text) => same_text(text.as_str(), expected),
        None => false,
    }
}

/// Whether the members are those of an envelope: marked, of version 1 and of
/// the known algorithm, with texts for the key id, nonce and ciphertext. A
/// value that merely carries the marker is none.
pub open spec fn is_envelope_fields(fields: EnvelopeFieldsView) -> bool {
    &&& is_marked(fields)
    &&& is_version_one(fields)
    &&& text_of(fields.algorithm) == Some(ALGORITHM@)
    &&& text_of(fields.key_id) is Some
    &&& text_of(fields.nonce) is Some
    &&& text_of(fields.ciphertext) is Some
}

/// Whether the members are those of an envelope.
pub fn looks_like_envelope(fields: &EnvelopeFields) -> (r: bool)
    ensures
        r == is_envelope_fields(fields@),
{
    marked(fields) && version_one(fields) && has_text(&fields.algorithm, ALGORITHM) && as_text(
        &fields.key_id,
    ).is_some() && as_text(&fields.nonce).is_some() && as_text(&fields.ciphertext).is_some()
}

/// Whether a text writes an envelope.
pub open spec fn writes_envelope(text: Seq<char>) -> bool {
    match crate::json::parsed_json(text) {
        Some(value) => is_envelope_fields(fields_of(value)),
        None => false,
    }
}

fn text_is_envelope(text: &str) -> (r: bool)
    ensures
        r == writes_envelope(text@),
{
    match parse(text) {
        Some(value) => looks_like_envelope(&envelope_fields(&value)),
        None => false,
    }
}

/// Whether a value is an envelope.
pub fn is_envelope(value: &JsonText) -> (r: bool)
    ensures
        r == writes_envelope(value.text@),
{
    text_is_envelope(value.text.as_str())
}

/// What the head of an envelope is answered: the first rule that it breaks.
pub open spec fn header_result(fields: EnvelopeFieldsView, key_id: Seq<char>) -> Result<
    (),
    EncryptionError,
> {
    if !is_marked(fields) {
        Err(EncryptionError::MissingMarker)
    } else if !is_version_one(fields) {
        Err(EncryptionError::UnsupportedVersion)
    } else if text_of(fields.algorithm) != Some(ALGORITHM@) {
        Err(EncryptionError::UnsupportedAlgorithm)
    } else if text_of(fields.key_id) != Some(key_id) {
        Err(EncryptionError::UnsupportedKeyId)
    } else {
        Ok(())
    }
}

/// Checks the head of an envelope: its marker, version, algorithm and key id.
pub fn check_header(fields: &EnvelopeFields, expected_key_id: &str) -> (r: Result<
    (),
    EncryptionError,
>)
    ensures
        r == header_result(fields@, expected_key_id@),
{
    if !marked(fields) {
        Err(EncryptionError::MissingMarker)
    } else if !version_one(fields) {
        Err(EncryptionError::UnsupportedVersion)
    } else if !has_text(&fields.algorithm, ALGORITHM) {
        Err(EncryptionError::UnsupportedAlgorithm)
    } else if !has_text(&fields.key_id, expected_key_id) {
        Err(EncryptionError::UnsupportedKeyId)
    } else {
        Ok(())
    }
}

/// The characters that write bytes in base 64.
pub uninterp spec fn base64_text(bytes: Seq<u8>) -> Seq<char>;

/// The bytes that a text writes in base 64.
pub uninterp spec fn base64_bytes(text: Seq<char>) -> Option<Seq<u8>>;

/// The ciphertext of a message under a key and a nonce, with its place.
pub uninterp spec fn sealed(
    key: Seq<u8>,
    nonce: Seq<u8>,
    message: Seq<u8>,
    place: Seq<u8>,
) -> Seq<u8>;

/// The message of a ciphertext under a key and a nonce, where it and its place
/// are authentic.
pub uninterp spec fn unsealed(
    key: Seq<u8>,
    nonce: Seq<u8>,
    ciphertext: Seq<u8>,
    place: Seq<u8>,
) -> Option<Seq<u8>>;

/// `base64`'s standard engine, `encode`: a text that `decode` of the same
/// engine reads back as the bytes.
#[verifier::external_body]
fn encode_base64(bytes: &[u8]) -> (r: String)
    ensures
        r@ == base64_text(bytes@),
        base64_bytes(r@) == Some(bytes@),
{
    base64::Engine::encode(&base64::engine::general_purpose::STANDARD, bytes)
}

/// `base64`'s standard engine, `decode`: the bytes that a text writes, or
/// nothing where it writes none.
#[verifier::external_body]
fn decode_base64(text: &str) -> (r: Option<Vec<u8>>)
    ensures
        base64_bytes(text@) == (match r {
            Some(bytes) => Some(bytes@),
            None => None,
        }),
{
    base64::Engine::decode(&base64::engine::general_purpose::STANDARD, text).ok()
}

/// `aes_gcm`'s random source for nonces: twelve bytes left to chance.
#[verifier::external_body]
fn random_nonce() -> (r: [u8; 12]) {
    let mut nonce = [0u8; 12];
    aes_gcm::aead::rand_core::RngCore::fill_bytes(&mut aes_gcm::aead::OsRng, &mut nonce);
    nonce
}

/// `aes_gcm::Aes256Gcm`'s `encrypt`: within its limits on length it succeeds,
/// with a ciphertext 16 bytes longer than the message that `decrypt` opens with
/// the same key, nonce and place.
#[verifier::external_body]
fn seal(key: &[u8; 32], nonce: &[u8; 12], message: &[u8], place: &[u8]) -> (r: Vec<u8>)
    requires
        message@.len() <= MAX_PLAINTEXT,
        place@.len() <= MAX_PLACE,
    ensures
        r@ == sealed(key@, nonce@, message@, place@),
        r@.len() == message@.len() + 16,
        unsealed(key@, nonce@, r@, place@) == Some(message@),
{
    let cipher: aes_gcm::Aes256Gcm = aes_gcm::KeyInit::new(key.into());
    let payload = aes_gcm::aead::Payload { msg: message, aad: place };
    aes_gcm::aead::Aead::encrypt(&cipher, &aes_gcm::Nonce::from(*nonce), payload).unwrap()
}

/// `aes_gcm::Aes256Gcm`'s `decrypt`: the message of a ciphertext, or nothing
/// where it or its place is not authentic.
#[verifier::external_body]
fn unseal(key: &[u8; 32], nonce: &[u8; 12], ciphertext: &[u8], place: &[u8]) -> (r: Option<Vec<u8>>)
    requires
        ciphertext@.len() <= MAX_CIPHERTEXT,
        place@.len() <= MAX_PLACE,
    ensures
        unsealed(key@, nonce@, ciphertext@, place@) == (match r {
            Some(message) => Some(message@),
            None => None,
        }),
{
    let cipher: aes_gcm::Aes256Gcm = aes_gcm::KeyInit::new(key.into());
    let payload = aes_gcm::aead::Payload { msg: ciphertext, aad: place };
    aes_gcm::aead::Aead::decrypt(&cipher, &aes_gcm::Nonce::from(*nonce), payload).ok()
}

/// `String::from_utf8`: the text that bytes encode, or nothing where they
/// encode none.
#[verifier::external_body]
fn text_from_utf8(bytes: Vec<u8>) -> (r: Option<String>)
    ensures
        match r {
            Some(text) => valid_utf8(bytes@) && text@ == decode_utf8(bytes@),
            None => !valid_utf8(bytes@),
        },
{
    String::from_utf8(bytes).ok()
}

/// The place of a field: its table, column and row, with colons between them.
pub open spec fn place(table: Seq<char>, column: Seq<char>, id: Uuid) -> Seq<char> {
    table + ":"@ + column + ":"@ + crate::ids::hyphenated(id)
}

fn place_text(table: &str, column: &str, id: Uuid) -> (r: String)
    ensures
        r@ == place(table@, column@, id),
{
    let mut text = table.to_owned();
    text.append(":");
    text.append(column);
    text.append(":");
    text.append(id.to_text().as_str());
    text
}

/// The members of the envelope that is written for a ciphertext.
pub open spec fn envelope_members(key_id: Seq<char>, nonce: Seq<u8>, ciphertext: Seq<u8>) -> Seq<
    (Seq<char>, crate::json::JsonScalarView),
> {
    seq![
        (MARKER@, crate::json::JsonScalarView::Bool(true)),
        ("version"@, crate::json::JsonScalarView::Integer(1)),
        ("alg"@, crate::json::JsonScalarView::Text(ALGORITHM@)),
        ("key_id"@, crate::json::JsonScalarView::Text(key_id)),
        ("nonce"@, crate::json::JsonScalarView::Text(base64_text(nonce))),
        ("ciphertext"@, crate::json::JsonScalarView::Text(base64_text(ciphertext))),
    ]
}

/// The nonce that decoded bytes are, where there are twelve of them.
pub open spec fn nonce_result(decoded: Option<Seq<u8>>) -> Result<Seq<u8>, EncryptionError> {
    match decoded {
        None => Err(EncryptionError::InvalidBase64),
        Some(bytes) => if bytes.len() == 12 {
            Ok(bytes)
        } else {
            Err(EncryptionError::InvalidNonceLength)
        },
    }
}

/// Takes decoded bytes as a nonce.
pub fn nonce_from_bytes(decoded: Option<Vec<u8>>) -> (r: Result<[u8; 12], EncryptionError>)
    ensures
        nonce_result(
            match decoded {
                Some(bytes) => Some(bytes@),
                None => None,
            },
        ) == (match r {
            Ok(nonce) => Ok(nonce@),
            Err(e) => Err(e),
        }),
{
    match decoded {
        None => Err(EncryptionError::InvalidBase64),
        Some(bytes) => {
            if bytes.len() != 12 {
                return Err(EncryptionError::InvalidNonceLength);
            }
            let mut nonce: [u8; 12] = [0u8; 12];
            let mut i: usize = 0;
            while i < 12
                invariant
                    i <= 12,
                    bytes@.len() == 12,
                    forall|k: int| 0 <= k < i ==> #[trigger] nonce@[k] == bytes@[k],
                decreases 12 - i,
            {
                nonce[i] = bytes[i];
                i = i + 1;
            }
            assert(nonce@ =~= bytes@);
            Ok(nonce)
        },
    }
}

/// The text that an opened message is.
pub open spec fn message_result(message: Option<Seq<u8>>) -> Result<Seq<char>, EncryptionError> {
    match message {
        None => Err(EncryptionError::AuthenticationFailed),
        Some(bytes) => if valid_utf8(bytes) {
            Ok(decode_utf8(bytes))
        } else {
            Err(EncryptionError::InvalidText)
        },
    }
}

/// Takes an opened message as a text.
pub fn text_from_message(message: Option<Vec<u8>>) -> (r: Result<String, EncryptionError>)
    ensures
        message_result(
            match message {
                Some(bytes) => Some(bytes@),
                None => None,
            },
        ) == result_view(r),
{
    match message {
        None => Err(EncryptionError::AuthenticationFailed),
        Some(bytes) => match text_from_utf8(bytes) {
            Some(text) => Ok(text),
            None => Err(EncryptionError::InvalidText),
        },
    }
}

/// A result with its text as characters.
pub open spec fn result_view(result: Result<String, EncryptionError>) -> Result<
    Seq<char>,
    EncryptionError,
> {
    match result {
        Ok(text) => Ok(text@),
        Err(e) => Err(e),
    }
}

/// What opening a ciphertext gives; one that is longer than any that can be
/// written is not authentic.
pub open spec fn open_result(
    key: Seq<u8>,
    nonce: Seq<u8>,
    ciphertext: Seq<u8>,
    place_bytes: Seq<u8>,
) -> Result<Seq<char>, EncryptionError> {
    if ciphertext.len() > MAX_CIPHERTEXT || place_bytes.len() > MAX_PLACE {
        Err(EncryptionError::AuthenticationFailed)
    } else {
        message_result(unsealed(key, nonce, ciphertext, place_bytes))
    }
}

/// What the body of an envelope gives: its nonce and ciphertext, opened.
pub open spec fn body_result(
    key: Seq<u8>,
    fields: EnvelopeFieldsView,
    place_bytes: Seq<u8>,
) -> Result<Seq<char>, EncryptionError> {
    match text_of(fields.nonce) {
        None => Err(EncryptionError::MissingNonce),
        Some(nonce_text) => match nonce_result(base64_bytes(nonce_text)) {
            Err(e) => Err(e),
            Ok(nonce) => match text_of(fields.ciphertext) {
                None => Err(EncryptionError::MissingCiphertext),
                Some(text) => match base64_bytes(text) {
                    None => Err(EncryptionError::InvalidBase64),
                    Some(ciphertext) => open_result(key, nonce, ciphertext, place_bytes),
                },
            },
        },
    }
}

/// What decrypting a text gives.
pub open spec fn decrypted(
    key: Seq<u8>,
    key_id: Seq<char>,
    table: Seq<char>,
    column: Seq<char>,
    id: Uuid,
    encoded: Seq<char>,
) -> Result<Seq<char>, EncryptionError> {
    if !is_key_id(key_id) {
        Err(EncryptionError::InvalidKeyId)
    } else {
        match crate::json::parsed_json(encoded) {
            None => Err(EncryptionError::InvalidJson),
            Some(value) => match header_result(fields_of(value), key_id) {
                Err(e) => Err(e),
                Ok(_) => body_result(
                    key,
                    fields_of(value),
                    encode_utf8(place(table, column, id)),
                ),
            },
        }
    }
}

fn open_body(key: &[u8; 32], fields: &EnvelopeFields, place_bytes: &[u8]) -> (r: Result<
    String,
    EncryptionError,
>)
    ensures
        result_view(r) == body_result(key@, fields@, place_bytes@),
{
    let nonce = match as_text(&fields.nonce) {
        None => return Err(EncryptionError::MissingNonce),
        Some(text) => match nonce_from_bytes(decode_base64(text.as_str())) {
            Err(e) => return Err(e),
            Ok(nonce) => nonce,
        },
    };
    let ciphertext = match as_text(&fields.ciphertext) {
        None => return Err(EncryptionError::MissingCiphertext),
        Some(text) => match decode_base64(text.as_str()) {
            None => return Err(EncryptionError::InvalidBase64),
            Some(bytes) => bytes,
        },
    };
    if ciphertext.len() as u64 > MAX_CIPHERTEXT || place_bytes.len() as u64 > MAX_PLACE {
        return Err(EncryptionError::AuthenticationFailed);
    }
    text_from_message(unseal(key, &nonce, ciphertext.as_slice(), place_bytes))
}

/// Whether a text and its place are short enough to be encrypted.
pub open spec fn fits(table: Seq<char>, column: Seq<char>, id: Uuid, plain: Seq<char>) -> bool {
    encode_utf8(plain).len() <= MAX_PLAINTEXT && encode_utf8(place(table, column, id)).len()
        <= MAX_PLACE
}

/// Encrypts a field with the default key id.
pub fn encrypt(key: &[u8; 32], table: &str, column: &str, id: Uuid, plain: &str) -> (r: Result<
    String,
    EncryptionError,
>)
    ensures
        match r {
            Ok(text) => decrypted(key@, DEFAULT_KEY_ID@, table@, column@, id, text@) == Ok::<
                Seq<char>,
                EncryptionError,
            >(plain@),
            Err(e) => e == EncryptionError::EncryptionFailed,
        },
        r is Ok <==> fits(table@, column@, id, plain@),
        r matches Ok(text) ==> exists|nonce: Seq<u8>|
            nonce.len() == 12 && text@ == #[trigger] envelope(key@, DEFAULT_KEY_ID@, table@, column@, id, plain@, nonce),
        r matches Ok(text) ==> writes_envelope(text@) && crate::json::rewritten_json(text@) == Some(
            text@,
        ),
{
    proof {
        reveal_strlit("db-v1");
    }
    encrypt_with_key_id(key, DEFAULT_KEY_ID, table, column, id, plain)
}

/// The envelope of a field under a nonce.
pub open spec fn envelope(
    key: Seq<u8>,
    key_id: Seq<char>,
    table: Seq<char>,
    column: Seq<char>,
    id: Uuid,
    plain: Seq<char>,
    nonce: Seq<u8>,
) -> Seq<char> {
    crate::json::written_object(
        envelope_members(
            key_id,
            nonce,
            sealed(key, nonce, encode_utf8(plain), encode_utf8(place(table, column, id))),
        ),
    )
}

/// Encrypts a field under a given nonce. The envelope decrypts, under the same
/// key, key id and place, to the text that was encrypted. No two fields may be
/// encrypted with one key under one nonce.
pub fn encrypt_with_nonce(
    key: &[u8; 32],
    key_id: &str,
    table: &str,
    column: &str,
    id: Uuid,
    plain: &str,
    nonce: &[u8; 12],
) -> (r: Result<String, EncryptionError>)
    ensures
        match r {
            Ok(text) => decrypted(key@, key_id@, table@, column@, id, text@) == Ok::<
                Seq<char>,
                EncryptionError,
            >(plain@),
            Err(e) => e == (if is_key_id(key_id@) {
                EncryptionError::EncryptionFailed
            } else {
                EncryptionError::InvalidKeyId
            }),
        },
        r is Ok <==> is_key_id(key_id@) && fits(table@, column@, id, plain@),
        r matches Ok(text) ==> text@ == envelope(
            key@,
            key_id@,
            table@,
            column@,
            id,
            plain@,
            nonce@,
        ),
        r matches Ok(text) ==> writes_envelope(text@) && crate::json::rewritten_json(text@) == Some(
            text@,
        ),
{
    match validate_key_id(key_id) {
        Err(e) => return Err(e),
        Ok(_) => {},
    }
    let aad = place_text(table, column, id);
    let message = plain.as_bytes();
    let place_bytes = aad.as_str().as_bytes();
    if message.len() as u64 > MAX_PLAINTEXT || place_bytes.len() as u64 > MAX_PLACE {
        return Err(EncryptionError::EncryptionFailed);
    }
    let ciphertext = seal(key, nonce, message, place_bytes);
    let mut members: Vec<(String, JsonScalar)> = Vec::new();
    members.push((MARKER.to_owned(), JsonScalar::Bool(true)));
    members.push(("version".to_owned(), JsonScalar::Integer(1)));
    members.push(("alg".to_owned(), JsonScalar::Text(ALGORITHM.to_owned())));
    members.push(("key_id".to_owned(), JsonScalar::Text(key_id.to_owned())));
    members.push(("nonce".to_owned(), JsonScalar::Text(encode_base64(nonce.as_slice()))));
    members.push(("ciphertext".to_owned(), JsonScalar::Text(encode_base64(ciphertext.as_slice()))));
    let ghost given = members@;
    proof {
        lemma_member_names_differ();
        assert(crate::json::scalars_view(given) =~= envelope_members(
            key_id@,
            nonce@,
            ciphertext@,
        ));
        assert(crate::text::decimal_int(1) =~= "1"@) by {
            reveal_strlit("1");
        }
    }
    let text = write_object(members);
    proof {
        let value = crate::json::parsed_json(text@);
        assert(crate::json::member(text@, given[0].0@) == Some(crate::json::JsonView::Bool(true)));
        assert(crate::json::member(text@, given[1].0@) == Some(crate::json::JsonView::Number("1"@)));
        assert(crate::json::member(text@, given[2].0@) == Some(
            crate::json::JsonView::Text(ALGORITHM@),
        ));
        assert(crate::json::member(text@, given[3].0@) == Some(crate::json::JsonView::Text(key_id@)));
        assert(crate::json::member(text@, given[4].0@) == Some(
            crate::json::JsonView::Text(base64_text(nonce@)),
        ));
        assert(crate::json::member(text@, given[5].0@) == Some(
            crate::json::JsonView::Text(base64_text(ciphertext@)),
        ));
        encode_utf8_valid_utf8(plain@);
        encode_utf8_decode_utf8(plain@);
        assert(text@ == envelope(key@, key_id@, table@, column@, id, plain@, nonce@));
    }
    Ok(text)
}

/// Encrypts a field under a random nonce.
pub fn encrypt_with_key_id(
    key: &[u8; 32],
    key_id: &str,
    table: &str,
    column: &str,
    id: Uuid,
    plain: &str,
) -> (r: Result<String, EncryptionError>)
    ensures
        match r {
            Ok(text) => decrypted(key@, key_id@, table@, column@, id, text@) == Ok::<
                Seq<char>,
                EncryptionError,
            >(plain@),
            Err(e) => e == (if is_key_id(key_id@) {
                EncryptionError::EncryptionFailed
            } else {
                EncryptionError::InvalidKeyId
            }),
        },
        r is Ok <==> is_key_id(key_id@) && fits(table@, column@, id, plain@),
        r matches Ok(text) ==> exists|nonce: Seq<u8>|
            nonce.len() == 12 && text@ == #[trigger] envelope(key@, key_id@, table@, column@, id, plain@, nonce),
        r matches Ok(text) ==> writes_envelope(text@) && crate::json::rewritten_json(text@) == Some(
            text@,
        ),
{
    let nonce = random_nonce();
    encrypt_with_nonce(key, key_id, table, column, id, plain, &nonce)
}

proof fn lemma_member_names_differ()
    ensures
        MARKER@ != "version"@,
        MARKER@ != "alg"@,
        MARKER@ != "key_id"@,
        MARKER@ != "nonce"@,
        MARKER@ != "ciphertext"@,
        "version"@ != "alg"@,
        "version"@ != "key_id"@,
        "version"@ != "nonce"@,
        "version"@ != "ciphertext"@,
        "alg"@ != "key_id"@,
        "alg"@ != "nonce"@,
        "alg"@ != "ciphertext"@,
        "key_id"@ != "nonce"@,
        "key_id"@ != "ciphertext"@,
        "nonce"@ != "ciphertext"@,
{
    reveal_strlit("__near_db_encrypted");
    reveal_strlit("version");
    reveal_strlit("alg");
    reveal_strlit("key_id");
    reveal_strlit("nonce");
    reveal_strlit("ciphertext");
    assert(MARKER@.len() == 19);
    assert("version"@.len() == 7);
    assert("alg"@.len() == 3);
    assert("key_id"@.len() == 6);
    assert("nonce"@.len() == 5);
    assert("ciphertext"@.len() == 10);
}

/// Decrypts a field with the default key id.
pub fn decrypt(key: &[u8; 32], table: &str, column: &str, id: Uuid, encoded: &str) -> (r: Result<
    String,
    EncryptionError,
>)
    ensures
        result_view(r) == decrypted(key@, DEFAULT_KEY_ID@, table@, column@, id, encoded@),
{
    decrypt_with_key_id(key, DEFAULT_KEY_ID, table, column, id, encoded)
}

/// Decrypts a field.
pub fn decrypt_with_key_id(
    key: &[u8; 32],
    expected_key_id: &str,
    table: &str,
    column: &str,
    id: Uuid,
    encoded: &str,
) -> (r: Result<String, EncryptionError>)
    ensures
        result_view(r) == decrypted(key@, expected_key_id@, table@, column@, id, encoded@),
{
    match validate_key_id(expected_key_id) {
        Err(e) => return Err(e),
        Ok(_) => {},
    }
    let fields = match parse(encoded) {
        None => return Err(EncryptionError::InvalidJson),
        Some(value) => envelope_fields(&value),
    };
    match check_header(&fields, expected_key_id) {
        Err(e) => return Err(e),
        Ok(_) => {},
    }
    let aad = place_text(table, column, id);
    open_body(key, &fields, aad.as_str().as_bytes())
}

/// What reading a stored text gives: an envelope is decrypted, any other text
/// is given back as it is.
pub open spec fn read_text(
    key: Seq<u8>,
    key_id: Seq<char>,
    table: Seq<char>,
    column: Seq<char>,
    id: Uuid,
    value: Seq<char>,
) -> Result<Seq<char>, EncryptionError> {
    if writes_envelope(value) {
        decrypted(key, key_id, table, column, id, value)
    } else {
        Ok(value)
    }
}

/// Decrypts a stored text with the default key id where it is an envelope.
pub fn decrypt_if_encrypted(
    key: &[u8; 32],
    table: &str,
    column: &str,
    id: Uuid,
    value: String,
) -> (r: Result<String, EncryptionError>)
    ensures
        result_view(r) == read_text(key@, DEFAULT_KEY_ID@, table@, column@, id, value@),
{
    decrypt_if_encrypted_with_key_id(key, DEFAULT_KEY_ID, table, column, id, value)
}

/// Decrypts a stored text where it is an envelope.
pub fn decrypt_if_encrypted_with_key_id(
    key: &[u8; 32],
    key_id: &str,
    table: &str,
    column: &str,
    id: Uuid,
    value: String,
) -> (r: Result<String, EncryptionError>)
    ensures
        result_view(r) == read_text(key@, key_id@, table@, column@, id, value@),
{
    if text_is_envelope(value.as_str()) {
        decrypt_with_key_id(key, key_id, table, column, id, value.as_str())
    } else {
        Ok(value)
    }
}

/// Encrypts a JSON value with the default key id.
pub fn encrypt_json(
    key: &[u8; 32],
    table: &str,
    column: &str,
    id: Uuid,
    value: &JsonText,
) -> (r: Result<JsonText, EncryptionError>)
    ensures
        match r {
            Ok(encrypted) => writes_envelope(encrypted.text@) && decrypted(
                key@,
                DEFAULT_KEY_ID@,
                table@,
                column@,
                id,
                encrypted.text@,
            ) == Ok::<Seq<char>, EncryptionError>(value.text@),
            Err(e) => e == EncryptionError::EncryptionFailed,
        },
        r is Ok <==> fits(table@, column@, id, value.text@),
{
    proof {
        reveal_strlit("db-v1");
    }
    encrypt_json_with_key_id(key, DEFAULT_KEY_ID, table, column, id, value)
}

/// Encrypts a JSON value: the result is the envelope of its text, as JSON.
pub fn encrypt_json_with_key_id(
    key: &[u8; 32],
    key_id: &str,
    table: &str,
    column: &str,
    id: Uuid,
    value: &JsonText,
) -> (r: Result<JsonText, EncryptionError>)
    ensures
        match r {
            Ok(encrypted) => writes_envelope(encrypted.text@) && decrypted(
                key@,
                key_id@,
                table@,
                column@,
                id,
                encrypted.text@,
            ) == Ok::<Seq<char>, EncryptionError>(value.text@),
            Err(e) => e == (if is_key_id(key_id@) {
                EncryptionError::EncryptionFailed
            } else {
                EncryptionError::InvalidKeyId
            }),
        },
        r is Ok <==> is_key_id(key_id@) && fits(table@, column@, id, value.text@),
{
    match encrypt_with_key_id(key, key_id, table, column, id, value.text.as_str()) {
        Err(e) => Err(e),
        Ok(text) => match JsonText::parse(text.as_str()) {
            Some(encrypted) => Ok(encrypted),
            None => Err(EncryptionError::InvalidJson),
        },
    }
}

/// What reading a stored JSON value gives: an envelope is decrypted and its
/// text read as JSON, any other value is given back as it is.
pub open spec fn read_json_value(
    key: Seq<u8>,
    key_id: Seq<char>,
    table: Seq<char>,
    column: Seq<char>,
    id: Uuid,
    value: Seq<char>,
) -> Result<Seq<char>, EncryptionError> {
    if writes_envelope(value) {
        match decrypted(key, key_id, table, column, id, value) {
            Err(e) => Err(e),
            Ok(text) => match crate::json::rewritten_json(text) {
                Some(written) => Ok(written),
                None => Err(EncryptionError::InvalidJson),
            },
        }
    } else {
        Ok(value)
    }
}

/// A result with the text of its JSON value as characters.
pub open spec fn json_result_view(result: Result<JsonText, EncryptionError>) -> Result<
    Seq<char>,
    EncryptionError,
> {
    match result {
        Ok(value) => Ok(value.text@),
        Err(e) => Err(e),
    }
}

/// Decrypts a stored JSON value with the default key id where it is an
/// envelope.
pub fn decrypt_json_if_encrypted(
    key: &[u8; 32],
    table: &str,
    column: &str,
    id: Uuid,
    value: JsonText,
) -> (r: Result<JsonText, EncryptionError>)
    ensures
        json_result_view(r) == read_json_value(
            key@,
            DEFAULT_KEY_ID@,
            table@,
            column@,
            id,
            value.text@,
        ),
{
    decrypt_json_if_encrypted_with_key_id(key, DEFAULT_KEY_ID, table, column, id, value)
}

/// Decrypts a stored JSON value where it is an envelope.
pub fn decrypt_json_if_encrypted_with_key_id(
    key: &[u8; 32],
    key_id: &str,
    table: &str,
    column: &str,
    id: Uuid,
    value: JsonText,
) -> (r: Result<JsonText, EncryptionError>)
    ensures
        json_result_view(r) == read_json_value(key@, key_id@, table@, column@, id, value.text@),
{
    if !is_envelope(&value) {
        return Ok(value);
    }
    match decrypt_with_key_id(key, key_id, table, column, id, value.text.as_str()) {
        Err(e) => Err(e),
        Ok(text) => match JsonText::parse(text.as_str()) {
            Some(read) => Ok(read),
            None => Err(EncryptionError::InvalidJson),
        },
    }
}

/// An envelope written under one key id is refused under any other.
pub proof fn law_other_key_id_is_refused(
    key: Seq<u8>,
    key_id: Seq<char>,
    other: Seq<char>,
    table: Seq<char>,
    column: Seq<char>,
    id: Uuid,
    encoded: Seq<char>,
    plain: Seq<char>,
)
    requires
        is_key_id(other),
        other != key_id,
        decrypted(key, key_id, table, column, id, encoded) == Ok::<Seq<char>, EncryptionError>(
            plain,
        ),
    ensures
        decrypted(key, other, table, column, id, encoded) == Err::<Seq<char>, EncryptionError>(
            EncryptionError::UnsupportedKeyId,
        ),
{
}

/// Everything that decrypts is an envelope, so that reading it where plain
/// texts may stand too gives the same.
pub proof fn law_what_decrypts_is_an_envelope(
    key: Seq<u8>,
    key_id: Seq<char>,
    table: Seq<char>,
    column: Seq<char>,
    id: Uuid,
    encoded: Seq<char>,
)
    requires
        decrypted(key, key_id, table, column, id, encoded) is Ok,
    ensures
        writes_envelope(encoded),
        read_text(key, key_id, table, column, id, encoded) == decrypted(
            key,
            key_id,
            table,
            column,
            id,
            encoded,
        ),
{
}

/// An encrypted JSON value that reads back as itself is read as the value that
/// was encrypted.
pub proof fn law_json_round_trip(
    key: Seq<u8>,
    key_id: Seq<char>,
    table: Seq<char>,
    column: Seq<char>,
    id: Uuid,
    encrypted: JsonText,
    value: JsonText,
)
    requires
        value.reads_back(),
        decrypted(key, key_id, table, column, id, encrypted.text@) == Ok::<
            Seq<char>,
            EncryptionError,
        >(value.text@),
    ensures
        read_json_value(key, key_id, table, column, id, encrypted.text@) == Ok::<
            Seq<char>,
            EncryptionError,
        >(value.text@),
{
}

/// Key ids are one to 64 letters, digits, dots, underscores and hyphens.
pub proof fn law_key_ids_are_short_and_plain(key_id: Seq<char>)
    ensures
        is_key_id(key_id) <==> 1 <= key_id.len() <= 64 && forall|i: int|
            0 <= i < key_id.len() ==> {
                let c = #[trigger] key_id[i];
                ('a' <= c && c <= 'z') || ('A' <= c && c <= 'Z') || ('0' <= c && c <= '9') || c
                    == '-' || c == '_' || c == '.'
            },
{
    assert forall|i: int| 0 <= i < key_id.len() implies (is_key_id_char(#[trigger] key_id[i])
        <==> {
        let c = key_id[i];
        ('a' <= c && c <= 'z') || ('A' <= c && c <= 'Z') || ('0' <= c && c <= '9') || c == '-' || c
            == '_' || c == '.'
    }) by {}
}

/// What is an envelope: a JSON object with the marker, of version 1 and of the
/// one algorithm, that has texts for the key id, the nonce and the ciphertext.
pub proof fn law_envelopes_have_all_their_members(text: Seq<char>)
    ensures
        writes_envelope(text) <==> {
            &&& crate::json::member(text, "__near_db_encrypted"@) == Some(
                crate::json::JsonView::Bool(true),
            )
            &&& crate::json::member(text, "version"@) == Some(
                crate::json::JsonView::Number("1"@),
            )
            &&& crate::json::member(text, "alg"@) == Some(
                crate::json::JsonView::Text("AES-256-GCM"@),
            )
            &&& crate::json::member(text, "key_id"@) matches Some(crate::json::JsonView::Text(_))
            &&& crate::json::member(text, "nonce"@) matches Some(crate::json::JsonView::Text(_))
            &&& crate::json::member(text, "ciphertext"@) matches Some(
                crate::json::JsonView::Text(_),
            )
        },
{
}

/// A text decrypts exactly where it is an envelope under the key id that is
/// expected, with a nonce of twelve bytes, whose ciphertext opens with the key at
/// the place of the field: its table, its column and its row.
pub proof fn law_envelopes_open_only_at_their_place(
    key: Seq<u8>,
    key_id: Seq<char>,
    table: Seq<char>,
    column: Seq<char>,
    id: Uuid,
    text: Seq<char>,
    nonce: Seq<u8>,
    ciphertext: Seq<u8>,
    nonce_text: Seq<char>,
    ciphertext_text: Seq<char>,
)
    requires
        is_key_id(key_id),
        writes_envelope(text),
        crate::json::member(text, "nonce"@) == Some(crate::json::JsonView::Text(nonce_text)),
        crate::json::member(text, "ciphertext"@) == Some(
            crate::json::JsonView::Text(ciphertext_text),
        ),
        base64_bytes(nonce_text) == Some(nonce),
        base64_bytes(ciphertext_text) == Some(ciphertext),
        ciphertext.len() <= 68_719_476_720,
        encode_utf8(table + ":"@ + column + ":"@ + crate::ids::hyphenated(id)).len()
            <= 68_719_476_736,
    ensures
        ({
            let result = decrypted(key, key_id, table, column, id, text);
            let opened = unsealed(
                key,
                nonce,
                ciphertext,
                encode_utf8(table + ":"@ + column + ":"@ + crate::ids::hyphenated(id)),
            );
            let same_key_id = crate::json::member(text, "key_id"@) == Some(
                crate::json::JsonView::Text(key_id),
            );
            &&& !same_key_id ==> result == Err::<Seq<char>, EncryptionError>(
                EncryptionError::UnsupportedKeyId,
            )
            &&& same_key_id && nonce.len() != 12 ==> result == Err::<Seq<char>, EncryptionError>(
                EncryptionError::InvalidNonceLength,
            )
            &&& same_key_id && nonce.len() == 12 && opened is None ==> result == Err::<
                Seq<char>,
                EncryptionError,
            >(EncryptionError::AuthenticationFailed)
            &&& same_key_id && nonce.len() == 12 && opened is Some && valid_utf8(opened->0)
                ==> result == Ok::<Seq<char>, EncryptionError>(decode_utf8(opened->0))
            &&& same_key_id && nonce.len() == 12 && opened is Some && !valid_utf8(opened->0)
                ==> result == Err::<Seq<char>, EncryptionError>(EncryptionError::InvalidText)
        }),
{
}

/// A text that is not JSON, or no envelope, does not decrypt, and is told the
/// first thing that is missing.
pub proof fn law_other_texts_do_not_decrypt(
    key: Seq<u8>,
    key_id: Seq<char>,
    table: Seq<char>,
    column: Seq<char>,
    id: Uuid,
    text: Seq<char>,
)
    ensures
        ({
            let result = decrypted(key, key_id, table, column, id, text);
            let json = crate::json::parsed_json(text);
            let marker = crate::json::member(text, "__near_db_encrypted"@);
            let version = crate::json::member(text, "version"@);
            let algorithm = crate::json::member(text, "alg"@);
            let marked = marker == Some(crate::json::JsonView::Bool(true));
            let first = version == Some(crate::json::JsonView::Number("1"@));
            let known = algorithm == Some(crate::json::JsonView::Text("AES-256-GCM"@));
            let named = crate::json::member(text, "key_id"@) == Some(
                crate::json::JsonView::Text(key_id),
            );
            let nonce = crate::json::member(text, "nonce"@);
            let ciphertext = crate::json::member(text, "ciphertext"@);
            &&& !is_key_id(key_id) ==> result == Err::<Seq<char>, EncryptionError>(
                EncryptionError::InvalidKeyId,
            )
            &&& is_key_id(key_id) && json is None ==> result == Err::<Seq<char>, EncryptionError>(
                EncryptionError::InvalidJson,
            )
            &&& is_key_id(key_id) && json is Some && !marked ==> result == Err::<
                Seq<char>,
                EncryptionError,
            >(EncryptionError::MissingMarker)
            &&& is_key_id(key_id) && marked && !first ==> result == Err::<
                Seq<char>,
                EncryptionError,
            >(EncryptionError::UnsupportedVersion)
            &&& is_key_id(key_id) && marked && first && !known ==> result == Err::<
                Seq<char>,
                EncryptionError,
            >(EncryptionError::UnsupportedAlgorithm)
            &&& is_key_id(key_id) && marked && first && known && !named ==> result == Err::<
                Seq<char>,
                EncryptionError,
            >(EncryptionError::UnsupportedKeyId)
            &&& is_key_id(key_id) && marked && first && known && named && !(nonce matches Some(
                crate::json::JsonView::Text(_),
            )) ==> result == Err::<Seq<char>, EncryptionError>(EncryptionError::MissingNonce)
            &&& is_key_id(key_id) && marked && first && known && named && (nonce matches Some(
                crate::json::JsonView::Text(t),
            )) && base64_bytes(nonce->0->Text_0) is None ==> result == Err::<
                Seq<char>,
                EncryptionError,
            >(EncryptionError::InvalidBase64)
            &&& is_key_id(key_id) && marked && first && known && named && (nonce matches Some(
                crate::json::JsonView::Text(t),
            )) && base64_bytes(nonce->0->Text_0) is Some && base64_bytes(
                nonce->0->Text_0,
            )->0.len() == 12 && !(ciphertext matches Some(crate::json::JsonView::Text(_)))
                ==> result == Err::<Seq<char>, EncryptionError>(EncryptionError::MissingCiphertext)
        }),
{
}

/// Where plain values may stand beside envelopes, an envelope is decrypted and
/// any other value is given back as it is; a decrypted value must be JSON where
/// JSON is read.
pub proof fn law_plain_values_stay_readable(
    key: Seq<u8>,
    key_id: Seq<char>,
    table: Seq<char>,
    column: Seq<char>,
    id: Uuid,
    value: Seq<char>,
)
    ensures
        !writes_envelope(value) ==> read_text(key, key_id, table, column, id, value) == Ok::<
            Seq<char>,
            EncryptionError,
        >(value) && read_json_value(key, key_id, table, column, id, value) == Ok::<
            Seq<char>,
            EncryptionError,
        >(value),
        writes_envelope(value) ==> read_text(key, key_id, table, column, id, value) == decrypted(
            key,
            key_id,
            table,
            column,
            id,
            value,
        ),
        writes_envelope(value) && decrypted(key, key_id, table, column, id, value) is Err
            ==> read_json_value(key, key_id, table, column, id, value) == decrypted(
            key,
            key_id,
            table,
            column,
            id,
            value,
        ),
        writes_envelope(value) && (decrypted(key, key_id, table, column, id, value) matches Ok(
            plain,
        )) ==> read_json_value(key, key_id, table, column, id, value) == (
        match crate::json::rewritten_json(decrypted(key, key_id, table, column, id, value)->Ok_0) {
            Some(written) => Ok::<Seq<char>, EncryptionError>(written),
            None => Err(EncryptionError::InvalidJson),
        }),
{
}

/// An envelope holds the marker, the version, the algorithm, the key id, the
/// nonce, and the text sealed at its place; a text is encrypted as long as it and
/// its place are not too long.
pub proof fn law_envelope_holds_the_sealed_text(
    key: Seq<u8>,
    key_id: Seq<char>,
    table: Seq<char>,
    column: Seq<char>,
    id: Uuid,
    plain: Seq<char>,
    nonce: Seq<u8>,
)
    ensures
        envelope(key, key_id, table, column, id, plain, nonce) == crate::json::written_object(
            seq![
                ("__near_db_encrypted"@, crate::json::JsonScalarView::Bool(true)),
                ("version"@, crate::json::JsonScalarView::Integer(1)),
                ("alg"@, crate::json::JsonScalarView::Text("AES-256-GCM"@)),
                ("key_id"@, crate::json::JsonScalarView::Text(key_id)),
                ("nonce"@, crate::json::JsonScalarView::Text(base64_text(nonce))),
                (
                    "ciphertext"@,
                    crate::json::JsonScalarView::Text(
                        base64_text(
                            sealed(
                                key,
                                nonce,
                                encode_utf8(plain),
                                encode_utf8(
                                    table + ":"@ + column + ":"@ + crate::ids::hyphenated(id),
                                ),
                            ),
                        ),
                    ),
                ),
            ],
        ),
        fits(table, column, id, plain) <==> encode_utf8(plain).len() <= 68_719_476_704
            && encode_utf8(table + ":"@ + column + ":"@ + crate::ids::hyphenated(id)).len()
            <= 68_719_476_736,
{
}

/// Bytes that are written in hexadecimal read back as they were.
pub proof fn law_hexadecimal_reads_back(bytes: Seq<u8>)
    ensures
        is_hex(crate::text::hex(bytes)),
        hex_bytes(crate::text::hex(bytes)) == bytes,
{
    let text = crate::text::hex(bytes);
    assert forall|i: int| 0 <= i < bytes.len() implies #[trigger] hex_bytes(text)[i]
        == bytes[i] by {
        crate::text::law_hex_digits_have_their_value(bytes[i] as int / 16);
        crate::text::law_hex_digits_have_their_value(bytes[i] as int % 16);
        assert(text[2 * i] == crate::text::hex_digit(bytes[i] as int / 16));
        assert(text[2 * i + 1] == crate::text::hex_digit(bytes[i] as int % 16));
    }
    assert forall|i: int| 0 <= i < text.len() implies crate::text::hex_value(
        #[trigger] text[i],
    ) is Some by {
        crate::text::law_hex_digits_have_their_value(bytes[i / 2] as int / 16);
        crate::text::law_hex_digits_have_their_value(bytes[i / 2] as int % 16);
    }
    assert(hex_bytes(text) =~= bytes);
}

/// A key is accepted exactly where it is 64 hexadecimal digits, of either case;
/// other digits are told by their number of bytes.
pub proof fn law_keys_are_thirty_two_bytes(
    hex_key: &str,
    r: Result<[u8; 32], EncryptionError>,
)
    requires
        call_ensures(parse_key, (hex_key,), r),
    ensures
        is_hex(hex_key@) <==> hex_key@.len() % 2 == 0 && forall|i: int|
            0 <= i < hex_key@.len() ==> {
                let c = #[trigger] hex_key@[i];
                ('0' <= c && c <= '9') || ('a' <= c && c <= 'f') || ('A' <= c && c <= 'F')
            },
        r is Ok <==> is_hex(hex_key@) && hex_key@.len() == 64,
        r matches Ok(key) ==> key@ == hex_bytes(hex_key@),
        !is_hex(hex_key@) ==> r == Err::<[u8; 32], EncryptionError>(EncryptionError::KeyNotHex),
        is_hex(hex_key@) && hex_key@.len() != 64 ==> r == Err::<[u8; 32], EncryptionError>(
            EncryptionError::KeyLength((hex_key@.len() / 2) as usize),
        ),
{
    assert forall|i: int| 0 <= i < hex_key@.len() implies (crate::text::hex_value(
        #[trigger] hex_key@[i],
    ) is Some <==> {
        let c = hex_key@[i];
        ('0' <= c && c <= '9') || ('a' <= c && c <= 'f') || ('A' <= c && c <= 'F')
    }) by {
        crate::text::law_hexadecimal_is_read_in_either_case(hex_key@[i]);
    }
}

/// Each failure is told in its own words.
pub proof fn law_failures_are_told_in_words(length: usize)
    ensures
        EncryptionError::InvalidKeyId.message()
            == "database encryption key id must be 1-64 ASCII letters, digits, '.', '_' or '-'"@,
        EncryptionError::KeyNotHex.message() == "database encryption key must be hex encoded"@,
        EncryptionError::KeyLength(length).message()
            == "database encryption key must be 32 bytes, got "@ + crate::text::decimal(
            length as nat,
        ),
        EncryptionError::EncryptionFailed.message() == "encryption failed"@,
        EncryptionError::InvalidJson.message() == "invalid JSON"@,
        EncryptionError::MissingMarker.message() == "missing encryption marker"@,
        EncryptionError::UnsupportedVersion.message() == "unsupported envelope version"@,
        EncryptionError::UnsupportedAlgorithm.message() == "unsupported envelope algorithm"@,
        EncryptionError::UnsupportedKeyId.message() == "unsupported encryption key id"@,
        EncryptionError::MissingNonce.message() == "missing nonce"@,
        EncryptionError::InvalidBase64.message() == "invalid base64"@,
        EncryptionError::InvalidNonceLength.message() == "invalid nonce length"@,
        EncryptionError::MissingCiphertext.message() == "missing ciphertext"@,
        EncryptionError::AuthenticationFailed.message() == "envelope authentication failed"@,
        EncryptionError::InvalidText.message() == "invalid utf-8"@,
{
}

} // verus!
