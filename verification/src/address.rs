//! Provenance Blockchain metadata addresses: bech32 strings whose payload is a one-byte key
//! followed by the sixteen bytes of a uuid.

use crate::error::ContractError;
use bech32::{FromBase32, ToBase32};
use vstd::prelude::*;

verus! {

/// The key byte of a scope address.
pub const SCOPE_KEY: u8 = 0;
/// The key byte of a scope specification address.
pub const SCOPE_SPEC_KEY: u8 = 4;

/// Whether `bech32::decode` accepts `s` (separator, character set, case and checksum).
pub uninterp spec fn bech32_accepts(s: Seq<char>) -> bool;

/// What decoding `s` as bech32 and converting its five-bit groups back to bytes yields: the
/// lowercase human-readable part and the payload bytes; `None` when either step fails.
pub uninterp spec fn bech32_payload(s: Seq<char>) -> Option<(Seq<char>, Seq<u8>)>;

/// The bech32 (not bech32m) text whose human-readable part is `hrp` and whose payload is `data`,
/// regrouped into five-bit groups; `None` when the human-readable part is refused.
pub uninterp spec fn bech32_text(hrp: Seq<char>, data: Seq<u8>) -> Option<Seq<char>>;

/// The sixteen bytes that `Uuid::parse_str` reads from `s`, or `None` when it refuses `s`.
pub uninterp spec fn uuid_parse(s: Seq<char>) -> Option<Seq<u8>>;

/// Whether the text has no ASCII uppercase letter.
pub open spec fn no_ascii_uppercase(s: Seq<char>) -> bool {
    forall|i: int| 0 <= i < s.len() ==> !('A' <= #[trigger] s[i] <= 'Z')
}

/// The lowercase hexadecimal digit for `n` (below sixteen).
pub open spec fn hex_digit(n: int) -> char {
    if n < 10 {
        (('0' as int) + n) as char
    } else {
        (('a' as int) + n - 10) as char
    }
}

/// Bytes `i..16` of `b` as lowercase hex, with a hyphen after bytes 4, 6, 8 and 10.
pub open spec fn hyphenated_from(b: Seq<u8>, i: nat) -> Seq<char>
    decreases 16 - i,
{
    if i >= 16 {
        Seq::empty()
    } else {
        let pair = seq![hex_digit((b[i as int] / 16) as int), hex_digit((b[i as int] % 16) as int)];
        let sep = if i == 3 || i == 5 || i == 7 || i == 9 {
            seq!['-']
        } else {
            Seq::empty()
        };
        pair + sep + hyphenated_from(b, i + 1)
    }
}

/// The canonical text of a uuid: 8-4-4-4-12 lowercase hex digits.
pub open spec fn uuid_hyphenated(b: Seq<u8>) -> Seq<char> {
    hyphenated_from(b, 0)
}

/// Whether `s` is a uuid text in its canonical form: it parses, and the canonical text of what it
/// parses to is `s` itself.
pub open spec fn canonical_uuid(s: Seq<char>) -> bool {
    uuid_parse(s) matches Some(b) && uuid_hyphenated(b) == s
}

/// Checks `s` with `bech32::decode`, keeping only whether it succeeded.
#[verifier::external_body]
fn bech32_check(s: &str) -> (res: Result<(), bech32::Error>)
    ensures
        res is Ok <==> bech32_accepts(s@),
{
    bech32::decode(s)?;
    Ok(())
}

/// Decodes `s` with `bech32::decode` and converts the payload with `FromBase32` for `Vec<u8>`.
#[verifier::external_body]
fn bech32_decode_bytes(s: &str) -> (res: Result<(String, Vec<u8>), bech32::Error>)
    ensures
        res is Ok <==> bech32_payload(s@) is Some,
        res matches Ok((h, d)) ==> bech32_payload(s@) == Some((h@, d@)),
{
    let (hrp, data, _) = bech32::decode(s)?;
    Ok((hrp, Vec::<u8>::from_base32(&data)?))
}

/// Regroups `data` with `ToBase32` and encodes it with `bech32::encode` as `Variant::Bech32`.
/// Decoding the text gives back `hrp` and `data` when `hrp` has no uppercase letter, as
/// BIP-173 and the crate's `FromBase32` (which drops the zero padding) document.
#[verifier::external_body]
fn bech32_encode_bytes(hrp: &str, data: &[u8]) -> (res: Result<String, bech32::Error>)
    ensures
        res is Ok <==> bech32_text(hrp@, data@) is Some,
        res matches Ok(t) ==> bech32_text(hrp@, data@) == Some(t@),
        res matches Ok(t) ==> no_ascii_uppercase(hrp@) ==> bech32_payload(t@) == Some(
            (hrp@, data@),
        ),
{
    bech32::encode(hrp, data.to_base32(), bech32::Variant::Bech32)
}

/// Parses `s` with `Uuid::parse_str` and copies out its sixteen bytes.
#[verifier::external_body]
fn uuid_bytes(s: &str) -> (res: Result<Vec<u8>, uuid::Error>)
    ensures
        res is Ok <==> uuid_parse(s@) is Some,
        res matches Ok(b) ==> uuid_parse(s@) == Some(b@) && b@.len() == 16,
{
    Ok(uuid::Uuid::parse_str(s)?.as_bytes().to_vec())
}

/// Builds a uuid with `Uuid::from_slice`, which refuses any length but sixteen, and renders it
/// with `Display`, which writes the hyphenated lowercase form; that form parses back to the
/// same bytes.
#[verifier::external_body]
fn uuid_text(b: &[u8]) -> (res: Result<String, uuid::Error>)
    ensures
        res is Ok <==> b@.len() == 16,
        res matches Ok(t) ==> t@ == uuid_hyphenated(b@) && uuid_parse(t@) == Some(b@),
{
    Ok(uuid::Uuid::from_slice(b)?.to_string())
}

/// The payload of a metadata address: the key byte, then the uuid bytes.
pub open spec fn keyed(key: u8, uuid: Seq<u8>) -> Seq<u8> {
    seq![key] + uuid
}

/// The uuid bytes sit right after the key byte of a metadata address payload.
proof fn lemma_keyed_payload(key: u8, uuid: Seq<u8>)
    requires
        uuid.len() == 16,
    ensures
        keyed(key, uuid).len() == 17,
        keyed(key, uuid).subrange(1, 17) == uuid,
{
    assert(keyed(key, uuid).subrange(1, 17) =~= uuid);
}

/// The address text for the uuid text `uuid` under key `key` and prefix `hrp`.
pub open spec fn spec_uuid_to_address(key: u8, hrp: Seq<char>, uuid: Seq<char>) -> Option<Seq<char>> {
    match uuid_parse(uuid) {
        Some(b) => bech32_text(hrp, keyed(key, b)),
        None => None,
    }
}

/// The uuid text read from an address: bytes 1 to 17 of its payload, hyphenated.
pub open spec fn spec_address_to_uuid(address: Seq<char>) -> Option<Seq<char>> {
    match bech32_payload(address) {
        Some((_, d)) => if d.len() >= 17 {
            Some(uuid_hyphenated(d.subrange(1, 17)))
        } else {
            None
        },
        None => None,
    }
}

/// Confirms that `address` is a bech32 address and returns it unchanged.
pub fn bech32_string_to_addr(address: &str) -> (res: Result<String, ContractError>)
    ensures
        res is Ok <==> bech32_accepts(address@),
        res matches Ok(a) ==> a@ == address@,
        res matches Err(e) ==> e is Bech32Error,
{
    match bech32_check(address) {
        Ok(()) => Ok(address.to_owned()),
        Err(e) => Err(ContractError::Bech32Error(e)),
    }
}

/// Encodes the uuid text `uuid` as a metadata address with key byte `key` and prefix `hrp`.
fn uuid_to_address(key: u8, hrp: &str, uuid: &str) -> (res: Result<String, ContractError>)
    ensures
        res is Ok <==> spec_uuid_to_address(key, hrp@, uuid@) is Some,
        res matches Ok(a) ==> spec_uuid_to_address(key, hrp@, uuid@) == Some(a@),
        res matches Err(e) ==> (e is UuidError <==> uuid_parse(uuid@) is None),
        res matches Err(e) ==> e is UuidError || e is Bech32Error,
        res matches Ok(a) ==> no_ascii_uppercase(hrp@) ==> bech32_payload(a@) == Some(
            (hrp@, keyed(key, uuid_parse(uuid@)->0)),
        ),
        res is Ok ==> (uuid_parse(uuid@) matches Some(b) && b.len() == 16),
{
    let bytes = match uuid_bytes(uuid) {
        Ok(b) => b,
        Err(e) => return Err(ContractError::UuidError(e)),
    };
    let mut buffer: Vec<u8> = Vec::new();
    buffer.push(key);
    let mut i: usize = 0;
    while i < bytes.len()
        invariant
            bytes@.len() == 16,
            i <= bytes@.len(),
            buffer@ == seq![key] + bytes@.subrange(0, i as int),
        decreases bytes@.len() - i,
    {
        buffer.push(bytes[i]);
        i = i + 1;
        assert(buffer@ == seq![key] + bytes@.subrange(0, i as int));
    }
    assert(bytes@.subrange(0, 16) == bytes@);
    match bech32_encode_bytes(hrp, buffer.as_slice()) {
        Ok(a) => Ok(a),
        Err(e) => Err(ContractError::Bech32Error(e)),
    }
}

/// Reads the uuid text out of a metadata address: the sixteen payload bytes after the key byte.
/// A payload shorter than seventeen bytes is refused as an invalid address.
fn address_to_uuid(address: &str) -> (res: Result<String, ContractError>)
    ensures
        res is Ok <==> spec_address_to_uuid(address@) is Some,
        res matches Ok(u) ==> spec_address_to_uuid(address@) == Some(u@),
        res matches Err(e) ==> (e is Bech32Error <==> bech32_payload(address@) is None),
        res matches Err(e) ==> e is Bech32Error || e is InvalidAddress,
{
    let (_, bytes) = match bech32_decode_bytes(address) {
        Ok(p) => p,
        Err(e) => return Err(ContractError::Bech32Error(e)),
    };
    if bytes.len() < 17 {
        return Err(
            ContractError::InvalidAddress {
                address: address.to_owned(),
                explanation: "the address payload is too short to hold a uuid".to_owned(),
            },
        );
    }
    let mut uuid: Vec<u8> = Vec::new();
    let mut i: usize = 1;
    while i < 17
        invariant
            bytes@.len() >= 17,
            1 <= i <= 17,
            uuid@ == bytes@.subrange(1, i as int),
        decreases 17 - i,
    {
        uuid.push(bytes[i]);
        i = i + 1;
        assert(uuid@ == bytes@.subrange(1, i as int));
    }
    match uuid_text(uuid.as_slice()) {
        Ok(t) => Ok(t),
        Err(e) => Err(ContractError::UuidError(e)),
    }
}

/// The scope address (prefix `scope`, key 0) of the asset with uuid text `asset_uuid`.
pub fn asset_uuid_to_scope_address(asset_uuid: &str) -> (res: Result<String, ContractError>)
    ensures
        res is Ok <==> spec_uuid_to_address(SCOPE_KEY, "scope"@, asset_uuid@) is Some,
        res matches Ok(a) ==> spec_uuid_to_address(SCOPE_KEY, "scope"@, asset_uuid@) == Some(a@),
        res matches Err(e) ==> (e is UuidError <==> uuid_parse(asset_uuid@) is None),
        res matches Err(e) ==> e is UuidError || e is Bech32Error,
        res matches Ok(a) ==> spec_address_to_uuid(a@) == Some(
            uuid_hyphenated(uuid_parse(asset_uuid@)->0),
        ),
{
    let res = uuid_to_address(SCOPE_KEY, "scope", asset_uuid);
    proof {
        reveal_strlit("scope");
        if res is Ok {
            lemma_keyed_payload(SCOPE_KEY, uuid_parse(asset_uuid@)->0);
        }
    }
    res
}

/// The asset uuid text held in a scope address.
pub fn scope_address_to_asset_uuid(scope_address: &str) -> (res: Result<String, ContractError>)
    ensures
        res is Ok <==> spec_address_to_uuid(scope_address@) is Some,
        res matches Ok(u) ==> spec_address_to_uuid(scope_address@) == Some(u@),
        res matches Err(e) ==> e is Bech32Error || e is InvalidAddress,
        res matches Err(e) ==> (e is Bech32Error <==> bech32_payload(scope_address@) is None),
{
    address_to_uuid(scope_address)
}

/// The scope specification address (prefix `scopespec`, key 4) of the specification with uuid
/// text `scope_spec_uuid`.
pub fn scope_spec_uuid_to_scope_spec_address(scope_spec_uuid: &str) -> (res: Result<
    String,
    ContractError,
>)
    ensures
        res is Ok <==> spec_uuid_to_address(SCOPE_SPEC_KEY, "scopespec"@, scope_spec_uuid@) is Some,
        res matches Ok(a) ==> spec_uuid_to_address(SCOPE_SPEC_KEY, "scopespec"@, scope_spec_uuid@)
            == Some(a@),
        res matches Err(e) ==> e is UuidError || e is Bech32Error,
        res matches Ok(a) ==> spec_address_to_uuid(a@) == Some(
            uuid_hyphenated(uuid_parse(scope_spec_uuid@)->0),
        ),
{
    let res = uuid_to_address(SCOPE_SPEC_KEY, "scopespec", scope_spec_uuid);
    proof {
        reveal_strlit("scopespec");
        if res is Ok {
            lemma_keyed_payload(SCOPE_SPEC_KEY, uuid_parse(scope_spec_uuid@)->0);
        }
    }
    res
}

/// The scope specification uuid text held in a scope specification address.
pub fn scope_spec_address_to_scope_spec_uuid(scope_spec_address: &str) -> (res: Result<
    String,
    ContractError,
>)
    ensures
        res is Ok <==> spec_address_to_uuid(scope_spec_address@) is Some,
        res matches Ok(u) ==> spec_address_to_uuid(scope_spec_address@) == Some(u@),
        res matches Err(e) ==> e is Bech32Error || e is InvalidAddress,
{
    address_to_uuid(scope_spec_address)
}

} // verus!
