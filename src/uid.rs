//! Unique identifiers of ten bytes: five of seconds since the UNIX epoch
//! and five random ones, written as fourteen characters of URL-safe
//! base64 without padding.
use vstd::prelude::*;
use vstd::string::*;
use vstd::utf8::encode_utf8;

use base64::engine::general_purpose::URL_SAFE_NO_PAD;
use base64::engine::Engine;
use rand::rngs::OsRng;
use rand::RngCore;

use crate::column::ColumnKind;
use crate::data::{ColumnData, FromDataError, Text};

verus! {

/// base64's `DecodeError`, the error of a text that is no valid base64; it
/// is carried through as it is.
#[verifier::external_type_specification]
#[verifier::external_body]
pub struct ExDecodeError(base64::DecodeError);

/// The ten bytes of an identifier.
pub type IdBytes = [u8; 10];

/// The URL-safe base64 text, without padding, of `bytes`.
pub uninterp spec fn url_safe_b64(bytes: Seq<u8>) -> Seq<char>;

/// Relies on base64's `URL_SAFE_NO_PAD.encode`: the text is a function of
/// the bytes, and ten bytes take fourteen one-byte characters
/// (`encoded_len(10, false)`).
#[verifier::external_body]
fn encode_url_safe(bytes: &[u8; 10]) -> (r: String)
    ensures
        r@ == url_safe_b64(bytes@),
        encode_utf8(r@).len() == 14,
{
    URL_SAFE_NO_PAD.encode(bytes)
}

/// Relies on base64's `URL_SAFE_NO_PAD.decode_slice_unchecked`: fourteen
/// bytes of input decode to at most ten bytes, so the output fits; the text
/// of ten bytes decodes back to them; and since this engine takes neither
/// padding nor nonzero trailing bits, a text that decodes is the text of
/// what it decodes to.
#[verifier::external_body]
fn decode_url_safe(s: &str) -> (r: Result<IdBytes, base64::DecodeError>)
    requires
        encode_utf8(s@).len() == 14,
    ensures
        forall|b: IdBytes| s@ == url_safe_b64(b@) ==> r is Ok && r->Ok_0 == b,
        r is Ok ==> s@ == url_safe_b64(r->Ok_0@),
{
    let mut bytes = [0u8; 10];
    match URL_SAFE_NO_PAD.decode_slice_unchecked(s, &mut bytes) {
        Ok(_) => Ok(bytes),
        Err(e) => Err(e),
    }
}

/// Relies on rand's `OsRng::try_fill_bytes`: five bytes from the operating
/// system's random source, or `None` when it fails.
#[verifier::external_body]
fn random_tail() -> (r: Option<[u8; 5]>) {
    let mut bytes = [0u8; 5];
    match OsRng.try_fill_bytes(&mut bytes) {
        Ok(()) => Some(bytes),
        Err(_) => None,
    }
}

/// The seconds held by the first five bytes, big-endian.
pub open spec fn secs_of(b: Seq<u8>) -> u64 {
    ((b[0] as u64) << 32u64) | ((b[1] as u64) << 24u64) | ((b[2] as u64) << 16u64) | ((
    b[3] as u64) << 8u64) | (b[4] as u64)
}

/// A unique identifier of ten bytes.
#[derive(Debug, Clone, Copy, PartialEq, Eq, Hash)]
pub struct UniqueId(pub [u8; 10]);

impl UniqueId {
    /// An identifier for the time `now_secs`, in seconds since the epoch,
    /// whose last five bytes are random; `None` when no random bytes could
    /// be had. The time is kept modulo 2^40.
    pub fn new(now_secs: u64) -> (r: Option<Self>)
        ensures
            r matches Some(id) ==> secs_of(id.0@) == now_secs & 0xff_ffff_ffffu64,
    {
        match random_tail() {
            Some(tail) => Some(UniqueId::from_parts(now_secs, tail)),
            None => None,
        }
    }

    /// The identifier of seconds `secs` (modulo 2^40) and the bytes `tail`.
    pub fn from_parts(secs: u64, tail: [u8; 5]) -> (r: Self)
        ensures
            secs_of(r.0@) == secs & 0xff_ffff_ffffu64,
            r.0@.subrange(5, 10) == tail@,
    {
        let b0 = ((secs >> 32u64) & 0xffu64) as u8;
        let b1 = ((secs >> 24u64) & 0xffu64) as u8;
        let b2 = ((secs >> 16u64) & 0xffu64) as u8;
        let b3 = ((secs >> 8u64) & 0xffu64) as u8;
        let b4 = (secs & 0xffu64) as u8;
        let bytes = [b0, b1, b2, b3, b4, tail[0], tail[1], tail[2], tail[3], tail[4]];
        assert(((((secs >> 32u64) & 0xffu64) as u8 as u64) << 32u64) | ((((secs >> 24u64)
            & 0xffu64) as u8 as u64) << 24u64) | ((((secs >> 16u64) & 0xffu64) as u8 as u64)
            << 16u64) | ((((secs >> 8u64) & 0xffu64) as u8 as u64) << 8u64) | ((secs & 0xffu64)
            as u8 as u64) == secs & 0xff_ffff_ffffu64) by (bit_vector);
        assert(bytes@.subrange(5, 10) =~= tail@);
        UniqueId(bytes)
    }

    /// The identifier with the bytes `inner`.
    pub fn from_raw(inner: [u8; 10]) -> (r: Self)
        ensures
            r.0 == inner,
    {
        UniqueId(inner)
    }

    /// The identifier with the ten bytes of `slice`.
    pub fn from_slice_unchecked(slice: &[u8]) -> (r: Self)
        requires
            slice@.len() == 10,
        ensures
            r.0@ == slice@,
    {
        let mut bytes = [0u8; 10];
        let mut i: usize = 0;
        while i < 10
            invariant
                i <= 10,
                slice@.len() == 10,
                bytes@.len() == 10,
                forall|j: int| 0 <= j < i ==> bytes@[j] == slice@[j],
            decreases 10 - i,
        {
            bytes[i] = slice[i];
            i = i + 1;
        }
        assert(bytes@ =~= slice@);
        UniqueId(bytes)
    }

    /// The fourteen characters of URL-safe base64 that stand for the bytes.
    pub fn to_b64(&self) -> (r: String)
        ensures
            r@ == url_safe_b64(self.0@),
            encode_utf8(r@).len() == 14,
    {
        encode_url_safe(&self.0)
    }

    /// The identifier written as `b64`, which must be fourteen bytes long.
    pub fn parse_from_b64(b64: &str) -> (r: Result<Self, base64::DecodeError>)
        requires
            encode_utf8(b64@).len() == 14,
        ensures
            forall|id: UniqueId| b64@ == url_safe_b64(id.0@) ==> r == Ok::<
                UniqueId,
                base64::DecodeError,
            >(id),
            r matches Ok(id) ==> b64@ == url_safe_b64(id.0@),
    {
        match decode_url_safe(b64) {
            Ok(bytes) => Ok(UniqueId(bytes)),
            Err(e) => Err(e),
        }
    }

    /// The identifier written as `b64`, or `None` unless it is fourteen
    /// bytes of valid base64.
    pub fn try_parse(b64: &str) -> (r: Option<Self>)
        ensures
            encode_utf8(b64@).len() != 14 ==> r is None,
            encode_utf8(b64@).len() == 14 ==> forall|id: UniqueId|
                b64@ == url_safe_b64(id.0@) ==> r == Some(id),
            r matches Some(id) ==> b64@ == url_safe_b64(id.0@),
    {
        if b64.as_bytes().len() != 14 {
            return None;
        }
        match UniqueId::parse_from_b64(b64) {
            Ok(id) => Some(id),
            Err(_) => None,
        }
    }

    /// The ten bytes.
    pub fn from_bytes(bytes: [u8; 10]) -> (r: Self)
        ensures
            r.0 == bytes,
    {
        UniqueId(bytes)
    }

    /// The ten bytes.
    pub fn into_bytes(self) -> (r: [u8; 10])
        ensures
            r == self.0,
    {
        self.0
    }

    /// The seconds since the epoch that the first five bytes hold.
    pub fn since_unix_secs(&self) -> (r: u64)
        ensures
            r == secs_of(self.0@),
    {
        ((self.0[0] as u64) << 32u64) | ((self.0[1] as u64) << 24u64) | ((self.0[2] as u64)
            << 16u64) | ((self.0[3] as u64) << 8u64) | (self.0[4] as u64)
    }

    /// The ten bytes.
    pub fn as_slice(&self) -> (r: &[u8])
        ensures
            r@ == self.0@,
    {
        self.0.as_slice()
    }

    /// Identifiers are stored as fourteen characters of text.
    pub fn column_kind() -> (r: ColumnKind)
        ensures
            r == ColumnKind::FixedText(14),
    {
        ColumnKind::FixedText(14)
    }

    /// The identifier as text.
    pub fn to_data(&self) -> (r: ColumnData<'static>)
        ensures
            r matches ColumnData::Text(Text::Owned(s)) && s@ == url_safe_b64(self.0@)
                && encode_utf8(s@).len() == 14,
    {
        ColumnData::Text(Text::Owned(self.to_b64()))
    }

    /// The identifier that a text of fourteen bytes holds.
    pub fn from_data(data: ColumnData) -> (r: Result<Self, FromDataError>)
        ensures
            !(data matches ColumnData::Text(t) && encode_utf8(t@).len() == 14) ==> r == Err::<
                UniqueId,
                FromDataError,
            >(FromDataError::ExpectedType("char with 14 chars for unique id")),
            data is Text && encode_utf8(data->Text_0@).len() == 14 ==> forall|id: UniqueId|
                data->Text_0@ == url_safe_b64(id.0@) ==> r == Ok::<UniqueId, FromDataError>(id),
            r matches Ok(id) ==> data is Text && data->Text_0@ == url_safe_b64(id.0@),
            data is Text && encode_utf8(data->Text_0@).len() == 14 && !(exists|id: UniqueId|
                data->Text_0@ == url_safe_b64(id.0@)) ==> r matches Err(
                FromDataError::CustomString(_),
            ),
            r matches Err(e) ==> e is ExpectedType || e is CustomString,
    {
        match data {
            ColumnData::Text(t) => {
                if t.len() == 14 {
                    match UniqueId::parse_from_b64(t.as_str()) {
                        Ok(id) => Ok(id),
                        Err(_) => Err(
                            FromDataError::CustomString(String::from_str("uniqueid decode error")),
                        ),
                    }
                } else {
                    Err(FromDataError::ExpectedType("char with 14 chars for unique id"))
                }
            },
            _ => Err(FromDataError::ExpectedType("char with 14 chars for unique id")),
        }
    }
}

} // verus!
