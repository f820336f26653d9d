//! The authentication exchange: the fixed login request and the decoding of
//! the response payload.
//!
//! The request is constant — URL, headers and body are reproduced verbatim,
//! byte for byte, as the peer expects them. The response is JSON; every
//! field of the documented shape must decode, or the whole exchange counts
//! as failed. Decoding is done by the verified parser of `crate::json` and
//! is pinned exactly by `spec_decode`.

use vstd::prelude::*;
use vstd::string::StrSliceExecFns;
use vstd::string::StringSliceAdditionalSpecFns;

use crate::json::FieldValue;
use crate::json::FieldValueV;
use crate::json::Scalar;
use crate::json::ScalarV;
use crate::json::bytes_copy;
use crate::json::fields_view;
use crate::json::lookup_field;
use crate::json::lookup_scalar;
use crate::json::obj_view;
use crate::json::parse_document;
use crate::json::spec_document;
use crate::json::spec_lookup_field;
use crate::json::spec_lookup_scalar;

verus! {

/// The address of the login endpoint.
pub open spec fn spec_request_url() -> Seq<char> {
    "https://auth-platform.apis-staging.devr.com/api/v1/auth/login"@
}

/// The address the request is posted to.
pub fn request_url() -> (r: &'static str)
    ensures
        r@ == spec_request_url(),
{
    "https://auth-platform.apis-staging.devr.com/api/v1/auth/login"
}

/// The request body, byte for byte.
pub open spec fn spec_request_body() -> Seq<char> {
    "\n                {\n                    \"username\": \"user1@devr.com\",\n                    \"password\": \"123456\",\n                    \"excelLicenseId\": \"000-000-000-001\",\n                    \"role\": \"PRODUCER\"\n                }\n            "@
}

/// The JSON body posted on every dispatch, in the exact literal layout the
/// peer expects.
pub fn request_body() -> (r: &'static str)
    ensures
        r@ == spec_request_body(),
{
    "\n                {\n                    \"username\": \"user1@devr.com\",\n                    \"password\": \"123456\",\n                    \"excelLicenseId\": \"000-000-000-001\",\n                    \"role\": \"PRODUCER\"\n                }\n            "
}

/// Value of the request's `accept` header.
pub fn header_accept() -> (r: &'static str)
    ensures
        r@ == "*/*"@,
{
    "*/*"
}

/// Value of the request's `Content-Type` header.
pub fn header_content_type() -> (r: &'static str)
    ensures
        r@ == "application/json"@,
{
    "application/json"
}

/// The `data` object of a successful response.
pub struct AccessTokenData {
    pub access_token: Vec<u8>,
    pub refresh_token: Vec<u8>,
    pub role: Vec<u8>,
    pub consumer_id: Option<u32>,
    pub producer_id: u32,
}

/// Mathematical image of `AccessTokenData`.
pub struct AccessTokenDataV {
    pub access_token: Seq<u8>,
    pub refresh_token: Seq<u8>,
    pub role: Seq<u8>,
    pub consumer_id: Option<u32>,
    pub producer_id: u32,
}

impl View for AccessTokenData {
    type V = AccessTokenDataV;

    open spec fn view(&self) -> AccessTokenDataV {
        AccessTokenDataV {
            access_token: self.access_token@,
            refresh_token: self.refresh_token@,
            role: self.role@,
            consumer_id: self.consumer_id,
            producer_id: self.producer_id,
        }
    }
}

/// The `metadata` object of a successful response.
pub struct Metadata {
    pub app_name: Vec<u8>,
    pub version: Vec<u8>,
    pub timestamp: Vec<u8>,
}

/// Mathematical image of `Metadata`.
pub struct MetadataV {
    pub app_name: Seq<u8>,
    pub version: Seq<u8>,
    pub timestamp: Seq<u8>,
}

impl View for Metadata {
    type V = MetadataV;

    open spec fn view(&self) -> MetadataV {
        MetadataV {
            app_name: self.app_name@,
            version: self.version@,
            timestamp: self.timestamp@,
        }
    }
}

/// A fully decoded response payload.
pub struct AccessTokenResponse {
    pub code: u32,
    pub data: AccessTokenData,
    pub metadata: Metadata,
}

/// Mathematical image of `AccessTokenResponse`.
pub struct AccessTokenResponseV {
    pub code: u32,
    pub data: AccessTokenDataV,
    pub metadata: MetadataV,
}

impl View for AccessTokenResponse {
    type V = AccessTokenResponseV;

    open spec fn view(&self) -> AccessTokenResponseV {
        AccessTokenResponseV { code: self.code, data: self.data@, metadata: self.metadata@ }
    }
}

/// The `data` object a list of scalar fields denotes: all three token
/// strings present, `consumerId` an integer or `null`, `producerId` an
/// integer, each integer fitting 32 bits — otherwise nothing.
pub open spec fn spec_extract_data(fields: Seq<(Seq<u8>, ScalarV)>) -> Option<AccessTokenDataV> {
    match (
        spec_lookup_scalar(fields, "accessToken".spec_bytes()),
        spec_lookup_scalar(fields, "refreshToken".spec_bytes()),
        spec_lookup_scalar(fields, "role".spec_bytes()),
        spec_lookup_scalar(fields, "consumerId".spec_bytes()),
        spec_lookup_scalar(fields, "producerId".spec_bytes()),
    ) {
        (
            Some(ScalarV::Text(at)),
            Some(ScalarV::Text(rt)),
            Some(ScalarV::Text(rl)),
            Some(cid),
            Some(ScalarV::UInt(pid)),
        ) => {
            if pid > u32::MAX {
                None
            } else {
                match cid {
                    ScalarV::Null => Some(
                        AccessTokenDataV {
                            access_token: at,
                            refresh_token: rt,
                            role: rl,
                            consumer_id: None,
                            producer_id: pid as u32,
                        },
                    ),
                    ScalarV::UInt(c) => {
                        if c > u32::MAX {
                            None
                        } else {
                            Some(
                                AccessTokenDataV {
                                    access_token: at,
                                    refresh_token: rt,
                                    role: rl,
                                    consumer_id: Some(c as u32),
                                    producer_id: pid as u32,
                                },
                            )
                        }
                    },
                    _ => None,
                }
            }
        },
        _ => None,
    }
}

/// The `metadata` object a list of scalar fields denotes: all three strings
/// present — otherwise nothing.
pub open spec fn spec_extract_meta(fields: Seq<(Seq<u8>, ScalarV)>) -> Option<MetadataV> {
    match (
        spec_lookup_scalar(fields, "appName".spec_bytes()),
        spec_lookup_scalar(fields, "version".spec_bytes()),
        spec_lookup_scalar(fields, "timestamp".spec_bytes()),
    ) {
        (Some(ScalarV::Text(an)), Some(ScalarV::Text(vn)), Some(ScalarV::Text(ts))) => Some(
            MetadataV { app_name: an, version: vn, timestamp: ts },
        ),
        _ => None,
    }
}

/// The response a parsed top-level object denotes: an integer `code`
/// fitting 32 bits and well-formed `data` and `metadata` objects —
/// otherwise nothing.
pub open spec fn spec_extract(obj: Seq<(Seq<u8>, FieldValueV)>) -> Option<AccessTokenResponseV> {
    match (
        spec_lookup_field(obj, "code".spec_bytes()),
        spec_lookup_field(obj, "data".spec_bytes()),
        spec_lookup_field(obj, "metadata".spec_bytes()),
    ) {
        (
            Some(FieldValueV::Prim(ScalarV::UInt(code))),
            Some(FieldValueV::Obj(data)),
            Some(FieldValueV::Obj(meta)),
        ) => {
            if code > u32::MAX {
                None
            } else {
                match (spec_extract_data(data), spec_extract_meta(meta)) {
                    (Some(d), Some(m)) => Some(
                        AccessTokenResponseV { code: code as u32, data: d, metadata: m },
                    ),
                    _ => None,
                }
            }
        },
        _ => None,
    }
}

/// The response a raw body denotes, if it parses and has the documented
/// shape.
pub open spec fn spec_decode(s: Seq<u8>) -> Option<AccessTokenResponseV> {
    match spec_document(s) {
        Some(obj) => spec_extract(obj),
        None => None,
    }
}

/// Decode the `data` object. Returns exactly what the fields denote.
pub fn extract_data(fields: &Vec<(Vec<u8>, Scalar)>) -> (r: Option<AccessTokenData>)
    ensures
        match r {
            Some(d) => spec_extract_data(fields_view(fields@)) == Some(d@),
            None => spec_extract_data(fields_view(fields@)) is None,
        },
{
    let key_at = "accessToken".as_bytes_vec();
    let key_rt = "refreshToken".as_bytes_vec();
    let key_rl = "role".as_bytes_vec();
    let key_cid = "consumerId".as_bytes_vec();
    let key_pid = "producerId".as_bytes_vec();
    let at: Vec<u8> = match lookup_scalar(fields, &key_at, 0) {
        Some(sc) => match sc {
            Scalar::Text(t) => bytes_copy(t),
            _ => {
                return None;
            },
        },
        None => {
            return None;
        },
    };
    let rt: Vec<u8> = match lookup_scalar(fields, &key_rt, 0) {
        Some(sc) => match sc {
            Scalar::Text(t) => bytes_copy(t),
            _ => {
                return None;
            },
        },
        None => {
            return None;
        },
    };
    let rl: Vec<u8> = match lookup_scalar(fields, &key_rl, 0) {
        Some(sc) => match sc {
            Scalar::Text(t) => bytes_copy(t),
            _ => {
                return None;
            },
        },
        None => {
            return None;
        },
    };
    let pid: u32 = match lookup_scalar(fields, &key_pid, 0) {
        Some(sc) => match sc {
            Scalar::UInt(n) => {
                if *n > u32::MAX as u64 {
                    return None;
                } else {
                    *n as u32
                }
            },
            _ => {
                return None;
            },
        },
        None => {
            return None;
        },
    };
    let cid: Option<u32> = match lookup_scalar(fields, &key_cid, 0) {
        Some(sc) => match sc {
            Scalar::Null => None,
            Scalar::UInt(c) => {
                if *c > u32::MAX as u64 {
                    return None;
                } else {
                    Some(*c as u32)
                }
            },
            _ => {
                return None;
            },
        },
        None => {
            return None;
        },
    };
    Some(
        AccessTokenData {
            access_token: at,
            refresh_token: rt,
            role: rl,
            consumer_id: cid,
            producer_id: pid,
        },
    )
}

/// Decode the `metadata` object. Returns exactly what the fields denote.
pub fn extract_meta(fields: &Vec<(Vec<u8>, Scalar)>) -> (r: Option<Metadata>)
    ensures
        match r {
            Some(m) => spec_extract_meta(fields_view(fields@)) == Some(m@),
            None => spec_extract_meta(fields_view(fields@)) is None,
        },
{
    let key_an = "appName".as_bytes_vec();
    let key_vn = "version".as_bytes_vec();
    let key_ts = "timestamp".as_bytes_vec();
    let an: Vec<u8> = match lookup_scalar(fields, &key_an, 0) {
        Some(sc) => match sc {
            Scalar::Text(t) => bytes_copy(t),
            _ => {
                return None;
            },
        },
        None => {
            return None;
        },
    };
    let vn: Vec<u8> = match lookup_scalar(fields, &key_vn, 0) {
        Some(sc) => match sc {
            Scalar::Text(t) => bytes_copy(t),
            _ => {
                return None;
            },
        },
        None => {
            return None;
        },
    };
    let ts: Vec<u8> = match lookup_scalar(fields, &key_ts, 0) {
        Some(sc) => match sc {
            Scalar::Text(t) => bytes_copy(t),
            _ => {
                return None;
            },
        },
        None => {
            return None;
        },
    };
    Some(Metadata { app_name: an, version: vn, timestamp: ts })
}

/// Decode a parsed top-level object. Returns exactly what it denotes.
pub fn extract_response(obj: &Vec<(Vec<u8>, FieldValue)>) -> (r: Option<AccessTokenResponse>)
    ensures
        match r {
            Some(v) => spec_extract(obj_view(obj@)) == Some(v@),
            None => spec_extract(obj_view(obj@)) is None,
        },
{
    let key_code = "code".as_bytes_vec();
    let key_data = "data".as_bytes_vec();
    let key_meta = "metadata".as_bytes_vec();
    let code: u32 = match lookup_field(obj, &key_code, 0) {
        Some(fv) => match fv {
            FieldValue::Prim(sc) => match sc {
                Scalar::UInt(n) => {
                    if *n > u32::MAX as u64 {
                        return None;
                    } else {
                        *n as u32
                    }
                },
                _ => {
                    return None;
                },
            },
            _ => {
                return None;
            },
        },
        None => {
            return None;
        },
    };
    let data: AccessTokenData = match lookup_field(obj, &key_data, 0) {
        Some(fv) => match fv {
            FieldValue::Obj(fields) => match extract_data(fields) {
                Some(d) => d,
                None => {
                    return None;
                },
            },
            _ => {
                return None;
            },
        },
        None => {
            return None;
        },
    };
    let meta: Metadata = match lookup_field(obj, &key_meta, 0) {
        Some(fv) => match fv {
            FieldValue::Obj(fields) => match extract_meta(fields) {
                Some(m) => m,
                None => {
                    return None;
                },
            },
            _ => {
                return None;
            },
        },
        None => {
            return None;
        },
    };
    Some(AccessTokenResponse { code, data, metadata: meta })
}

/// Decode a raw response body. Succeeds, with exactly the denoted field
/// values, if and only if the body parses in the accepted JSON subset and
/// every field of the documented shape is present and well-typed.
pub fn decode_response(s: &Vec<u8>) -> (r: Option<AccessTokenResponse>)
    ensures
        match r {
            Some(v) => spec_decode(s@) == Some(v@),
            None => spec_decode(s@) is None,
        },
{
    match parse_document(s) {
        Some(obj) => extract_response(&obj),
        None => None,
    }
}

/// How one request-response exchange ended.
pub enum ExchangeOutcome {
    /// 2xx status and a fully decoded payload.
    Success(AccessTokenResponse),
    /// Transport failure or non-2xx status; the body is not consulted.
    HttpFailure,
    /// 2xx status but a payload in which some documented field is missing,
    /// ill-typed or unparsable.
    DecodeFailure,
}

/// Mathematical image of `ExchangeOutcome`.
pub enum ExchangeOutcomeV {
    Success(AccessTokenResponseV),
    HttpFailure,
    DecodeFailure,
}

impl View for ExchangeOutcome {
    type V = ExchangeOutcomeV;

    open spec fn view(&self) -> ExchangeOutcomeV {
        match self {
            ExchangeOutcome::Success(v) => ExchangeOutcomeV::Success(v@),
            ExchangeOutcome::HttpFailure => ExchangeOutcomeV::HttpFailure,
            ExchangeOutcome::DecodeFailure => ExchangeOutcomeV::DecodeFailure,
        }
    }
}

/// What an exchange with the given status and body amounts to.
pub open spec fn spec_outcome(status_ok: bool, body: Seq<u8>) -> ExchangeOutcomeV {
    if !status_ok {
        ExchangeOutcomeV::HttpFailure
    } else {
        match spec_decode(body) {
            Some(v) => ExchangeOutcomeV::Success(v),
            None => ExchangeOutcomeV::DecodeFailure,
        }
    }
}

/// Judge one exchange: a failure report or the decoded payload, exactly as
/// `spec_outcome` says. Failures are values to be reported — they never
/// propagate past the trigger gate's boundary.
pub fn exchange_outcome(status_ok: bool, body: &Vec<u8>) -> (r: ExchangeOutcome)
    ensures
        r@ == spec_outcome(status_ok, body@),
{
    if !status_ok {
        ExchangeOutcome::HttpFailure
    } else {
        match decode_response(body) {
            Some(v) => ExchangeOutcome::Success(v),
            None => ExchangeOutcome::DecodeFailure,
        }
    }
}

} // verus!
