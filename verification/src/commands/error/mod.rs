//! SPDM error codes and the fixed fields of `ERROR` responses.
use vstd::prelude::*;

use crate::codec::{le_to_u32, le_u32, CodecError, CodecResult, MessageBuf};

pub mod request;

verus! {

/// SPDM error codes.
#[derive(Debug, PartialEq, Eq, Clone, Copy, Structural)]
pub enum ErrorCode {
    InvalidRequest,
    Busy,
    UnexpectedRequest,
    Unspecified,
    DecryptError,
    UnsupportedRequest,
    RequestInFlight,
    InvalidResponseCode,
    SessionLimitExceeded,
    SessionRequired,
    ResetRequired,
    ResponseTooLarge,
    RequestTooLarge,
    LargeResponse,
    MessageLost,
    InvalidPolicy,
    DataTooLarge,
    VersionMismatch,
    ResponseNotReady,
    RequestResynch,
    OperationFailed,
    NoPendingRequests,
    VendorDefined,
}

/// The wire byte of an error code.
pub open spec fn error_code_byte(c: ErrorCode) -> u8 {
    match c {
        ErrorCode::InvalidRequest => 0x01,
        ErrorCode::Busy => 0x03,
        ErrorCode::UnexpectedRequest => 0x04,
        ErrorCode::Unspecified => 0x05,
        ErrorCode::DecryptError => 0x06,
        ErrorCode::UnsupportedRequest => 0x07,
        ErrorCode::RequestInFlight => 0x08,
        ErrorCode::InvalidResponseCode => 0x09,
        ErrorCode::SessionLimitExceeded => 0x0A,
        ErrorCode::SessionRequired => 0x0B,
        ErrorCode::ResetRequired => 0x0C,
        ErrorCode::ResponseTooLarge => 0x0D,
        ErrorCode::RequestTooLarge => 0x0E,
        ErrorCode::LargeResponse => 0x0F,
        ErrorCode::MessageLost => 0x10,
        ErrorCode::InvalidPolicy => 0x11,
        ErrorCode::DataTooLarge => 0x12,
        ErrorCode::VersionMismatch => 0x41,
        ErrorCode::ResponseNotReady => 0x42,
        ErrorCode::RequestResynch => 0x43,
        ErrorCode::OperationFailed => 0x44,
        ErrorCode::NoPendingRequests => 0x45,
        ErrorCode::VendorDefined => 0xFF,
    }
}

/// The error code a byte denotes, if any.
pub open spec fn error_code_from_byte(b: u8) -> Option<ErrorCode> {
    if b == 0x01 { Some(ErrorCode::InvalidRequest) }
    else if b == 0x03 { Some(ErrorCode::Busy) }
    else if b == 0x04 { Some(ErrorCode::UnexpectedRequest) }
    else if b == 0x05 { Some(ErrorCode::Unspecified) }
    else if b == 0x06 { Some(ErrorCode::DecryptError) }
    else if b == 0x07 { Some(ErrorCode::UnsupportedRequest) }
    else if b == 0x08 { Some(ErrorCode::RequestInFlight) }
    else if b == 0x09 { Some(ErrorCode::InvalidResponseCode) }
    else if b == 0x0A { Some(ErrorCode::SessionLimitExceeded) }
    else if b == 0x0B { Some(ErrorCode::SessionRequired) }
    else if b == 0x0C { Some(ErrorCode::ResetRequired) }
    else if b == 0x0D { Some(ErrorCode::ResponseTooLarge) }
    else if b == 0x0E { Some(ErrorCode::RequestTooLarge) }
    else if b == 0x0F { Some(ErrorCode::LargeResponse) }
    else if b == 0x10 { Some(ErrorCode::MessageLost) }
    else if b == 0x11 { Some(ErrorCode::InvalidPolicy) }
    else if b == 0x12 { Some(ErrorCode::DataTooLarge) }
    else if b == 0x41 { Some(ErrorCode::VersionMismatch) }
    else if b == 0x42 { Some(ErrorCode::ResponseNotReady) }
    else if b == 0x43 { Some(ErrorCode::RequestResynch) }
    else if b == 0x44 { Some(ErrorCode::OperationFailed) }
    else if b == 0x45 { Some(ErrorCode::NoPendingRequests) }
    else if b == 0xFF { Some(ErrorCode::VendorDefined) }
    else { None }
}

/// The wire byte of each error code, as the protocol assigns it.
pub proof fn law_error_code_wire_bytes()
    ensures
        error_code_byte(ErrorCode::InvalidRequest) == 0x01,
        error_code_byte(ErrorCode::Busy) == 0x03,
        error_code_byte(ErrorCode::UnexpectedRequest) == 0x04,
        error_code_byte(ErrorCode::Unspecified) == 0x05,
        error_code_byte(ErrorCode::DecryptError) == 0x06,
        error_code_byte(ErrorCode::UnsupportedRequest) == 0x07,
        error_code_byte(ErrorCode::RequestInFlight) == 0x08,
        error_code_byte(ErrorCode::InvalidResponseCode) == 0x09,
        error_code_byte(ErrorCode::SessionLimitExceeded) == 0x0A,
        error_code_byte(ErrorCode::SessionRequired) == 0x0B,
        error_code_byte(ErrorCode::ResetRequired) == 0x0C,
        error_code_byte(ErrorCode::ResponseTooLarge) == 0x0D,
        error_code_byte(ErrorCode::RequestTooLarge) == 0x0E,
        error_code_byte(ErrorCode::LargeResponse) == 0x0F,
        error_code_byte(ErrorCode::MessageLost) == 0x10,
        error_code_byte(ErrorCode::InvalidPolicy) == 0x11,
        error_code_byte(ErrorCode::DataTooLarge) == 0x12,
        error_code_byte(ErrorCode::VersionMismatch) == 0x41,
        error_code_byte(ErrorCode::ResponseNotReady) == 0x42,
        error_code_byte(ErrorCode::RequestResynch) == 0x43,
        error_code_byte(ErrorCode::OperationFailed) == 0x44,
        error_code_byte(ErrorCode::NoPendingRequests) == 0x45,
        error_code_byte(ErrorCode::VendorDefined) == 0xFF,
{
}

/// The bytes that name error codes are exactly those the protocol assigns
/// (0x01, 0x03 to 0x12, 0x41 to 0x45, 0xFF), and each names the code whose
/// wire byte it is; e.g. 0x0D is `ResponseTooLarge` and 0x0E `RequestTooLarge`.
pub proof fn law_error_code_bytes_decode(b: u8)
    ensures
        error_code_from_byte(b) is Some <==> (b == 0x01 || (0x03 <= b <= 0x12) || (0x41 <= b
            <= 0x45) || b == 0xFF),
        error_code_from_byte(0x0D) == Some(ErrorCode::ResponseTooLarge),
        error_code_from_byte(0x0E) == Some(ErrorCode::RequestTooLarge),
        error_code_from_byte(b) matches Some(c) ==> error_code_byte(c) == b,
{
}

impl ErrorCode {
    pub fn to_u8(self) -> (r: u8)
        ensures
            r == error_code_byte(self),
    {
        match self {
            ErrorCode::InvalidRequest => 0x01,
            ErrorCode::Busy => 0x03,
            ErrorCode::UnexpectedRequest => 0x04,
            ErrorCode::Unspecified => 0x05,
            ErrorCode::DecryptError => 0x06,
            ErrorCode::UnsupportedRequest => 0x07,
            ErrorCode::RequestInFlight => 0x08,
            ErrorCode::InvalidResponseCode => 0x09,
            ErrorCode::SessionLimitExceeded => 0x0A,
            ErrorCode::SessionRequired => 0x0B,
            ErrorCode::ResetRequired => 0x0C,
            ErrorCode::ResponseTooLarge => 0x0D,
            ErrorCode::RequestTooLarge => 0x0E,
            ErrorCode::LargeResponse => 0x0F,
            ErrorCode::MessageLost => 0x10,
            ErrorCode::InvalidPolicy => 0x11,
            ErrorCode::DataTooLarge => 0x12,
            ErrorCode::VersionMismatch => 0x41,
            ErrorCode::ResponseNotReady => 0x42,
            ErrorCode::RequestResynch => 0x43,
            ErrorCode::OperationFailed => 0x44,
            ErrorCode::NoPendingRequests => 0x45,
            ErrorCode::VendorDefined => 0xFF,
        }
    }

    /// Decodes an error code byte.
    pub fn try_from_u8(value: u8) -> (r: Result<ErrorCode, ()>)
        ensures
            r == (match error_code_from_byte(value) {
                Some(c) => Ok(c),
                None => Err(()),
            }),
    {
        match value {
            0x01 => Ok(ErrorCode::InvalidRequest),
            0x03 => Ok(ErrorCode::Busy),
            0x04 => Ok(ErrorCode::UnexpectedRequest),
            0x05 => Ok(ErrorCode::Unspecified),
            0x06 => Ok(ErrorCode::DecryptError),
            0x07 => Ok(ErrorCode::UnsupportedRequest),
            0x08 => Ok(ErrorCode::RequestInFlight),
            0x09 => Ok(ErrorCode::InvalidResponseCode),
            0x0A => Ok(ErrorCode::SessionLimitExceeded),
            0x0B => Ok(ErrorCode::SessionRequired),
            0x0C => Ok(ErrorCode::ResetRequired),
            0x0D => Ok(ErrorCode::ResponseTooLarge),
            0x0E => Ok(ErrorCode::RequestTooLarge),
            0x0F => Ok(ErrorCode::LargeResponse),
            0x10 => Ok(ErrorCode::MessageLost),
            0x11 => Ok(ErrorCode::InvalidPolicy),
            0x12 => Ok(ErrorCode::DataTooLarge),
            0x41 => Ok(ErrorCode::VersionMismatch),
            0x42 => Ok(ErrorCode::ResponseNotReady),
            0x43 => Ok(ErrorCode::RequestResynch),
            0x44 => Ok(ErrorCode::OperationFailed),
            0x45 => Ok(ErrorCode::NoPendingRequests),
            0xFF => Ok(ErrorCode::VendorDefined),
            _ => Err(()),
        }
    }
}

impl From<ErrorCode> for u8 {
    fn from(code: ErrorCode) -> (r: u8) {
        code.to_u8()
    }
}

impl vstd::std_specs::convert::FromSpecImpl<ErrorCode> for u8 {
    open spec fn obeys_from_spec() -> bool {
        true
    }

    open spec fn from_spec(code: ErrorCode) -> u8 {
        error_code_byte(code)
    }
}

impl TryFrom<u8> for ErrorCode {
    type Error = ();

    fn try_from(value: u8) -> (r: Result<ErrorCode, ()>) {
        ErrorCode::try_from_u8(value)
    }
}

impl vstd::std_specs::convert::TryFromSpecImpl<u8> for ErrorCode {
    open spec fn obeys_try_from_spec() -> bool {
        true
    }

    open spec fn try_from_spec(value: u8) -> Result<ErrorCode, ()> {
        match error_code_from_byte(value) {
            Some(c) => Ok(c),
            None => Err(()),
        }
    }
}

pub type ErrorData = u8;

pub type LargeResponseHandle = u8;

/// The fixed fields of an `ERROR` response (`Param1`, `Param2`). It may be
/// followed by `ExtendedErrorData`, which is left in the buffer.
#[derive(Debug, Clone, Copy)]
pub struct ErrorResponse {
    /// param1
    error_code: u8,
    /// param2
    error_data: ErrorData,
}

impl View for ErrorResponse {
    /// (error code byte, error data)
    type V = (u8, u8);

    closed spec fn view(&self) -> (u8, u8) {
        (self.error_code, self.error_data)
    }
}

/// The wire bytes of an error response's fixed fields.
pub open spec fn error_response_bytes(e: (u8, u8)) -> Seq<u8> {
    seq![e.0, e.1]
}

impl ErrorResponse {
    pub fn new(error_code: ErrorCode, error_data: ErrorData) -> (r: ErrorResponse)
        ensures
            r@ == (error_code_byte(error_code), error_data),
    {
        ErrorResponse { error_code: error_code.into(), error_data }
    }

    pub fn error_code(&self) -> (r: u8)
        ensures
            r == self@.0,
    {
        self.error_code
    }

    pub fn error_data(&self) -> (r: u8)
        ensures
            r == self@.1,
    {
        self.error_data
    }

    pub fn encode(&self, buf: &mut MessageBuf) -> (r: CodecResult<usize>)
        ensures
            old(buf)@.wf(),
            final(buf)@.wf(),
            old(buf)@.fits(2) ==> r == Ok::<usize, CodecError>(2) && final(buf)@ == old(buf)@.encoded(
                error_response_bytes(self@),
            ),
            !old(buf)@.fits(2) ==> r == Err::<usize, CodecError>(CodecError::BufferTooSmall)
                && final(buf)@ == old(buf)@,
    {
        let bytes = [self.error_code, self.error_data];
        proof { assert(bytes@ =~= error_response_bytes(self@)); }
        buf.encode_bytes(&bytes)
    }

    pub fn decode(buf: &mut MessageBuf) -> (r: CodecResult<ErrorResponse>)
        ensures
            old(buf)@.wf(),
            final(buf)@.wf(),
            2 <= old(buf)@.data_len() ==> (r matches Ok(e) && error_response_bytes(e@)
                == old(buf)@.bytes.subrange(old(buf)@.data, old(buf)@.data + 2) && final(buf)@
                == old(buf)@.pulled(2)),
            2 > old(buf)@.data_len() ==> r == Err::<ErrorResponse, CodecError>(
                CodecError::BufferTooSmall,
            ) && final(buf)@ == old(buf)@,
    {
        let v = match buf.decode_bytes(2) {
            Ok(v) => v,
            Err(e) => return Err(e),
        };
        let e = ErrorResponse { error_code: v[0], error_data: v[1] };
        proof { assert(error_response_bytes(e@) =~= v@); }
        Ok(e)
    }
}

/// Extended error data of `ResponseNotReady`.
#[derive(Debug, Clone, Copy)]
pub struct ResponseNotReadyData {
    /// The exponent (base-2 logarithm) of the time in µs after which the
    /// Responder can provide a successful completion response.
    rdt_exponent: u8,
    /// The request code that triggered this response.
    request_code: u8,
    /// The opaque handle that the Requester shall pass in with the
    /// `RESPOND_IF_READY` request message.
    token: u8,
    /// The multiplier used to compute WT Max in µs.
    rdtm: u8,
}

impl View for ResponseNotReadyData {
    /// (rdt exponent, request code, token, rdtm)
    type V = (u8, u8, u8, u8);

    closed spec fn view(&self) -> (u8, u8, u8, u8) {
        (self.rdt_exponent, self.request_code, self.token, self.rdtm)
    }
}

/// The wire bytes of `ResponseNotReady` extended data.
pub open spec fn response_not_ready_bytes(d: (u8, u8, u8, u8)) -> Seq<u8> {
    seq![d.0, d.1, d.2, d.3]
}

impl ResponseNotReadyData {
    pub fn rdt_exponent(&self) -> (r: u8)
        ensures
            r == self@.0,
    {
        self.rdt_exponent
    }

    pub fn request_code(&self) -> (r: u8)
        ensures
            r == self@.1,
    {
        self.request_code
    }

    pub fn token(&self) -> (r: u8)
        ensures
            r == self@.2,
    {
        self.token
    }

    pub fn rdtm(&self) -> (r: u8)
        ensures
            r == self@.3,
    {
        self.rdtm
    }

    pub fn decode(buf: &mut MessageBuf) -> (r: CodecResult<ResponseNotReadyData>)
        ensures
            old(buf)@.wf(),
            final(buf)@.wf(),
            4 <= old(buf)@.data_len() ==> (r matches Ok(d) && response_not_ready_bytes(d@)
                == old(buf)@.bytes.subrange(old(buf)@.data, old(buf)@.data + 4) && final(buf)@
                == old(buf)@.pulled(4)),
            4 > old(buf)@.data_len() ==> r == Err::<ResponseNotReadyData, CodecError>(
                CodecError::BufferTooSmall,
            ) && final(buf)@ == old(buf)@,
    {
        let v = match buf.decode_bytes(4) {
            Ok(v) => v,
            Err(e) => return Err(e),
        };
        let d = ResponseNotReadyData { rdt_exponent: v[0], request_code: v[1], token: v[2], rdtm: v[3] };
        proof { assert(response_not_ready_bytes(d@) =~= v@); }
        Ok(d)
    }
}

/// Extended error data of `LargeResponse`.
#[derive(Debug, Clone, Copy)]
pub struct LargeResponseData {
    /// A unique value that identifies the Large SPDM Response; the same value
    /// for all chunks of the same large SPDM message.
    handle: LargeResponseHandle,
}

impl View for LargeResponseData {
    type V = u8;

    closed spec fn view(&self) -> u8 {
        self.handle
    }
}

impl LargeResponseData {
    /// Return the Large Response Handle.
    pub fn handle(&self) -> (r: LargeResponseHandle)
        ensures
            r == self@,
    {
        self.handle
    }

    pub fn decode(buf: &mut MessageBuf) -> (r: CodecResult<LargeResponseData>)
        ensures
            old(buf)@.wf(),
            final(buf)@.wf(),
            1 <= old(buf)@.data_len() ==> (r matches Ok(d) && d@ == old(buf)@.bytes[old(buf)@.data]
                && final(buf)@ == old(buf)@.pulled(1)),
            1 > old(buf)@.data_len() ==> r == Err::<LargeResponseData, CodecError>(
                CodecError::BufferTooSmall,
            ) && final(buf)@ == old(buf)@,
    {
        let v = match buf.decode_bytes(1) {
            Ok(v) => v,
            Err(e) => return Err(e),
        };
        Ok(LargeResponseData { handle: v[0] })
    }
}

/// Extended error data of `ResponseTooLarge` (and of `DataTooLarge`).
#[derive(Debug, Clone, Copy)]
pub struct ResponseTooLargeData {
    /// The size of the actual response.
    actual_size: u32,
}

impl View for ResponseTooLargeData {
    type V = u32;

    closed spec fn view(&self) -> u32 {
        self.actual_size
    }
}

impl ResponseTooLargeData {
    /// Return the actual size.
    pub fn actual_size(&self) -> (r: u32)
        ensures
            r == self@,
    {
        self.actual_size
    }

    pub fn decode(buf: &mut MessageBuf) -> (r: CodecResult<ResponseTooLargeData>)
        ensures
            old(buf)@.wf(),
            final(buf)@.wf(),
            4 <= old(buf)@.data_len() ==> (r matches Ok(d) && d@ == le_u32(
                old(buf)@.bytes.subrange(old(buf)@.data, old(buf)@.data + 4),
            ) && final(buf)@ == old(buf)@.pulled(4)),
            4 > old(buf)@.data_len() ==> r == Err::<ResponseTooLargeData, CodecError>(
                CodecError::BufferTooSmall,
            ) && final(buf)@ == old(buf)@,
    {
        let v = match buf.decode_bytes(4) {
            Ok(v) => v,
            Err(e) => return Err(e),
        };
        proof { assert(v@.subrange(0, 4) =~= v@); }
        Ok(ResponseTooLargeData { actual_size: le_to_u32(v.as_slice(), 0) })
    }
}

} // verus!
