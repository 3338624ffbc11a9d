use vstd::prelude::*;
use vstd::slice::slice_subrange;
use vstd::string::*;
use vstd::utf8::encode_utf8;
use crate::error::{ErrorCode, ErrorInfo};

verus! {

/// A borrowed byte buffer as it crosses the boundary: where the bytes are, if
/// anywhere, and a 32-bit length.
pub struct BytesData<'a> {
    pub data: Option<&'a [u8]>,
    pub len: u32,
}

/// The length that a buffer of `n` bytes is given in a 32-bit field: `n`
/// reduced modulo 2^32.
pub open spec fn wire_len(n: nat) -> int {
    (n as int) % 0x1_0000_0000
}

impl<'a> BytesData<'a> {
    /// The recorded length does not reach past the bytes.
    pub open spec fn wf(&self) -> bool {
        match self.data {
            Some(s) => self.len <= s@.len(),
            None => true,
        }
    }

    /// The bytes that a reader of this record sees: the first `len` of them,
    /// all of them where `len` reaches past the end, or nothing where no
    /// bytes are attached.
    pub open spec fn spec_bytes(&self) -> Option<Seq<u8>> {
        match self.data {
            Some(s) => if self.len <= s@.len() {
                Some(s@.subrange(0, self.len as int))
            } else {
                Some(s@)
            },
            None => None,
        }
    }

    /// Describes the slice `s`. The length is kept in 32 bits.
    pub fn new(s: &'a [u8]) -> (r: Self)
        ensures
            r.data == Some(s),
            r.len == wire_len(s@.len()),
            r.wf(),
            s@.len() < 0x1_0000_0000 ==> r.spec_bytes() == Some(s@),
    {
        let n: u64 = s.len() as u64;
        let len: u32 = (n % 0x1_0000_0000u64) as u32;
        proof {
            if s@.len() < 0x1_0000_0000 {
                assert(s@.subrange(0, len as int) =~= s@);
            }
        }
        BytesData { data: Some(s), len }
    }

    /// The record that stands for "no buffer".
    pub fn null() -> (r: Self)
        ensures
            r.data is None,
            r.len == 0,
            r.wf(),
            r.spec_bytes() is None,
    {
        BytesData { data: None, len: 0 }
    }

    /// The described bytes, or `None` where no bytes are attached.
    pub fn as_opt_slice(&self) -> (r: Option<&'a [u8]>)
        ensures
            r is Some <==> self.data is Some,
            r matches Some(s) ==> Some(s@) == self.spec_bytes(),
    {
        match self.data {
            None => None,
            Some(s) => {
                if self.len as usize <= s.len() {
                    Some(slice_subrange(s, 0, self.len as usize))
                } else {
                    Some(s)
                }
            },
        }
    }
}

/// An error record as it crosses the boundary: the code, and the message as
/// borrowed bytes.
pub struct ErrorInfoData<'a> {
    pub code: ErrorCode,
    pub message: BytesData<'a>,
}

impl<'a> ErrorInfoData<'a> {
    /// The boundary form of `err`: same code, and the message's UTF-8 bytes.
    pub fn new(err: &'a ErrorInfo) -> (r: Self)
        ensures
            r.code == err.code,
            r.message.data matches Some(s) && s@ == encode_utf8(err.message@),
            r.message.len == wire_len(encode_utf8(err.message@).len()),
            r.message.wf(),
            r.message.spec_bytes() == Some(error_message_bytes(*err)),
    {
        ErrorInfoData { code: err.code(), message: BytesData::new(err.message().as_bytes()) }
    }
}

/// What one firing of a completion callback carries: a success value or an
/// error record, never both, and the caller's correlation token.
pub struct CallbackArgs<'a, T> {
    pub result: Option<&'a T>,
    pub error: Option<ErrorInfoData<'a>>,
    pub user_data: u64,
}

impl<'a, T> CallbackArgs<'a, T> {
    /// A success value and no error.
    pub open spec fn is_success(&self) -> bool {
        self.result is Some && self.error is None
    }

    /// An error record and no success value.
    pub open spec fn is_error(&self) -> bool {
        self.result is None && self.error is Some
    }

    /// Neither: the end-of-stream sentinel.
    pub open spec fn is_end_of_stream(&self) -> bool {
        self.result is None && self.error is None
    }

    /// A success value and an error record never travel together.
    pub open spec fn wf(&self) -> bool {
        !(self.result is Some && self.error is Some)
    }
}

/// What a firing of the callback tells the foreign side.
pub enum Firing<T> {
    /// A success value and a null error.
    Success(T),
    /// A null success value and an error record: the code and the message
    /// bytes that the record shows.
    Error { code: ErrorCode, message: Seq<u8> },
    /// Both null: no more data.
    EndOfStream,
}

/// The message bytes that the error record of `error` shows: the UTF-8 bytes
/// of the message, as far as the record's 32-bit length reaches.
pub open spec fn error_message_bytes(error: ErrorInfo) -> Seq<u8> {
    encode_utf8(error.message@).subrange(0, wire_len(encode_utf8(error.message@).len()))
}

/// What the firing that delivers `result` tells.
pub open spec fn spec_firing<T>(result: Result<T, ErrorInfo>) -> Firing<T> {
    match result {
        Ok(v) => Firing::Success(v),
        Err(e) => Firing::Error { code: e.code, message: error_message_bytes(e) },
    }
}

impl<'a, T> CallbackArgs<'a, T> {
    /// What this firing tells. Where a value and an error travel together,
    /// which no function here produces, the error counts.
    pub open spec fn firing(&self) -> Firing<T> {
        match (self.result, self.error) {
            (_, Some(e)) => Firing::Error { code: e.code, message: e.message.spec_bytes()->Some_0 },
            (Some(v), None) => Firing::Success(*v),
            (None, None) => Firing::EndOfStream,
        }
    }
}

/// The callback arguments that deliver `result`: the value alone on success,
/// the error record alone on failure; the token is passed through.
pub fn invoke_callback<'a, T>(result: &'a Result<T, ErrorInfo>, user_data: u64) -> (r: CallbackArgs<'a, T>)
    ensures
        r.user_data == user_data,
        r.wf(),
        r.firing() == spec_firing(*result),
        result is Ok <==> r.is_success(),
        result is Err <==> r.is_error(),
{
    match result {
        Ok(value) => CallbackArgs { result: Some(value), error: None, user_data },
        Err(error) => invoke_callback_error(error, user_data),
    }
}

/// The callback arguments that deliver `error`: no success value, the error
/// record, and the token passed through.
pub fn invoke_callback_error<'a, T>(error: &'a ErrorInfo, user_data: u64) -> (r: CallbackArgs<'a, T>)
    ensures
        r.user_data == user_data,
        r.is_error(),
        r.wf(),
        r.firing() == (Firing::<T>::Error { code: error.code, message: error_message_bytes(*error) }),
{
    CallbackArgs { result: None, error: Some(ErrorInfoData::new(error)), user_data }
}

/// The callback arguments of the end-of-stream sentinel: neither value nor
/// error, and the token passed through.
pub fn invoke_callback_null_result<'a, T>(user_data: u64) -> (r: CallbackArgs<'a, T>)
    ensures
        r.user_data == user_data,
        r.is_end_of_stream(),
        r.wf(),
        r.firing() == Firing::<T>::EndOfStream,
{
    CallbackArgs { result: None, error: None, user_data }
}

/// Every well-formed firing is exactly one of: success, error, end of stream.
pub proof fn lemma_callback_args_are_one_kind<'a, T>(args: CallbackArgs<'a, T>)
    requires
        args.wf(),
    ensures
        args.is_success() || args.is_error() || args.is_end_of_stream(),
        !(args.is_success() && args.is_error()),
        !(args.is_success() && args.is_end_of_stream()),
        !(args.is_error() && args.is_end_of_stream()),
{
}

} // verus!
