use vstd::prelude::*;
use vstd::string::to_string_from_display_ensures;
use crate::error::{ErrorCode, ErrorInfo};

verus! {

/// arrow's schema, carried as an opaque value.
#[verifier::external_type_specification]
#[verifier::external_body]
pub struct ExSchema(arrow_schema::Schema);

/// arrow's error.
#[verifier::external_type_specification]
#[verifier::external_body]
pub struct ExArrowError(arrow_schema::ArrowError);

/// arrow's writer of the IPC streaming format.
#[verifier::external_type_specification]
#[verifier::external_body]
#[verifier::reject_recursive_types(W)]
pub struct ExStreamWriter<W>(arrow_ipc::writer::StreamWriter<W>);

/// A stream writer that frames into a buffer in memory.
pub type IpcWriter = arrow_ipc::writer::StreamWriter<Vec<u8>>;

/// The bytes that a writer has framed into its buffer and that were not
/// taken out of it.
pub uninterp spec fn writer_bytes(writer: arrow_ipc::writer::StreamWriter<Vec<u8>>) -> Seq<u8>;

/// The header that arrow frames for a schema when a stream is opened over an
/// empty buffer with arrow's default options, or `None` for a schema that
/// arrow cannot frame. arrow builds the header from the schema alone, with
/// the metadata keys in sorted order, so the same schema has the same
/// header.
pub uninterp spec fn ipc_schema_header(schema: arrow_schema::Schema) -> Option<Seq<u8>>;

/// `arrow_ipc::writer::StreamWriter::try_new` over an empty buffer: a writer
/// whose buffer holds the schema's header and nothing else, or an error for
/// a schema that arrow cannot frame. Writing into a `Vec<u8>` does not fail,
/// so the schema alone decides.
#[verifier::external_body]
fn writer_try_new(schema: &arrow_schema::Schema) -> (r: Result<
    IpcWriter,
    arrow_schema::ArrowError,
>)
    ensures
        match ipc_schema_header(*schema) {
            Some(header) => r matches Ok(w) && writer_bytes(w) == header,
            None => r is Err,
        },
{
    arrow_ipc::writer::StreamWriter::try_new(Vec::new(), schema)
}

/// `arrow_ipc::writer::StreamWriter::flush`: flushes the buffer and does
/// nothing else. A `Vec<u8>` has nothing to flush, so the call succeeds and
/// changes nothing.
#[verifier::external_body]
fn writer_flush(writer: &mut IpcWriter) -> (r: Result<(), arrow_schema::ArrowError>)
    ensures
        r is Ok,
        writer_bytes(*final(writer)) == writer_bytes(*old(writer)),
{
    writer.flush()
}

/// `arrow_ipc::writer::StreamWriter::get_mut`: the writer's buffer itself.
/// What the caller leaves in it is what the writer holds afterwards.
#[verifier::external_body]
fn writer_get_mut(writer: &mut IpcWriter) -> (r: &mut Vec<u8>)
    ensures
        r@ == writer_bytes(*old(writer)),
        writer_bytes(*final(writer)) == final(r)@,
{
    writer.get_mut()
}

/// Takes what the writer has framed out of its buffer and leaves the buffer
/// empty for the next frame.
pub fn writer_take(writer: &mut IpcWriter) -> (r: Vec<u8>)
    ensures
        r@ == writer_bytes(*old(writer)),
        writer_bytes(*final(writer)) == Seq::<u8>::empty(),
{
    let buffer = writer_get_mut(writer);
    let mut taken: Vec<u8> = Vec::new();
    taken.append(buffer);
    taken
}

/// What opening a writer reports: the writer as it is, or a `DataFrameError`
/// with arrow's text where the schema cannot be framed.
pub fn writer_opened(opened: Result<IpcWriter, arrow_schema::ArrowError>) -> (r: Result<
    IpcWriter,
    ErrorInfo,
>)
    ensures
        opened matches Ok(w) ==> r == Ok::<IpcWriter, ErrorInfo>(w),
        opened matches Err(e) ==> (r matches Err(info) && info.code == ErrorCode::DataFrameError
            && to_string_from_display_ensures::<arrow_schema::ArrowError>(&e, info.message)),
{
    match opened {
        Ok(writer) => Ok(writer),
        Err(e) => Err(ErrorInfo::new(ErrorCode::DataFrameError, e)),
    }
}

/// Opens a writer for a stream of `schema`. Its buffer holds the schema's
/// header and nothing else. A schema that arrow cannot frame is a
/// `DataFrameError`; every other schema gives a writer.
pub fn open_writer(schema: &arrow_schema::Schema) -> (r: Result<IpcWriter, ErrorInfo>)
    ensures
        match ipc_schema_header(*schema) {
            Some(header) => r matches Ok(w) && writer_bytes(w) == header,
            None => r matches Err(e) && e.code == ErrorCode::DataFrameError,
        },
{
    writer_opened(writer_try_new(schema))
}

/// What a flushed writer that holds only a schema's header delivers: the
/// bytes of its buffer, or a `DataFrameError` with arrow's text where the
/// flush failed.
pub fn schema_flushed(writer: IpcWriter, flushed: Result<(), arrow_schema::ArrowError>) -> (r:
    Result<Vec<u8>, ErrorInfo>)
    ensures
        flushed is Ok ==> (r matches Ok(bytes) && bytes@ == writer_bytes(writer)),
        flushed matches Err(e) ==> (r matches Err(info) && info.code == ErrorCode::DataFrameError
            && to_string_from_display_ensures::<arrow_schema::ArrowError>(&e, info.message)),
{
    let mut writer = writer;
    match flushed {
        Ok(()) => Ok(writer_take(&mut writer)),
        Err(e) => Err(ErrorInfo::new(ErrorCode::DataFrameError, e)),
    }
}

/// The stream that describes `schema` and holds no batch: the bytes that
/// `schema` delivers. It is made without executing anything.
///
/// The bytes are the schema's header, so they are the same on every call for
/// the same schema. A schema that arrow cannot frame is a `DataFrameError`;
/// every other schema gives its header.
pub fn schema_bytes(schema: &arrow_schema::Schema) -> (r: Result<Vec<u8>, ErrorInfo>)
    ensures
        match ipc_schema_header(*schema) {
            Some(header) => r matches Ok(bytes) && bytes@ == header,
            None => r matches Err(e) && e.code == ErrorCode::DataFrameError,
        },
{
    let mut writer = match open_writer(schema) {
        Ok(w) => w,
        Err(e) => return Err(e),
    };
    let flushed = writer_flush(&mut writer);
    schema_flushed(writer, flushed)
}

} // verus!
