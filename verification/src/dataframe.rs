use vstd::prelude::*;
use crate::common::{error_message_bytes, spec_firing, BytesData, Firing};
use crate::context::ffi_cstr_to_string;
use crate::error::{ErrorCode, ErrorInfo};
use crate::ipc::{ipc_schema_header, open_writer, writer_bytes, writer_take, IpcWriter};
use crate::runtime::RuntimeHandle;
use crate::stream::{spec_call, CallOutcome, CursorState, Delivery, StreamCursor, StreamEvent};

verus! {

/// The asynchronous operations of the bridge, by the way their failures are
/// reported.
#[derive(Debug, Clone, Copy, PartialEq, Eq, Structural)]
pub enum Operation {
    RegisterTable,
    Sql,
    Count,
    Show,
    ToString,
    Schema,
    Collect,
    ExecuteStream,
    StreamNext,
    Write,
}

impl Operation {
    /// The code under which a failure of the engine in this operation is
    /// reported.
    pub open spec fn spec_failure_code(self) -> ErrorCode {
        match self {
            Operation::RegisterTable => ErrorCode::TableRegistrationFailed,
            Operation::Sql => ErrorCode::SqlError,
            _ => ErrorCode::DataFrameError,
        }
    }

    /// The code under which a failure of the engine in this operation is
    /// reported.
    pub fn failure_code(self) -> (r: ErrorCode)
        ensures
            r == self.spec_failure_code(),
    {
        match self {
            Operation::RegisterTable => ErrorCode::TableRegistrationFailed,
            Operation::Sql => ErrorCode::SqlError,
            _ => ErrorCode::DataFrameError,
        }
    }
}

/// What the callback of a finished operation is to deliver: the engine's
/// value as it is, or an error record with the operation's code and the
/// engine's diagnostic text.
pub open spec fn spec_operation_result<V>(op: Operation, outcome: Result<V, String>) -> Result<
    V,
    ErrorInfo,
> {
    match outcome {
        Ok(v) => Ok(v),
        Err(message) => Err(ErrorInfo { code: op.spec_failure_code(), message }),
    }
}

/// What the callback of a finished operation is to deliver: the engine's
/// value as it is, or an error record with the operation's code and the
/// engine's diagnostic text.
pub fn operation_result<V>(op: Operation, outcome: Result<V, String>) -> (r: Result<V, ErrorInfo>)
    ensures
        r == spec_operation_result(op, outcome),
{
    match outcome {
        Ok(v) => Ok(v),
        Err(message) => Err(ErrorInfo { code: op.failure_code(), message }),
    }
}

/// How a task on the executor ended: it ran to its end with its own outcome,
/// or it panicked with the given text, which is reported under `Panic`.
pub open spec fn spec_task_outcome<V>(joined: Result<Result<V, ErrorInfo>, String>) -> Result<
    V,
    ErrorInfo,
> {
    match joined {
        Ok(outcome) => outcome,
        Err(panic) => Err(ErrorInfo { code: ErrorCode::Panic, message: panic }),
    }
}

/// What the callback of a task is to deliver. A panic inside the task is
/// caught at the task's boundary and reported under `Panic`; it does not
/// reach the caller or other handles.
pub fn task_outcome<V>(joined: Result<Result<V, ErrorInfo>, String>) -> (r: Result<V, ErrorInfo>)
    ensures
        r == spec_task_outcome(joined),
{
    match joined {
        Ok(outcome) => outcome,
        Err(panic) => Err(ErrorInfo { code: ErrorCode::Panic, message: panic }),
    }
}

/// How a task that only calls the engine ended: with the engine's outcome
/// under the operation's code, or with a panic.
pub open spec fn spec_task_result<V>(op: Operation, joined: Result<Result<V, String>, String>) -> Result<
    V,
    ErrorInfo,
> {
    match joined {
        Ok(outcome) => spec_operation_result(op, outcome),
        Err(panic) => Err(ErrorInfo { code: ErrorCode::Panic, message: panic }),
    }
}

/// What the callback of a task that only calls the engine is to deliver.
pub fn task_result<V>(op: Operation, joined: Result<Result<V, String>, String>) -> (r: Result<
    V,
    ErrorInfo,
>)
    ensures
        r == spec_task_result(op, joined),
{
    match joined {
        Ok(outcome) => operation_result(op, outcome),
        Err(panic) => Err(ErrorInfo { code: ErrorCode::Panic, message: panic }),
    }
}

/// A failure of the engine never delivers a success value: the firing is an
/// error record under the operation's code, which is `TableRegistrationFailed`
/// for a registration, `SqlError` for `sql` and `DataFrameError` otherwise.
pub proof fn lemma_engine_failure_is_an_error_firing<V>(op: Operation, message: String)
    ensures
        spec_firing(spec_operation_result::<V>(op, Err(message))) == (Firing::<V>::Error {
            code: op.spec_failure_code(),
            message: error_message_bytes(
                ErrorInfo { code: op.spec_failure_code(), message },
            ),
        }),
        !(spec_firing(spec_operation_result::<V>(op, Err(message))) is Success),
        op == Operation::RegisterTable ==> op.spec_failure_code()
            == ErrorCode::TableRegistrationFailed,
        op == Operation::Sql ==> op.spec_failure_code() == ErrorCode::SqlError,
        op != Operation::RegisterTable && op != Operation::Sql ==> op.spec_failure_code()
            == ErrorCode::DataFrameError,
{
}

/// A success of the engine is delivered as it is.
pub proof fn lemma_engine_success_is_delivered<V>(op: Operation, value: V)
    ensures
        spec_firing(spec_operation_result(op, Ok::<V, String>(value))) == Firing::Success(value),
{
}

/// The row cap of a preview: zero asks for all rows.
pub open spec fn spec_show_limit(limit: u64) -> Option<usize> {
    if limit == 0 {
        None
    } else {
        Some(limit as usize)
    }
}

/// The row cap of a preview: zero asks for all rows; any other limit caps the
/// rows, kept in the machine's word.
pub fn show_limit(limit: u64) -> (r: Option<usize>)
    ensures
        r == spec_show_limit(limit),
{
    if limit > 0 {
        Some(
            #[verifier::truncate]
            (limit as usize),
        )
    } else {
        None
    }
}

/// A row count as it is reported: an unsigned 64-bit number.
pub fn row_count(rows: usize) -> (r: u64)
    ensures
        r == rows,
{
    rows as u64
}

/// The checked arguments of a file sink.
#[derive(Debug, Clone, PartialEq, Eq)]
pub struct WriteRequest {
    pub path: String,
    /// The serialized writer options, where the caller attached any.
    pub options: Option<Vec<u8>>,
}

/// Checks the arguments of `write_csv`, `write_json` and `write_parquet`
/// before anything is enqueued: the result handle and the path must be
/// there, and the path must be UTF-8. Attached option bytes are copied out,
/// since they are only valid for the duration of the call.
pub fn write_arguments(df_present: bool, path: Option<&[u8]>, options: &BytesData) -> (r: Result<
    WriteRequest,
    ErrorCode,
>)
    ensures
        r is Ok <==> df_present && path is Some && vstd::utf8::valid_utf8(path->Some_0@),
        r matches Err(code) ==> code == ErrorCode::InvalidArgument,
        r matches Ok(req) ==> req.path@ == vstd::utf8::decode_utf8(path->Some_0@) && (match req.options {
            Some(b) => Some(b@),
            None => None,
        }) == options.spec_bytes(),
{
    if !df_present {
        return Err(ErrorCode::InvalidArgument);
    }
    let path = match ffi_cstr_to_string(path) {
        Ok(s) => s,
        Err(code) => return Err(code),
    };
    let options = match options.as_opt_slice() {
        Some(b) => Some(vstd::slice::slice_to_vec(b)),
        None => None,
    };
    Ok(WriteRequest { path, options })
}

/// What decoding attached writer options gives the sink: without options
/// nothing, with options that decoded the options, and with options that did
/// not `InvalidArgument`, returned before anything is enqueued.
pub fn decoded_write_options<O>(decoded: Option<Result<O, String>>) -> (r: Result<
    Option<O>,
    ErrorCode,
>)
    ensures
        decoded is None ==> r == Ok::<Option<O>, ErrorCode>(None),
        decoded matches Some(Ok(o)) ==> r == Ok::<Option<O>, ErrorCode>(Some(o)),
        decoded matches Some(Err(_)) ==> r == Err::<Option<O>, ErrorCode>(
            ErrorCode::InvalidArgument,
        ),
{
    match decoded {
        None => Ok(None),
        Some(Ok(o)) => Ok(Some(o)),
        Some(Err(_)) => Err(ErrorCode::InvalidArgument),
    }
}


/// The header followed by the first `upto` frames, in order.
pub open spec fn spec_joined(
    header: Seq<u8>,
    frames: Seq<Result<Vec<u8>, String>>,
    upto: int,
) -> Seq<u8>
    decreases upto,
{
    if upto <= 0 {
        header
    } else {
        spec_joined(header, frames, upto - 1) + frames[upto - 1]->Ok_0@
    }
}

/// `i` is the first batch that could not be produced or framed.
pub open spec fn is_first_failed_frame(frames: Seq<Result<Vec<u8>, String>>, i: int) -> bool {
    &&& 0 <= i < frames.len()
    &&& frames[i] is Err
    &&& forall|j: int| 0 <= j < i ==> (#[trigger] frames[j]) is Ok
}

/// The index of the first batch that could not be produced or framed.
pub open spec fn first_failed_frame(frames: Seq<Result<Vec<u8>, String>>) -> int {
    choose|i: int| is_first_failed_frame(frames, i)
}

/// The single buffer of a full materialization: the schema header once, then
/// the frame of every batch in arrival order. Where a batch could not be
/// produced or framed, the first such failure, as a `DataFrameError`.
pub open spec fn spec_collect_stream(header: Seq<u8>, frames: Seq<Result<Vec<u8>, String>>) -> Result<
    Seq<u8>,
    ErrorInfo,
> {
    if forall|i: int| 0 <= i < frames.len() ==> (#[trigger] frames[i]) is Ok {
        Ok(spec_joined(header, frames, frames.len() as int))
    } else {
        Err(
            ErrorInfo {
                code: ErrorCode::DataFrameError,
                message: frames[first_failed_frame(frames)]->Err_0,
            },
        )
    }
}

/// Assembles the buffer that `collect` delivers in one firing: the schema
/// header once, then one frame per batch in arrival order. A failure anywhere
/// gives a `DataFrameError` and no buffer.
pub fn collect_stream(header: Vec<u8>, frames: &Vec<Result<Vec<u8>, String>>) -> (r: Result<
    Vec<u8>,
    ErrorInfo,
>)
    ensures
        match spec_collect_stream(header@, frames@) {
            Ok(bytes) => r matches Ok(v) && v@ == bytes,
            Err(e) => r == Err::<Vec<u8>, ErrorInfo>(e),
        },
{
    let mut buffer = header;
    let mut i: usize = 0;
    while i < frames.len()
        invariant
            i <= frames@.len(),
            buffer@ == spec_joined(header@, frames@, i as int),
            forall|j: int| 0 <= j < i ==> (#[trigger] frames@[j]) is Ok,
        decreases frames@.len() - i,
    {
        match &frames[i] {
            Ok(frame) => {
                let ghost before = buffer@;
                buffer.extend_from_slice(frame.as_slice());
                assert(buffer@ =~= before + frame@);
            },
            Err(message) => {
                proof {
                    assert(is_first_failed_frame(frames@, i as int));
                    assert(first_failed_frame(frames@) == i);
                }
                return Err(ErrorInfo { code: ErrorCode::DataFrameError, message: message.clone() });
            },
        }
        i += 1;
    }
    Ok(buffer)
}

/// The delivered buffer starts with the schema header, and it is the header
/// alone where the result has no batch.
pub proof fn lemma_collect_starts_with_header(
    header: Seq<u8>,
    frames: Seq<Result<Vec<u8>, String>>,
    upto: int,
)
    requires
        0 <= upto <= frames.len(),
    ensures
        spec_joined(header, frames, upto).len() >= header.len(),
        spec_joined(header, frames, upto).subrange(0, header.len() as int) == header,
        spec_joined(header, frames, 0) == header,
    decreases upto,
{
    if upto > 0 {
        lemma_collect_starts_with_header(header, frames, upto - 1);
        let head = spec_joined(header, frames, upto - 1);
        assert((head + frames[upto - 1]->Ok_0@).subrange(0, header.len() as int) =~= head.subrange(
            0,
            header.len() as int,
        ));
    } else {
        assert(header.subrange(0, header.len() as int) =~= header);
    }
}

/// A query result that has not been executed: a share of the executor and
/// the engine's lazy query.
pub struct DataFrameWrapper<D> {
    pub runtime: RuntimeHandle,
    pub inner: D,
}

impl<D> DataFrameWrapper<D> {
    /// A result over the lazy query `inner` that keeps `runtime` alive.
    pub fn new(runtime: RuntimeHandle, inner: D) -> (r: Self)
        ensures
            r.runtime == runtime,
            r.inner == inner,
    {
        DataFrameWrapper { runtime, inner }
    }
}

/// A stream cursor: a share of the executor, the writer that frames batches
/// with the schema captured when the stream was opened, the running stream,
/// and where the cursor stands.
pub struct DataFrameStreamWrapper<St> {
    pub runtime: RuntimeHandle,
    pub writer: IpcWriter,
    pub stream: St,
    pub cursor: StreamCursor,
}

impl<St> DataFrameStreamWrapper<St> {
    /// The cursor of a stream that was just opened: nothing was asked of it.
    pub fn new(runtime: RuntimeHandle, writer: IpcWriter, stream: St) -> (r: Self)
        ensures
            r.runtime == runtime,
            r.writer == writer,
            r.stream == stream,
            r.cursor.state == CursorState::Open,
    {
        DataFrameStreamWrapper { runtime, writer, stream, cursor: StreamCursor::new() }
    }

    /// Opens the cursor of `stream`: the writer is made now, so the schema
    /// that frames every batch is the one the stream has at this moment. The
    /// writer's buffer holds that schema's header and no batch. A schema that
    /// arrow cannot frame is a `DataFrameError`; every other schema gives a
    /// cursor.
    pub fn open(runtime: RuntimeHandle, schema: &arrow_schema::Schema, stream: St) -> (r: Result<
        Self,
        ErrorInfo,
    >)
        ensures
            match ipc_schema_header(*schema) {
                Some(header) => r matches Ok(c) && c.runtime == runtime && c.stream == stream
                    && c.cursor.state == CursorState::Open && writer_bytes(c.writer) == header,
                None => r matches Err(e) && e.code == ErrorCode::DataFrameError,
            },
    {
        match open_writer(schema) {
            Ok(writer) => Ok(DataFrameStreamWrapper::new(runtime, writer, stream)),
            Err(e) => Err(e),
        }
    }

    /// Admits a `stream_next` call. Without a cursor, or on a cursor that is
    /// done, the call is `InvalidArgument` and the stream is not touched.
    pub fn begin_next(cursor: Option<&Self>) -> (r: ErrorCode)
        ensures
            r == ErrorCode::Success <==> (cursor matches Some(c) && c.cursor.state
                != CursorState::Exhausted),
            r != ErrorCode::Success ==> r == ErrorCode::InvalidArgument,
    {
        match cursor {
            None => ErrorCode::InvalidArgument,
            Some(c) => match c.cursor.begin_next() {
                Ok(()) => ErrorCode::Success,
                Err(code) => code,
            },
        }
    }

    /// Completes one `stream_next` call after the stream was polled and a
    /// batch, if one came, was framed by the writer. `written` says what
    /// became of the poll: nothing came, the stream or the writer failed, or
    /// a batch came and was framed into the buffer.
    ///
    /// What the buffer holds is delivered for a batch and dropped for a
    /// failure; either way the buffer is empty afterwards, so that it never
    /// holds more than one batch. On a cursor that is done the call is
    /// refused and nothing changes.
    pub fn stream_next(&mut self, written: Option<Result<(), String>>) -> (r: CallOutcome)
        ensures
            final(self).runtime == old(self).runtime,
            final(self).stream == old(self).stream,
            old(self).cursor.state == CursorState::Exhausted ==> {
                &&& r == CallOutcome::Refused(ErrorCode::InvalidArgument)
                &&& final(self).cursor.state == CursorState::Exhausted
                &&& final(self).writer == old(self).writer
            },
            old(self).cursor.state != CursorState::Exhausted ==> match written {
                None => {
                    &&& (final(self).cursor.state, r) == spec_call(
                        old(self).cursor.state,
                        StreamEvent::End,
                    )
                    &&& final(self).writer == old(self).writer
                },
                Some(Err(message)) => {
                    &&& (final(self).cursor.state, r) == spec_call(
                        old(self).cursor.state,
                        StreamEvent::Failed(message),
                    )
                    &&& writer_bytes(final(self).writer) == Seq::<u8>::empty()
                },
                Some(Ok(())) => {
                    &&& final(self).cursor.state == CursorState::Emitting
                    &&& r matches CallOutcome::Delivered(Delivery::Bytes(bytes))
                    &&& bytes@ == writer_bytes(old(self).writer)
                    &&& writer_bytes(final(self).writer) == Seq::<u8>::empty()
                },
            },
    {
        match self.cursor.begin_next() {
            Err(code) => CallOutcome::Refused(code),
            Ok(()) => {
                let event = match written {
                    None => StreamEvent::End,
                    Some(Err(message)) => {
                        let _ = writer_take(&mut self.writer);
                        StreamEvent::Failed(message)
                    },
                    Some(Ok(())) => StreamEvent::Batch(writer_take(&mut self.writer)),
                };
                CallOutcome::Delivered(self.cursor.complete_next(event))
            },
        }
    }
}

/// Destroys the result that the caller keeps in `df`. An empty place is a
/// no-op. Always succeeds.
pub fn datafusion_dataframe_destroy<D>(df: &mut Option<DataFrameWrapper<D>>) -> (r: ErrorCode)
    ensures
        r == ErrorCode::Success,
        *final(df) is None,
{
    *df = None;
    ErrorCode::Success
}

/// Destroys the cursor that the caller keeps in `stream`. An empty place is
/// a no-op. Always succeeds.
pub fn datafusion_dataframe_stream_destroy<St>(
    stream: &mut Option<DataFrameStreamWrapper<St>>,
) -> (r: ErrorCode)
    ensures
        r == ErrorCode::Success,
        *final(stream) is None,
{
    *stream = None;
    ErrorCode::Success
}

} // verus!
