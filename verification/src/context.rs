use std::sync::Arc;
use vstd::prelude::*;
use vstd::slice::slice_to_vec;
use vstd::utf8::{decode_utf8, valid_utf8};
use crate::common::BytesData;
use crate::error::{ErrorCode, ErrorInfo};
use crate::mappers::text;
use crate::options::{CsvReadOptions, CsvReadOptionsView};
use crate::runtime::{runtime_share, RuntimeHandle};

verus! {

/// The text of a string argument: its bytes without the terminator, or
/// nothing where the caller passed a null address.
pub open spec fn spec_text_argument(arg: Option<Seq<u8>>) -> Result<Seq<char>, ErrorCode> {
    match arg {
        Some(bytes) => if valid_utf8(bytes) {
            Ok(decode_utf8(bytes))
        } else {
            Err(ErrorCode::InvalidArgument)
        },
        None => Err(ErrorCode::InvalidArgument),
    }
}

/// Reads a string argument. A null address and bytes that are not UTF-8 are
/// both `InvalidArgument`.
pub fn ffi_cstr_to_string(arg: Option<&[u8]>) -> (r: Result<String, ErrorCode>)
    ensures
        match spec_text_argument(
            match arg {
                Some(b) => Some(b@),
                None => None,
            },
        ) {
            Ok(t) => r matches Ok(s) && s@ == t,
            Err(code) => r == Err::<String, ErrorCode>(code),
        },
{
    match arg {
        None => Err(ErrorCode::InvalidArgument),
        Some(bytes) => match text("argument", bytes) {
            Ok(s) => Ok(s),
            Err(_) => Err(ErrorCode::InvalidArgument),
        },
    }
}

/// Reads a handle argument: a null address is `InvalidArgument`.
pub fn ffi_ref<H>(handle: Option<H>) -> (r: Result<H, ErrorCode>)
    ensures
        handle matches Some(h) ==> r == Ok::<H, ErrorCode>(h),
        handle is None ==> r == Err::<H, ErrorCode>(ErrorCode::InvalidArgument),
{
    match handle {
        Some(h) => Ok(h),
        None => Err(ErrorCode::InvalidArgument),
    }
}

/// The checked arguments of a table registration.
#[derive(Debug, Clone, PartialEq, Eq)]
pub struct TableRegistration {
    pub table_ref: String,
    pub table_path: String,
}

/// The checked arguments of a registration, or the status code to return at
/// once. The arguments are examined in order: context, table name, path.
pub open spec fn spec_register_arguments(
    context_present: bool,
    table_ref: Option<Seq<u8>>,
    table_path: Option<Seq<u8>>,
) -> Result<(Seq<char>, Seq<char>), ErrorCode> {
    if !context_present {
        Err(ErrorCode::InvalidArgument)
    } else {
        match spec_text_argument(table_ref) {
            Err(code) => Err(code),
            Ok(name) => match spec_text_argument(table_path) {
                Err(code) => Err(code),
                Ok(path) => Ok((name, path)),
            },
        }
    }
}

/// Checks the arguments of `register_csv`, `register_json` and
/// `register_parquet` before anything is enqueued.
pub fn register_arguments(
    context_present: bool,
    table_ref: Option<&[u8]>,
    table_path: Option<&[u8]>,
) -> (r: Result<TableRegistration, ErrorCode>)
    ensures
        match spec_register_arguments(
            context_present,
            match table_ref {
                Some(b) => Some(b@),
                None => None,
            },
            match table_path {
                Some(b) => Some(b@),
                None => None,
            },
        ) {
            Ok((name, path)) => r matches Ok(reg) && reg.table_ref@ == name && reg.table_path@
                == path,
            Err(code) => r == Err::<TableRegistration, ErrorCode>(code),
        },
{
    if !context_present {
        return Err(ErrorCode::InvalidArgument);
    }
    let table_ref = match ffi_cstr_to_string(table_ref) {
        Ok(s) => s,
        Err(code) => return Err(code),
    };
    let table_path = match ffi_cstr_to_string(table_path) {
        Ok(s) => s,
        Err(code) => return Err(code),
    };
    Ok(TableRegistration { table_ref, table_path })
}

/// Checks the arguments of `sql` before anything is enqueued.
pub fn sql_arguments(context_present: bool, sql: Option<&[u8]>) -> (r: Result<String, ErrorCode>)
    ensures
        !context_present ==> r == Err::<String, ErrorCode>(ErrorCode::InvalidArgument),
        context_present ==> match spec_text_argument(
            match sql {
                Some(b) => Some(b@),
                None => None,
            },
        ) {
            Ok(t) => r matches Ok(s) && s@ == t,
            Err(code) => r == Err::<String, ErrorCode>(code),
        },
{
    if !context_present {
        return Err(ErrorCode::InvalidArgument);
    }
    ffi_cstr_to_string(sql)
}

/// CSV read options as the flat wire table gives them: single characters
/// are already single bytes, and absent ones are `None`.
#[derive(Debug, Clone, Copy, PartialEq, Eq)]
pub struct WireCsvReadOptions {
    pub has_header: bool,
    pub delimiter: Option<u8>,
    pub quote: Option<u8>,
    pub terminator: Option<u8>,
    pub escape: Option<u8>,
    pub comment: Option<u8>,
    pub newlines_in_values: bool,
}

/// The configuration that a flat wire table and a parsed schema give over
/// the defaults `d`.
pub open spec fn spec_from_wire_csv_options<S, T, E>(
    o: WireCsvReadOptions,
    schema: Option<S>,
    d: CsvReadOptionsView<S, T, E>,
) -> CsvReadOptionsView<S, T, E> {
    CsvReadOptionsView {
        has_header: o.has_header,
        delimiter: match o.delimiter {
            Some(b) => b,
            None => d.delimiter,
        },
        quote: match o.quote {
            Some(b) => b,
            None => d.quote,
        },
        terminator: o.terminator,
        escape: o.escape,
        comment: o.comment,
        newlines_in_values: o.newlines_in_values,
        schema,
        ..d
    }
}

/// Builds the read configuration of `register_csv` from the flat wire table.
/// The delimiter and the quote keep the default where the table has none;
/// a schema, where one was attached and parsed, overrides inference.
pub fn from_wire_csv_options<S, T, E>(
    o: WireCsvReadOptions,
    schema: Option<S>,
    defaults: CsvReadOptions<S, T, E>,
) -> (r: CsvReadOptions<S, T, E>)
    ensures
        r@ == spec_from_wire_csv_options(o, schema, defaults@),
{
    let mut opts = defaults;
    opts.has_header = o.has_header;
    if let Some(delimiter) = o.delimiter {
        opts.delimiter = delimiter;
    }
    if let Some(quote) = o.quote {
        opts.quote = quote;
    }
    opts.terminator = o.terminator;
    opts.escape = o.escape;
    opts.comment = o.comment;
    opts.newlines_in_values = o.newlines_in_values;
    opts.schema = schema;
    opts
}

/// What parsing an attached schema gives the registration: without a schema
/// nothing, with one that parsed the schema, and with one that did not an
/// `InvalidArgument` error that carries the parser's text.
pub fn attached_schema<S>(parsed: Option<Result<S, String>>) -> (r: Result<Option<S>, ErrorInfo>)
    ensures
        parsed is None ==> r == Ok::<Option<S>, ErrorInfo>(None),
        parsed matches Some(Ok(s)) ==> r == Ok::<Option<S>, ErrorInfo>(Some(s)),
        parsed matches Some(Err(m)) ==> r == Err::<Option<S>, ErrorInfo>(
            ErrorInfo { code: ErrorCode::InvalidArgument, message: m },
        ),
{
    match parsed {
        None => Ok(None),
        Some(Ok(s)) => Ok(Some(s)),
        Some(Err(message)) => Err(ErrorInfo { code: ErrorCode::InvalidArgument, message }),
    }
}


/// The checked arguments of a CSV registration: the table's name, the path,
/// and the bytes of the options table, copied out of the caller's buffer.
#[derive(Debug, Clone, PartialEq, Eq)]
pub struct CsvRegistration {
    pub table_ref: String,
    pub table_path: String,
    pub options: Vec<u8>,
}

/// The bytes of an options record: what the record shows, and nothing where
/// it has no bytes attached.
pub open spec fn spec_options_bytes(options: BytesData) -> Seq<u8> {
    match options.spec_bytes() {
        Some(bytes) => bytes,
        None => Seq::empty(),
    }
}

/// Checks the arguments of `register_csv` before anything is enqueued. The
/// arguments are examined in order: context, table name, path, options
/// record. A missing options record is `InvalidArgument` like a missing
/// string. The option bytes are copied out, since the caller's buffer is
/// only valid for the duration of the call.
pub fn register_csv_arguments(
    context_present: bool,
    table_ref: Option<&[u8]>,
    table_path: Option<&[u8]>,
    options: Option<&BytesData>,
) -> (r: Result<CsvRegistration, ErrorCode>)
    ensures
        match spec_register_arguments(
            context_present,
            match table_ref {
                Some(b) => Some(b@),
                None => None,
            },
            match table_path {
                Some(b) => Some(b@),
                None => None,
            },
        ) {
            Ok((name, path)) => match options {
                Some(record) => r matches Ok(reg) && reg.table_ref@ == name && reg.table_path@
                    == path && reg.options@ == spec_options_bytes(*record),
                None => r == Err::<CsvRegistration, ErrorCode>(ErrorCode::InvalidArgument),
            },
            Err(code) => r == Err::<CsvRegistration, ErrorCode>(code),
        },
{
    let names = match register_arguments(context_present, table_ref, table_path) {
        Ok(names) => names,
        Err(code) => return Err(code),
    };
    let record = match ffi_ref(options) {
        Ok(record) => record,
        Err(code) => return Err(code),
    };
    let bytes: Vec<u8> = match record.as_opt_slice() {
        Some(b) => slice_to_vec(b),
        None => Vec::new(),
    };
    Ok(CsvRegistration { table_ref: names.table_ref, table_path: names.table_path, options: bytes })
}

/// The read configuration of a CSV registration, given what decoding the
/// options table and parsing its attached schema gave, or the status code to
/// return at once: a table that does not decode and a schema that does not
/// parse are both `InvalidArgument`, and nothing is enqueued.
pub open spec fn spec_csv_registration_options<S, T, E>(
    table: Result<WireCsvReadOptions, String>,
    parsed: Option<Result<S, String>>,
    d: CsvReadOptionsView<S, T, E>,
) -> Result<CsvReadOptionsView<S, T, E>, ErrorCode> {
    match table {
        Err(_) => Err(ErrorCode::InvalidArgument),
        Ok(o) => match parsed {
            Some(Err(_)) => Err(ErrorCode::InvalidArgument),
            Some(Ok(schema)) => Ok(spec_from_wire_csv_options(o, Some(schema), d)),
            None => Ok(spec_from_wire_csv_options(o, None, d)),
        },
    }
}

/// Builds the read configuration of a CSV registration from what decoding
/// the options table and parsing its attached schema gave.
pub fn csv_registration_options<S, T, E>(
    table: Result<WireCsvReadOptions, String>,
    parsed: Option<Result<S, String>>,
    defaults: CsvReadOptions<S, T, E>,
) -> (r: Result<CsvReadOptions<S, T, E>, ErrorCode>)
    ensures
        match spec_csv_registration_options(table, parsed, defaults@) {
            Ok(v) => r matches Ok(o) && o@ == v,
            Err(code) => r == Err::<CsvReadOptions<S, T, E>, ErrorCode>(code),
        },
{
    let settings = match table {
        Ok(settings) => settings,
        Err(_) => return Err(ErrorCode::InvalidArgument),
    };
    let schema = match attached_schema(parsed) {
        Ok(schema) => schema,
        Err(error) => return Err(error.code),
    };
    Ok(from_wire_csv_options(settings, schema, defaults))
}

/// A query context: a share of the executor and the engine's session, which
/// tasks on the executor may hold at the same time.
pub struct SessionContextWrapper<C> {
    pub runtime: RuntimeHandle,
    pub inner: Arc<C>,
}

impl<C> SessionContextWrapper<C> {
    /// A context over `session` that keeps `runtime` alive.
    pub fn new(runtime: RuntimeHandle, session: C) -> (r: Self)
        ensures
            r.runtime == runtime,
            *r.inner == session,
    {
        SessionContextWrapper { runtime, inner: Arc::new(session) }
    }
}

/// Creates a context over `session`, bound to the executor behind `runtime`,
/// and stores it in `context_out`.
///
/// Without a place to store the context, or without an executor, the call is
/// `InvalidArgument` and the place is left as it was.
pub fn datafusion_context_new<C>(
    runtime: Option<&RuntimeHandle>,
    session: C,
    context_out: Option<&mut Option<SessionContextWrapper<C>>>,
) -> (r: ErrorCode)
    ensures
        r == ErrorCode::Success <==> runtime is Some && context_out is Some,
        r != ErrorCode::Success ==> r == ErrorCode::InvalidArgument,
        context_out matches Some(slot) ==> {
            &&& (r != ErrorCode::Success ==> *final(slot) == *slot)
            &&& (r == ErrorCode::Success ==> (*final(slot) matches Some(c) && c.runtime
                == *runtime->Some_0 && *c.inner == session))
        },
{
    match context_out {
        None => ErrorCode::InvalidArgument,
        Some(slot) => match ffi_ref(runtime) {
            Err(code) => code,
            Ok(handle) => {
                *slot = Some(SessionContextWrapper::new(runtime_share(handle), session));
                ErrorCode::Success
            },
        },
    }
}

/// Destroys the context that the caller keeps in `context`, and with it the
/// context's share of the executor. An empty place is a no-op. Always
/// succeeds.
pub fn datafusion_context_destroy<C>(context: &mut Option<SessionContextWrapper<C>>) -> (r:
    ErrorCode)
    ensures
        r == ErrorCode::Success,
        *final(context) is None,
{
    *context = None;
    ErrorCode::Success
}

} // verus!
