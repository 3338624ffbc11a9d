use std::sync::Arc;
use vstd::prelude::*;
use crate::error::ErrorCode;

verus! {

/// tokio's executor, carried as an opaque value.
#[verifier::external_type_specification]
#[verifier::external_body]
pub struct ExRuntime(tokio::runtime::Runtime);

/// tokio's executor builder, carried as an opaque value.
#[verifier::external_type_specification]
#[verifier::external_body]
pub struct ExBuilder(tokio::runtime::Builder);

/// The error of std with which tokio reports a failed build.
#[verifier::external_type_specification]
#[verifier::external_body]
pub struct ExIoError(std::io::Error);

/// tokio's reference to the executor that a thread is inside of.
#[verifier::external_type_specification]
#[verifier::external_body]
pub struct ExHandle(tokio::runtime::Handle);

/// tokio's error for a thread that is inside of no executor.
#[verifier::external_type_specification]
#[verifier::external_body]
pub struct ExTryCurrentError(tokio::runtime::TryCurrentError);

/// The shared handle to the background executor. Every context, result and
/// stream cursor holds one.
pub type RuntimeHandle = Arc<tokio::runtime::Runtime>;

/// The limit of blocking threads that tokio gives an executor for which none
/// was set.
pub const DEFAULT_MAX_BLOCKING_THREADS: usize = 512;

/// The sizing of the executor: the number of worker threads, and the limit
/// of blocking threads, where `None` leaves the limit to tokio's default.
#[derive(Debug, Clone, Copy, PartialEq, Eq, Structural)]
pub struct RuntimeConfig {
    pub worker_threads: usize,
    pub max_blocking_threads: Option<usize>,
}

/// A thread count as the caller gives it: zero asks for the default.
pub open spec fn spec_thread_count(n: u32) -> Option<usize> {
    if n == 0 {
        None
    } else {
        Some(n as usize)
    }
}

/// The number of worker threads of the executor: the requested number, or,
/// where zero asks for the default, the parallelism that the machine offers,
/// and one where that is not known.
pub open spec fn spec_worker_threads(worker_threads: u32, default_workers: usize) -> usize {
    if worker_threads > 0 {
        worker_threads as usize
    } else if default_workers > 0 {
        default_workers
    } else {
        1
    }
}

/// The limit of blocking threads of the executor: the requested limit, or
/// tokio's default where zero asks for it.
pub open spec fn spec_max_blocking_threads(max_blocking_threads: u32) -> usize {
    if max_blocking_threads > 0 {
        max_blocking_threads as usize
    } else {
        DEFAULT_MAX_BLOCKING_THREADS
    }
}

/// A thread count as the caller gives it: zero asks for the default.
pub fn thread_count(n: u32) -> (r: Option<usize>)
    ensures
        r == spec_thread_count(n),
        r matches Some(k) ==> k > 0 && k == n,
{
    if n > 0 {
        Some(n as usize)
    } else {
        None
    }
}

/// The sizing that the requested thread counts ask for. `default_workers` is
/// the parallelism that the machine offers, or zero where that is not known.
pub fn runtime_config(worker_threads: u32, max_blocking_threads: u32, default_workers: usize) -> (r:
    RuntimeConfig)
    ensures
        r.worker_threads == spec_worker_threads(worker_threads, default_workers),
        r.worker_threads > 0,
        r.max_blocking_threads == spec_thread_count(max_blocking_threads),
{
    let workers: usize = match thread_count(worker_threads) {
        Some(n) => n,
        None => if default_workers > 0 {
            default_workers
        } else {
            1
        },
    };
    RuntimeConfig {
        worker_threads: workers,
        max_blocking_threads: thread_count(max_blocking_threads),
    }
}

/// The number of worker threads that was set on a builder, if one was.
pub uninterp spec fn builder_workers(builder: tokio::runtime::Builder) -> Option<usize>;

/// The limit of blocking threads that a builder holds.
pub uninterp spec fn builder_max_blocking(builder: tokio::runtime::Builder) -> usize;

/// The number of worker threads that an executor was built with.
pub uninterp spec fn runtime_workers(runtime: tokio::runtime::Runtime) -> usize;

/// The limit of blocking threads that an executor was built with.
pub uninterp spec fn runtime_max_blocking(runtime: tokio::runtime::Runtime) -> usize;

/// `tokio::runtime::Builder::new_multi_thread`: a builder for the
/// multi-threaded executor with tokio's defaults: no number of worker
/// threads set, and a limit of 512 blocking threads.
#[verifier::external_body]
fn builder_new_multi_thread() -> (builder: tokio::runtime::Builder)
    ensures
        builder_workers(builder) is None,
        builder_max_blocking(builder) == DEFAULT_MAX_BLOCKING_THREADS,
{
    tokio::runtime::Builder::new_multi_thread()
}

/// `tokio::runtime::Builder::worker_threads`: sets the number of worker
/// threads and nothing else. tokio panics on zero, which the precondition
/// leaves out.
#[verifier::external_body]
fn builder_worker_threads(builder: &mut tokio::runtime::Builder, val: usize)
    requires
        val > 0,
    ensures
        builder_workers(*final(builder)) == Some(val),
        builder_max_blocking(*final(builder)) == builder_max_blocking(*old(builder)),
{
    builder.worker_threads(val);
}

/// `tokio::runtime::Builder::max_blocking_threads`: sets the limit of
/// additional blocking threads and nothing else. tokio panics on zero, which
/// the precondition leaves out.
#[verifier::external_body]
fn builder_max_blocking_threads(builder: &mut tokio::runtime::Builder, val: usize)
    requires
        val > 0,
    ensures
        builder_max_blocking(*final(builder)) == val,
        builder_workers(*final(builder)) == builder_workers(*old(builder)),
{
    builder.max_blocking_threads(val);
}

/// `tokio::runtime::Builder::enable_all`: switches on every driver that the
/// build of tokio has. The sizes stay as they are.
#[verifier::external_body]
fn builder_enable_all(builder: &mut tokio::runtime::Builder)
    ensures
        builder_workers(*final(builder)) == builder_workers(*old(builder)),
        builder_max_blocking(*final(builder)) == builder_max_blocking(*old(builder)),
{
    builder.enable_all();
}

/// `tokio::runtime::Builder::build`: creates the executor with the sizes
/// that the builder holds, or reports that the operating system did not
/// provide what its drivers need. Whether it succeeds depends on the machine.
///
/// Without a number of worker threads tokio would take one from the
/// environment and panic on a value it cannot read, so the precondition asks
/// for the number to be set. tokio adds the two sizes up, so the precondition
/// asks for the sum to fit. Where the operating system refuses a worker
/// thread tokio does not return an error but panics; no argument decides
/// that.
#[verifier::external_body]
fn builder_build(builder: &mut tokio::runtime::Builder) -> (r: Result<
    tokio::runtime::Runtime,
    std::io::Error,
>)
    requires
        builder_workers(*old(builder)) is Some,
        builder_workers(*old(builder))->Some_0 + builder_max_blocking(*old(builder)) <= usize::MAX,
    ensures
        r matches Ok(runtime) ==> runtime_workers(runtime) == builder_workers(
            *old(builder),
        )->Some_0 && runtime_max_blocking(runtime) == builder_max_blocking(*old(builder)),
        builder_workers(*final(builder)) == builder_workers(*old(builder)),
        builder_max_blocking(*final(builder)) == builder_max_blocking(*old(builder)),
{
    builder.build()
}

/// `Arc::try_unwrap` of std: gives the executor back where this handle is the
/// only one, and the same handle otherwise. Which of the two happens depends
/// on who else holds a handle.
#[verifier::external_body]
fn handle_try_unwrap(handle: RuntimeHandle) -> (r: Result<tokio::runtime::Runtime, RuntimeHandle>)
    ensures
        r matches Ok(runtime) ==> runtime == *handle,
        r matches Err(h) ==> h == handle,
{
    Arc::try_unwrap(handle)
}

/// `Arc::clone` of std: one more handle to the same executor.
#[verifier::external_body]
fn handle_clone(handle: &RuntimeHandle) -> (r: RuntimeHandle)
    ensures
        r == *handle,
{
    Arc::clone(handle)
}

/// `tokio::runtime::Runtime::shutdown_background`: shuts the executor down
/// without waiting for outstanding work. It never blocks.
#[verifier::external_body]
fn runtime_shutdown_background(runtime: tokio::runtime::Runtime) {
    runtime.shutdown_background();
}

/// `tokio::runtime::Runtime::shutdown_timeout`: shuts the executor down and
/// waits for outstanding work, for at most the given number of milliseconds.
/// tokio panics where this waits on a thread that is itself driving an
/// executor; `runtime_shutdown` calls it only after
/// `tokio::runtime::Handle::try_current` found no executor on the thread.
#[verifier::external_body]
fn runtime_shutdown_timeout(runtime: tokio::runtime::Runtime, timeout_millis: u64)
    requires
        timeout_millis > 0,
{
    runtime.shutdown_timeout(std::time::Duration::from_millis(timeout_millis));
}

/// `tokio::runtime::Handle::try_current`: the executor that the calling
/// thread is inside of, or an error where it is inside of none. The answer
/// depends on the thread, so nothing is claimed of it.
#[verifier::external_body]
fn handle_try_current() -> (r: Result<tokio::runtime::Handle, tokio::runtime::TryCurrentError>) {
    tokio::runtime::Handle::try_current()
}

/// Shuts the executor down. With a timeout it waits that long for
/// outstanding work, unless the calling thread is inside an executor, where
/// waiting is not allowed: there, and without a timeout, it does not wait.
fn runtime_shutdown(runtime: tokio::runtime::Runtime, timeout_millis: u64) {
    if timeout_millis == 0 {
        runtime_shutdown_background(runtime);
    } else {
        match handle_try_current() {
            Ok(_) => runtime_shutdown_background(runtime),
            Err(_) => runtime_shutdown_timeout(runtime, timeout_millis),
        }
    }
}

/// What creating the executor reports: the handle, or
/// `RuntimeInitializationFailed` where the build failed.
pub fn runtime_created(built: Result<tokio::runtime::Runtime, std::io::Error>) -> (r: Result<
    RuntimeHandle,
    ErrorCode,
>)
    ensures
        built is Ok <==> r is Ok,
        built matches Ok(runtime) ==> *r->Ok_0 == runtime,
        built is Err ==> r == Err::<RuntimeHandle, ErrorCode>(
            ErrorCode::RuntimeInitializationFailed,
        ),
{
    match built {
        Ok(runtime) => Ok(Arc::new(runtime)),
        Err(_) => Err(ErrorCode::RuntimeInitializationFailed),
    }
}

/// Creates the multi-threaded background executor.
///
/// A worker count of zero asks for the default, which is `default_workers`:
/// the parallelism that the machine offers, as the caller found it, or one
/// where the caller gives zero. A blocking limit of zero leaves the limit to
/// tokio's default. The executor is built with exactly these sizes. The only
/// failure is `RuntimeInitializationFailed`, and then nothing was created;
/// sizes whose sum does not fit the machine's word always fail.
pub fn runtime_new(worker_threads: u32, max_blocking_threads: u32, default_workers: usize) -> (r:
    Result<RuntimeHandle, ErrorCode>)
    ensures
        r matches Err(code) ==> code == ErrorCode::RuntimeInitializationFailed,
        spec_worker_threads(worker_threads, default_workers) + spec_max_blocking_threads(
            max_blocking_threads,
        ) > usize::MAX ==> r is Err,
        r matches Ok(handle) ==> runtime_workers(*handle) == spec_worker_threads(
            worker_threads,
            default_workers,
        ) && runtime_max_blocking(*handle) == spec_max_blocking_threads(max_blocking_threads),
{
    let config = runtime_config(worker_threads, max_blocking_threads, default_workers);
    let blocking: usize = match config.max_blocking_threads {
        Some(n) => n,
        None => DEFAULT_MAX_BLOCKING_THREADS,
    };
    if config.worker_threads > usize::MAX - blocking {
        return Err(ErrorCode::RuntimeInitializationFailed);
    }
    let mut builder = builder_new_multi_thread();
    builder_worker_threads(&mut builder, config.worker_threads);
    if let Some(n) = config.max_blocking_threads {
        builder_max_blocking_threads(&mut builder, n);
    }
    builder_enable_all(&mut builder);
    runtime_created(builder_build(&mut builder))
}

/// One more handle to the executor, for a context, result or cursor that is
/// derived from `handle`.
pub fn runtime_share(handle: &RuntimeHandle) -> (r: RuntimeHandle)
    ensures
        r == *handle,
{
    handle_clone(handle)
}

/// What destroying the executor reports, given what became of the handle:
/// success where the handle was the last one, `RuntimeShutdownFailed` with
/// the handle handed back where others are outstanding.
pub fn runtime_released(unwrapped: Result<tokio::runtime::Runtime, RuntimeHandle>) -> (r: (
    ErrorCode,
    Option<tokio::runtime::Runtime>,
    Option<RuntimeHandle>,
))
    ensures
        unwrapped matches Ok(runtime) ==> r == (
            ErrorCode::Success,
            Some(runtime),
            None::<RuntimeHandle>,
        ),
        unwrapped matches Err(handle) ==> r == (
            ErrorCode::RuntimeShutdownFailed,
            None::<tokio::runtime::Runtime>,
            Some(handle),
        ),
{
    match unwrapped {
        Ok(runtime) => (ErrorCode::Success, Some(runtime), None),
        Err(handle) => (ErrorCode::RuntimeShutdownFailed, None, Some(handle)),
    }
}

/// Destroys the executor behind `handle`.
///
/// Without a handle this is a no-op that succeeds. With one, the executor is
/// shut down where no other handle is outstanding, waiting at most
/// `timeout_millis` for work in flight; otherwise the call is refused with
/// `RuntimeShutdownFailed` and the handle is handed back, still valid.
pub fn runtime_destroy(handle: Option<RuntimeHandle>, timeout_millis: u64) -> (r: (
    ErrorCode,
    Option<RuntimeHandle>,
))
    ensures
        handle is None ==> r == (ErrorCode::Success, None::<RuntimeHandle>),
        r.0 == ErrorCode::Success || r.0 == ErrorCode::RuntimeShutdownFailed,
        r.0 == ErrorCode::Success <==> r.1 is None,
        r.1 matches Some(h) ==> handle == Some(h),
{
    match handle {
        None => (ErrorCode::Success, None),
        Some(handle) => {
            let (code, runtime, refused) = runtime_released(handle_try_unwrap(handle));
            if let Some(runtime) = runtime {
                runtime_shutdown(runtime, timeout_millis);
            }
            (code, refused)
        },
    }
}

/// Creates the executor and stores its handle in `runtime_out`.
///
/// Without a place to store the handle the call is `InvalidArgument` and
/// nothing is created. Where creation fails the call is
/// `RuntimeInitializationFailed` and the place is left as it was. On success
/// the place holds the handle of an executor with the sizes that
/// `runtime_new` describes.
pub fn datafusion_runtime_new(
    worker_threads: u32,
    max_blocking_threads: u32,
    default_workers: usize,
    runtime_out: Option<&mut Option<RuntimeHandle>>,
) -> (r: ErrorCode)
    ensures
        runtime_out is None ==> r == ErrorCode::InvalidArgument,
        runtime_out matches Some(slot) ==> {
            &&& (r == ErrorCode::Success || r == ErrorCode::RuntimeInitializationFailed)
            &&& (r == ErrorCode::Success ==> (*final(slot) matches Some(handle) && runtime_workers(
                *handle,
            ) == spec_worker_threads(worker_threads, default_workers) && runtime_max_blocking(
                *handle,
            ) == spec_max_blocking_threads(max_blocking_threads)))
            &&& (r != ErrorCode::Success ==> *final(slot) == *slot)
            &&& (spec_worker_threads(worker_threads, default_workers)
                + spec_max_blocking_threads(max_blocking_threads) > usize::MAX ==> r
                == ErrorCode::RuntimeInitializationFailed)
        },
{
    match runtime_out {
        None => ErrorCode::InvalidArgument,
        Some(slot) => match runtime_new(worker_threads, max_blocking_threads, default_workers) {
            Ok(handle) => {
                *slot = Some(handle);
                ErrorCode::Success
            },
            Err(code) => code,
        },
    }
}

/// Destroys the executor whose handle the caller keeps in `runtime`.
///
/// An empty place is a no-op that succeeds, so destroying twice is harmless.
/// Where other handles are outstanding the call is refused with
/// `RuntimeShutdownFailed` and the place keeps its handle. Otherwise the
/// executor is shut down, waiting at most `timeout_millis` for work in
/// flight, and the place is left empty.
pub fn datafusion_runtime_destroy(runtime: &mut Option<RuntimeHandle>, timeout_millis: u64) -> (r:
    ErrorCode)
    ensures
        *old(runtime) is None ==> r == ErrorCode::Success,
        r == ErrorCode::Success || r == ErrorCode::RuntimeShutdownFailed,
        r == ErrorCode::Success <==> *final(runtime) is None,
        r == ErrorCode::RuntimeShutdownFailed ==> *final(runtime) == *old(runtime),
{
    let handle = runtime.take();
    let (code, refused) = runtime_destroy(handle, timeout_millis);
    *runtime = refused;
    code
}

} // verus!
