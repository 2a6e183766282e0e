//! Trusted boundary to the acquisition backend (the `memprocfs` crate) and
//! to the one `std` conversion that vstd leaves unspecified.
//!
//! Every function here is `external_body`: its body makes exactly one outside
//! call (plus argument/result conversion) and its contract states only what
//! the backend's own source shows for every outcome. Everything the crate
//! proves about sessions, processes and scatter batches rests on these
//! contracts.

use vstd::prelude::*;
use vstd::string::StringSliceAdditionalSpecFns;
use vstd::utf8::decode_utf8;
use vstd::utf8::valid_utf8;

verus! {

#[verifier::external_type_specification]
#[verifier::external_body]
pub struct ExVmm<'a>(memprocfs::Vmm<'a>);

#[verifier::external_type_specification]
#[verifier::external_body]
pub struct ExVmmProcess<'a>(memprocfs::VmmProcess<'a>);

#[verifier::external_type_specification]
#[verifier::external_body]
pub struct ExVmmScatterMemory<'a>(memprocfs::VmmScatterMemory<'a>);

/// Relies on `memprocfs::Vmm::new`: loads the native backend library at
/// `vmm_lib_path` and opens the acquisition device named by `device`
/// (passed through the backend's `-device` switch, waiting for
/// initialization to finish). Success depends on the machine, so nothing is
/// promised of the outcome. The backend converts each argument with
/// `CString::new(..).unwrap()`, which aborts on an interior NUL byte: the
/// `requires` excludes such a locator (the other arguments are fixed
/// NUL-free switches). The backend also unwraps `parent()` of the
/// canonicalized library path, which aborts when the path resolves to the
/// filesystem root — no condition on the string alone can name that set
/// (symlinks), so the body refuses such a path with an error before the
/// call.
#[verifier::external_body]
pub(crate) fn vmm_new<'a>(vmm_lib_path: &str, device: &str) -> (r: Result<
    memprocfs::Vmm<'a>,
    String,
>)
    requires
        forall|i: int| 0 <= i < device.spec_bytes().len() ==> device.spec_bytes()[i] != 0,
{
    if let Ok(resolved) = std::path::Path::new(vmm_lib_path).canonicalize() {
        if resolved.parent().is_none() {
            return Err("library path resolves to the filesystem root".to_string());
        }
    }
    let args = vec!["-device", device, "-waitinitialize"];
    memprocfs::Vmm::new(vmm_lib_path, &args).map_err(|e| e.to_string())
}

/// Relies on `memprocfs::Vmm::process_list`: returns handles for the
/// processes visible to the backend at call time. Which processes exist
/// depends on the target, so nothing is promised of the outcome.
#[verifier::external_body]
pub(crate) fn vmm_process_list<'a>(vmm: &'a memprocfs::Vmm<'a>) -> (r: Result<
    Vec<memprocfs::VmmProcess<'a>>,
    String,
>) {
    vmm.process_list().map_err(|e| e.to_string())
}

/// Relies on `memprocfs::Vmm::process_from_name`: resolves the first process
/// whose name matches, as located by the backend. Which process (if any)
/// matches depends on the target, so nothing is promised of the outcome.
#[verifier::external_body]
pub(crate) fn vmm_process_from_name<'a>(vmm: &'a memprocfs::Vmm<'a>, name: &str) -> (r: Result<
    memprocfs::VmmProcess<'a>,
    String,
>) {
    vmm.process_from_name(name).map_err(|e| e.to_string())
}

/// Relies on `memprocfs::Vmm::process_from_pid`: checks that `pid` exists in
/// the backend's process list and returns a handle bound to exactly that
/// `pid` (the handle is constructed from the argument itself).
#[verifier::external_body]
pub(crate) fn vmm_process_from_pid<'a>(vmm: &'a memprocfs::Vmm<'a>, pid: u32) -> (r: Result<
    memprocfs::VmmProcess<'a>,
    String,
>) {
    vmm.process_from_pid(pid).map_err(|e| e.to_string())
}

/// Relies on the public `pid` field of `memprocfs::VmmProcess`: the process
/// id the handle is bound to. Its value was fixed when the handle was
/// resolved, so nothing further is promised of it.
#[verifier::external_body]
pub(crate) fn proc_pid<'a>(process: &memprocfs::VmmProcess<'a>) -> (r: u32) {
    process.pid
}

/// Relies on `memprocfs::VmmProcess::info`: queries the backend for the
/// process's metadata; returns its name and parent pid. The values come from
/// the target's kernel structures, so nothing is promised of the outcome.
#[verifier::external_body]
pub(crate) fn proc_info<'a>(process: &memprocfs::VmmProcess<'a>) -> (r: Result<
    (String, u32),
    String,
>) {
    match process.info() {
        Ok(i) => Ok((i.name, i.ppid)),
        Err(e) => Err(e.to_string()),
    }
}

/// Relies on `memprocfs::VmmProcess::get_path_kernel`: the kernel-mode image
/// path of the process, best effort. Nothing is promised of the outcome.
#[verifier::external_body]
pub(crate) fn proc_path_kernel<'a>(process: &memprocfs::VmmProcess<'a>) -> (r: Result<
    String,
    String,
>) {
    process.get_path_kernel().map_err(|e| e.to_string())
}

/// Relies on `memprocfs::VmmProcess::mem_read`: reads `size` bytes of the
/// process's virtual memory starting at `address`. On success the backend
/// returns a buffer of exactly `size` bytes (it allocates `vec![0u8; size]`
/// and returns it whole).
#[verifier::external_body]
pub(crate) fn proc_mem_read<'a>(
    process: &memprocfs::VmmProcess<'a>,
    address: u64,
    size: usize,
) -> (r: Result<Vec<u8>, String>)
    ensures
        r matches Ok(b) ==> b@.len() == size,
{
    process.mem_read(address, size).map_err(|e| e.to_string())
}

/// Relies on `memprocfs::VmmProcess::mem_write`: writes `data` to the
/// process's virtual memory at `address`. Whether the target accepts the
/// write depends on the device, so nothing is promised of the outcome.
#[verifier::external_body]
pub(crate) fn proc_mem_write<'a>(
    process: &memprocfs::VmmProcess<'a>,
    address: u64,
    data: &[u8],
) -> (r: Result<(), String>) {
    process.mem_write(address, data).map_err(|e| e.to_string())
}

/// Relies on `memprocfs::VmmProcess::mem_scatter`: initializes an empty
/// scatter transaction against this process in the backend.
#[verifier::external_body]
pub(crate) fn proc_mem_scatter<'a>(process: &'a memprocfs::VmmProcess<'a>, flags: u64) -> (r:
    Result<memprocfs::VmmScatterMemory<'a>, String>) {
    process.mem_scatter(flags).map_err(|e| e.to_string())
}

/// Relies on `memprocfs::VmmProcess::get_module_base`: resolves the base
/// address of the named loaded module. The backend returns an error instead
/// of the sentinel value zero, so a successful result is nonzero.
#[verifier::external_body]
pub(crate) fn proc_module_base<'a>(process: &memprocfs::VmmProcess<'a>, module_name: &str) -> (r:
    Result<u64, String>)
    ensures
        r matches Ok(a) ==> a != 0,
{
    process.get_module_base(module_name).map_err(|e| e.to_string())
}

/// Relies on `memprocfs::VmmProcess::get_proc_address`: resolves the address
/// of an exported symbol by walking the target module's export directory.
/// The backend returns an error instead of the sentinel value zero, so a
/// successful result is nonzero.
#[verifier::external_body]
pub(crate) fn proc_proc_address<'a>(
    process: &memprocfs::VmmProcess<'a>,
    module_name: &str,
    function_name: &str,
) -> (r: Result<u64, String>)
    ensures
        r matches Ok(a) ==> a != 0,
{
    process.get_proc_address(module_name, function_name).map_err(|e| e.to_string())
}

/// Relies on `memprocfs::VmmProcess::map_module`: enumerates the process's
/// loaded modules; each is handed out as its
/// (name, base, image size, entry point, full path) fields. The set of
/// modules depends on the target, so nothing is promised of the outcome.
#[verifier::external_body]
pub(crate) fn proc_map_module<'a>(
    process: &memprocfs::VmmProcess<'a>,
    is_info_debug: bool,
    is_info_version: bool,
) -> (r: Result<Vec<(String, u64, u32, u64, String)>, String>) {
    match process.map_module(is_info_debug, is_info_version) {
        Ok(entries) => Ok(
            entries.into_iter().map(
                |m| (m.name, m.va_base, m.image_size, m.va_entry, m.full_name),
            ).collect(),
        ),
        Err(e) => Err(e.to_string()),
    }
}

/// Relies on `memprocfs::VmmScatterMemory::prepare`: registers a read range
/// with the backend's pending scatter transaction. No memory is accessed yet.
#[verifier::external_body]
pub(crate) fn scatter_prepare<'a>(
    scatter: &memprocfs::VmmScatterMemory<'a>,
    address: u64,
    size: usize,
) -> (r: Result<(), String>) {
    scatter.prepare(address, size).map_err(|e| e.to_string())
}

/// Relies on `memprocfs::VmmScatterMemory::prepare_write`: registers a
/// write of `data` at `address` with the backend's pending scatter
/// transaction. No memory is accessed yet; the write is applied when the
/// transaction executes.
#[verifier::external_body]
pub(crate) fn scatter_prepare_write<'a>(
    scatter: &memprocfs::VmmScatterMemory<'a>,
    address: u64,
    data: &[u8],
) -> (r: Result<(), String>) {
    scatter.prepare_write(address, data).map_err(|e| e.to_string())
}

/// Relies on `memprocfs::VmmScatterMemory::prepare_ex`: registers a read
/// range whose result the backend writes directly into the caller-owned
/// tuple (address, buffer, bytes-read) when the transaction executes. The
/// backend rejects (it does not panic on) a tuple whose bytes-read field is
/// not zero.
#[verifier::external_body]
pub(crate) fn scatter_prepare_ex<'a>(
    scatter: &mut memprocfs::VmmScatterMemory<'a>,
    data_to_read: &'a mut (u64, Vec<u8>, u32),
) -> (r: Result<(), String>) {
    scatter.prepare_ex(data_to_read).map_err(|e| e.to_string())
}

/// Relies on `memprocfs::VmmScatterMemory::execute`: submits every prepared
/// range to the device in one batched transaction. Individual ranges may
/// succeed or fail silently; per-range outcomes are observed by reading them
/// back, so nothing is promised of the outcome here.
#[verifier::external_body]
pub(crate) fn scatter_execute<'a>(scatter: &memprocfs::VmmScatterMemory<'a>) -> (r: Result<
    (),
    String,
>) {
    scatter.execute().map_err(|e| e.to_string())
}

/// Relies on `memprocfs::VmmScatterMemory::read`: after `execute`, copies
/// `size` bytes at `address` out of the transaction's local buffers (no
/// device round trip). On success the backend returns a buffer of exactly
/// `size` bytes (it allocates `vec![0u8; size]` and returns it whole); it
/// fails for ranges the transaction did not satisfy.
#[verifier::external_body]
pub(crate) fn scatter_read<'a>(
    scatter: &memprocfs::VmmScatterMemory<'a>,
    address: u64,
    size: usize,
) -> (r: Result<Vec<u8>, String>)
    ensures
        r matches Ok(b) ==> b@.len() == size,
{
    scatter.read(address, size).map_err(|e| e.to_string())
}

/// Relies on `memprocfs::VmmScatterMemory::clear`: discards the backend's
/// pending and completed ranges so the transaction can be reused.
#[verifier::external_body]
pub(crate) fn scatter_clear<'a>(scatter: &memprocfs::VmmScatterMemory<'a>) -> (r: Result<
    (),
    String,
>) {
    scatter.clear().map_err(|e| e.to_string())
}

/// Relies on `String::from_utf8` of `std`: succeeds exactly when `bytes` is
/// valid UTF-8 and then returns the string those bytes encode, stated with
/// vstd's UTF-8 model.
#[verifier::external_body]
pub(crate) fn utf8_to_string(bytes: Vec<u8>) -> (r: Option<String>)
    ensures
        r is Some <==> valid_utf8(bytes@),
        r matches Some(s) ==> s@ == decode_utf8(bytes@),
{
    String::from_utf8(bytes).ok()
}

} // verus!
