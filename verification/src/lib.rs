//! Safe, contract-checked access to a raw physical-memory acquisition
//! channel (a DMA device or a captured memory image): process enumeration,
//! module resolution, typed memory reads and writes, and a scatter/batch
//! subsystem that coalesces many independent reads into one device round
//! trip.
//!
//! The acquisition backend itself is an external collaborator, reached only
//! through the trusted boundary in `backend`; everything this crate decides
//! on its own — marshaling of fixed-layout values, C-string decoding, error
//! context, and the scatter batch's prepare/execute/retrieve bookkeeping —
//! is verified.

use vstd::prelude::*;
use vstd::string::StringExecFns;
use vstd::string::StringSliceAdditionalSpecFns;
use vstd::utf8::decode_utf8;
use vstd::utf8::valid_utf8;

mod backend;
pub mod embedded;
pub mod error;
pub mod layout;
pub mod scatter;
pub mod text;

pub use error::DmaError;
pub use layout::FixedLayout;
pub use scatter::ScatterHandle;
pub use text::decode_c_string;

use text::c_prefix;
use text::dec_digits;
use text::dec_string;
use text::has_prefix;
use text::hex_digits;
use text::hex_string;
use text::prefixed_message;

verus! {

/// Immutable snapshot of one process visible to the acquisition backend,
/// taken at query time and never kept live.
#[derive(Debug, Clone)]
pub struct ProcessInfo {
    pub pid: u32,
    pub name: String,
    pub ppid: u32,
    pub path: String,
}

/// Snapshot of one loaded module (executable image) in a process's address
/// space. Becomes stale if the target unloads or reloads the module; the
/// backend gives no invalidation signal, so callers re-query when needed.
#[derive(Debug, Clone)]
pub struct Module {
    pub name: String,
    pub base: u64,
    pub size: usize,
    pub entry: u64,
    pub path: String,
}

/// Builds a process snapshot from the parts the backend hands back: the pid
/// the handle is bound to, the queried name and parent pid, and the
/// best-effort kernel path (absence is not an error and becomes the empty
/// string). Every field of the result is fixed by the arguments.
pub fn assemble_process_info(pid: u32, name: String, ppid: u32, path: Result<String, String>) -> (r:
    ProcessInfo)
    ensures
        r.pid == pid,
        r.name == name,
        r.ppid == ppid,
        (match path {
            Ok(p) => r.path == p,
            Err(_) => r.path@ == Seq::<char>::empty(),
        }),
{
    let path_value = match path {
        Ok(p) => p,
        Err(_) => String::new(),
    };
    ProcessInfo { pid, name, ppid, path: path_value }
}

/// Converts the backend's module records — (name, base, image size, entry
/// point, full path) — into module snapshots, one for one, in order, copying
/// each field without alteration.
pub fn modules_from_entries(entries: &Vec<(String, u64, u32, u64, String)>) -> (r: Vec<Module>)
    ensures
        r@.len() == entries@.len(),
        forall|i: int|
            0 <= i < entries@.len() ==> {
                let e = #[trigger] entries@[i];
                let m = r@[i];
                &&& m.name == e.0
                &&& m.base == e.1
                &&& m.size == e.2 as usize
                &&& m.entry == e.3
                &&& m.path == e.4
            },
{
    let mut out: Vec<Module> = Vec::new();
    let mut i: usize = 0;
    while i < entries.len()
        invariant
            0 <= i <= entries@.len(),
            out@.len() == i,
            forall|k: int|
                0 <= k < i ==> {
                    let e = #[trigger] entries@[k];
                    let m = out@[k];
                    &&& m.name == e.0
                    &&& m.base == e.1
                    &&& m.size == e.2 as usize
                    &&& m.entry == e.3
                    &&& m.path == e.4
                },
        decreases entries@.len() - i,
    {
        let entry = &entries[i];
        out.push(
            Module {
                name: entry.0.clone(),
                base: entry.1,
                size: entry.2 as usize,
                entry: entry.3,
                path: entry.4.clone(),
            },
        );
        i = i + 1;
    }
    out
}

/// A session with the acquisition backend: owns the single backend
/// connection and exposes process discovery and attachment. Process handles
/// and scatter batches borrow the connection and never outlive the session.
pub struct Dma<'a> {
    vmm: memprocfs::Vmm<'a>,
}

impl<'a> Dma<'a> {
    /// Opens the acquisition backend: loads the native backend library at
    /// `vmm_lib_path` (see `embedded::get_vmm_dll_path`) and connects to the
    /// device or image named by the `device` locator, an opaque
    /// configuration value interpreted entirely by the backend. Fails, with
    /// an initialization error, whenever the backend cannot initialize
    /// (device absent, driver missing, image unreadable) — also for a
    /// locator holding a NUL byte, which the backend's argument conversion
    /// could not carry.
    pub fn new(device: &str, vmm_lib_path: &str) -> (r: Result<Dma<'a>, DmaError>)
        ensures
            r matches Err(e) ==> e is InitFailed,
            (exists|i: int|
                0 <= i < device.spec_bytes().len() && device.spec_bytes()[i] == 0) ==> r is Err,
    {
        let dbytes = device.as_bytes();
        let mut i: usize = 0;
        while i < dbytes.len()
            invariant
                0 <= i <= dbytes@.len(),
                dbytes@ == device.spec_bytes(),
                forall|j: int| 0 <= j < i ==> dbytes@[j] != 0,
            decreases dbytes@.len() - i,
        {
            if dbytes[i] == 0 {
                return Err(
                    DmaError::InitFailed(String::from_str("device locator contains a NUL byte")),
                );
            }
            i = i + 1;
        }
        match backend::vmm_new(vmm_lib_path, device) {
            Ok(vmm) => Ok(Dma { vmm }),
            Err(e) => Err(DmaError::InitFailed(e)),
        }
    }

    /// Snapshot of all processes visible to the backend at call time.
    /// A process whose metadata query fails is skipped, not an error, and
    /// the invalid process selector zero never appears in the result. Each
    /// entry is assembled field for field by `assemble_process_info`.
    pub fn list_processes(&self) -> (r: Result<Vec<ProcessInfo>, DmaError>)
        ensures
            r matches Ok(ps) ==> forall|i: int|
                0 <= i < ps@.len() ==> (#[trigger] ps@[i]).pid != 0,
            r matches Err(e) ==> e is ProcessError,
    {
        let procs = match backend::vmm_process_list(&self.vmm) {
            Ok(p) => p,
            Err(e) => {
                return Err(DmaError::ProcessError(e));
            },
        };
        let mut out: Vec<ProcessInfo> = Vec::new();
        let mut i: usize = 0;
        while i < procs.len()
            invariant
                0 <= i <= procs@.len(),
                forall|k: int| 0 <= k < out@.len() ==> (#[trigger] out@[k]).pid != 0,
            decreases procs@.len() - i,
        {
            let p = &procs[i];
            let pid: u32 = backend::proc_pid(p);
            if pid != 0 {
                match backend::proc_info(p) {
                    Ok((name, ppid)) => {
                        out.push(
                            assemble_process_info(pid, name, ppid, backend::proc_path_kernel(p)),
                        );
                    },
                    Err(_) => {},
                }
            }
            i = i + 1;
        }
        Ok(out)
    }

    /// Attaches to the first process whose name matches `name` exactly, as
    /// located by the backend; when several processes share the name, which
    /// one is resolved is the backend's choice (a documented ambiguity). A
    /// failure names the sought process in its message.
    pub fn attach(&'a self, name: &str) -> (r: Result<Process<'a>, DmaError>)
        ensures
            r matches Err(e) ==> e is ProcessError && has_prefix(
                e.message_view(),
                "Process '"@ + name@ + "' not found: "@,
            ),
    {
        match backend::vmm_process_from_name(&self.vmm, name) {
            Ok(p) => {
                let pid: u32 = backend::proc_pid(&p);
                Ok(Process { inner: p, pid })
            },
            Err(e) => {
                let mut context = String::from_str("Process '");
                context.append(name);
                context.append("' not found: ");
                Err(DmaError::ProcessError(prefixed_message(context, e.as_str())))
            },
        }
    }

    /// Attaches to the process with the given pid. On success the handle is
    /// bound to exactly that pid; a failure names the pid in its message.
    pub fn attach_pid(&'a self, pid: u32) -> (r: Result<Process<'a>, DmaError>)
        ensures
            r matches Ok(p) ==> p.pid_spec() == pid,
            r matches Err(e) ==> e is ProcessError && has_prefix(
                e.message_view(),
                "PID "@ + dec_digits(pid as nat) + " not found: "@,
            ),
    {
        match backend::vmm_process_from_pid(&self.vmm, pid) {
            Ok(p) => Ok(Process { inner: p, pid }),
            Err(e) => {
                let mut context = String::from_str("PID ");
                let rendered = dec_string(pid as u64);
                context.append(rendered.as_str());
                context.append(" not found: ");
                Err(DmaError::ProcessError(prefixed_message(context, e.as_str())))
            },
        }
    }

    /// Resolves a process by name and returns its metadata snapshot —
    /// assembled field for field by `assemble_process_info` — in one call,
    /// without keeping a handle. A lookup failure names the sought process
    /// in its message.
    pub fn get_process_info(&self, name: &str) -> (r: Result<ProcessInfo, DmaError>)
        ensures
            r matches Err(e) ==> e is ProcessError,
    {
        let p = match backend::vmm_process_from_name(&self.vmm, name) {
            Ok(p) => p,
            Err(e) => {
                let mut context = String::from_str("Process '");
                context.append(name);
                context.append("' not found: ");
                return Err(DmaError::ProcessError(prefixed_message(context, e.as_str())));
            },
        };
        let pid: u32 = backend::proc_pid(&p);
        match backend::proc_info(&p) {
            Ok((proc_name, ppid)) => Ok(
                assemble_process_info(pid, proc_name, ppid, backend::proc_path_kernel(&p)),
            ),
            Err(e) => Err(DmaError::ProcessError(e)),
        }
    }

    /// The underlying backend connection, for callers that need backend
    /// facilities this layer does not wrap.
    pub fn vmm(&self) -> &memprocfs::Vmm<'a> {
        &self.vmm
    }
}

/// A handle bound to one resolved process: module enumeration, symbol
/// resolution, and typed or raw reads and writes against that process's
/// address space. The pid is resolved exactly once, at attach time, and
/// never re-resolved.
pub struct Process<'a> {
    inner: memprocfs::VmmProcess<'a>,
    pid: u32,
}

impl<'a> Process<'a> {
    /// The pid this handle was bound to when it was resolved.
    pub closed spec fn pid_spec(&self) -> u32 {
        self.pid
    }

    /// Returns the pid this handle is bound to.
    pub fn pid(&self) -> (r: u32)
        ensures
            r == self.pid_spec(),
    {
        self.pid
    }

    /// Metadata snapshot of the attached process, assembled field for field
    /// by `assemble_process_info`; its pid field is the pid this handle is
    /// bound to.
    pub fn info(&self) -> (r: Result<ProcessInfo, DmaError>)
        ensures
            r matches Ok(info) ==> info.pid == self.pid_spec(),
            r matches Err(e) ==> e is ProcessError,
    {
        match backend::proc_info(&self.inner) {
            Ok((name, ppid)) => Ok(
                assemble_process_info(self.pid, name, ppid, backend::proc_path_kernel(&self.inner)),
            ),
            Err(e) => Err(DmaError::ProcessError(e)),
        }
    }

    /// Reads a fixed-layout value from `address`: exactly `T`'s byte width
    /// is requested, and the bytes a successful read returns are marshaled
    /// back through `T`'s little-endian layout (`FixedLayout::from_le_bytes`
    /// carries the exact marshaling contract). Whether the read succeeds is
    /// the device's to decide; a failure names the address in its message.
    pub fn read<T: FixedLayout>(&self, address: u64) -> (r: Result<T, DmaError>)
        ensures
            r matches Err(e) ==> e is MemoryError && has_prefix(
                e.message_view(),
                "Read failed at 0x"@ + hex_digits(address as nat) + ": "@,
            ),
    {
        let size: usize = T::byte_size();
        match backend::proc_mem_read(&self.inner, address, size) {
            Ok(bytes) => Ok(T::from_le_bytes(bytes.as_slice())),
            Err(e) => {
                let mut context = String::from_str("Read failed at 0x");
                let rendered = hex_string(address);
                context.append(rendered.as_str());
                context.append(": ");
                Err(DmaError::MemoryError(prefixed_message(context, e.as_str())))
            },
        }
    }

    /// Reads `size` raw bytes at `address`. There is no partial-success
    /// result: a successful read returns exactly `size` bytes, and a failure
    /// names the requested size and address in its message.
    pub fn read_bytes(&self, address: u64, size: usize) -> (r: Result<Vec<u8>, DmaError>)
        ensures
            r matches Ok(b) ==> b@.len() == size,
            r matches Err(e) ==> e is MemoryError && has_prefix(
                e.message_view(),
                "Read "@ + dec_digits(size as nat) + " bytes failed at 0x"@ + hex_digits(
                    address as nat,
                ) + ": "@,
            ),
    {
        match backend::proc_mem_read(&self.inner, address, size) {
            Ok(bytes) => Ok(bytes),
            Err(e) => {
                let mut context = String::from_str("Read ");
                let count = dec_string(size as u64);
                context.append(count.as_str());
                context.append(" bytes failed at 0x");
                let rendered = hex_string(address);
                context.append(rendered.as_str());
                context.append(": ");
                Err(DmaError::MemoryError(prefixed_message(context, e.as_str())))
            },
        }
    }

    /// Writes a fixed-layout value to `address`: exactly `T`'s little-endian
    /// byte image (`FixedLayout::to_le_bytes`) is handed to the device in one
    /// call, with no partial-success result. A failure names the address in
    /// its message.
    pub fn write<T: FixedLayout>(&self, address: u64, value: &T) -> (r: Result<(), DmaError>)
        ensures
            r matches Err(e) ==> e is MemoryError && has_prefix(
                e.message_view(),
                "Write failed at 0x"@ + hex_digits(address as nat) + ": "@,
            ),
    {
        let bytes = value.to_le_bytes();
        match backend::proc_mem_write(&self.inner, address, bytes.as_slice()) {
            Ok(_) => Ok(()),
            Err(e) => {
                let mut context = String::from_str("Write failed at 0x");
                let rendered = hex_string(address);
                context.append(rendered.as_str());
                context.append(": ");
                Err(DmaError::MemoryError(prefixed_message(context, e.as_str())))
            },
        }
    }

    /// Writes raw bytes to `address`, handing the whole range to the device
    /// in one call, with no partial-success result. A failure names the byte
    /// count and address in its message.
    pub fn write_bytes(&self, address: u64, data: &[u8]) -> (r: Result<(), DmaError>)
        ensures
            r matches Err(e) ==> e is MemoryError && has_prefix(
                e.message_view(),
                "Write "@ + dec_digits(data@.len() as nat) + " bytes failed at 0x"@ + hex_digits(
                    address as nat,
                ) + ": "@,
            ),
    {
        match backend::proc_mem_write(&self.inner, address, data) {
            Ok(_) => Ok(()),
            Err(e) => {
                let mut context = String::from_str("Write ");
                let count = dec_string(data.len() as u64);
                context.append(count.as_str());
                context.append(" bytes failed at 0x");
                let rendered = hex_string(address);
                context.append(rendered.as_str());
                context.append(": ");
                Err(DmaError::MemoryError(prefixed_message(context, e.as_str())))
            },
        }
    }

    /// Opens an empty scatter batch against this process, for coalescing
    /// many independent reads into one device transaction.
    pub fn scatter(&'a self) -> (r: Result<ScatterHandle<'a>, DmaError>)
        ensures
            r matches Ok(s) ==> s.pending_view().len() == 0 && s.pending_writes_view().len() == 0
                && s.captured_view().len() == 0 && !s.executed_view(),
            r matches Err(e) ==> e is MemoryError && has_prefix(
                e.message_view(),
                "Failed to create scatter handle: "@,
            ),
    {
        match backend::proc_mem_scatter(&self.inner, 0) {
            Ok(s) => Ok(ScatterHandle::from_backend(s)),
            Err(e) => {
                let context = String::from_str("Failed to create scatter handle: ");
                Err(DmaError::MemoryError(prefixed_message(context, e.as_str())))
            },
        }
    }

    /// Resolves the base address of the named loaded module. A successful
    /// result is never zero; a failure names the module in its message.
    pub fn module_base(&self, module_name: &str) -> (r: Result<u64, DmaError>)
        ensures
            r matches Ok(a) ==> a != 0,
            r matches Err(e) ==> e is ModuleError && has_prefix(
                e.message_view(),
                "Module '"@ + module_name@ + "' not found: "@,
            ),
    {
        match backend::proc_module_base(&self.inner, module_name) {
            Ok(a) => Ok(a),
            Err(e) => {
                let mut context = String::from_str("Module '");
                context.append(module_name);
                context.append("' not found: ");
                Err(DmaError::ModuleError(prefixed_message(context, e.as_str())))
            },
        }
    }

    /// Resolves the address of an exported symbol by walking the target
    /// module's export directory (delegated to the backend). A successful
    /// result is never zero; a failure names both the symbol and the module
    /// in its message (the backend reports one lookup failure, so
    /// module-not-found and symbol-not-found are not told apart beyond that
    /// text).
    pub fn proc_address(&self, module_name: &str, function_name: &str) -> (r: Result<
        u64,
        DmaError,
    >)
        ensures
            r matches Ok(a) ==> a != 0,
            r matches Err(e) ==> e is ModuleError && has_prefix(
                e.message_view(),
                "Function '"@ + function_name@ + "' in '"@ + module_name@ + "' not found: "@,
            ),
    {
        match backend::proc_proc_address(&self.inner, module_name, function_name) {
            Ok(a) => Ok(a),
            Err(e) => {
                let mut context = String::from_str("Function '");
                context.append(function_name);
                context.append("' in '");
                context.append(module_name);
                context.append("' not found: ");
                Err(DmaError::ModuleError(prefixed_message(context, e.as_str())))
            },
        }
    }

    /// Snapshot of the process's loaded modules, in the backend's order
    /// (typically load order); not guaranteed stable across calls if the
    /// target mutates concurrently. Each backend record is copied into a
    /// `Module` without alteration by `modules_from_entries`.
    pub fn list_modules(&self) -> (r: Result<Vec<Module>, DmaError>)
        ensures
            r matches Ok(ms) ==> forall|i: int|
                0 <= i < ms@.len() ==> (#[trigger] ms@[i]).size <= u32::MAX as usize,
            r matches Err(e) ==> e is ModuleError && has_prefix(
                e.message_view(),
                "Failed to enumerate modules: "@,
            ),
    {
        match backend::proc_map_module(&self.inner, false, false) {
            Ok(entries) => {
                let ms = modules_from_entries(&entries);
                proof {
                    assert forall|i: int|
                        0 <= i < ms@.len() implies (#[trigger] ms@[i]).size
                        <= u32::MAX as usize by {
                        assert(ms@[i].size == entries@[i].2 as usize);
                    }
                }
                Ok(ms)
            },
            Err(e) => {
                let context = String::from_str("Failed to enumerate modules: ");
                Err(DmaError::ModuleError(prefixed_message(context, e.as_str())))
            },
        }
    }

    /// Reads up to `max_length` bytes at `address` and decodes them as a
    /// C-style string: truncated at the first null byte (or the end of the
    /// buffer) and decoded as UTF-8, never lossily (`decode_c_string`
    /// carries the exact truncation and decoding contract). A successful
    /// result is the decoding of the null-truncated prefix of some
    /// `max_length`-byte buffer; a read failure surfaces as a memory error
    /// and an undecodable buffer as a decoding error naming the address.
    pub fn read_string(&self, address: u64, max_length: usize) -> (r: Result<String, DmaError>)
        ensures
            r matches Ok(s) ==> exists|b: Seq<u8>|
                #![trigger c_prefix(b)]
                b.len() == max_length && valid_utf8(c_prefix(b)) && s@ == decode_utf8(c_prefix(b)),
            r matches Err(e) ==> e is MemoryError || (e is DecodingError && has_prefix(
                e.message_view(),
                "Invalid UTF-8 string at 0x"@ + hex_digits(address as nat) + ": "@,
            )),
    {
        let bytes = match self.read_bytes(address, max_length) {
            Ok(b) => b,
            Err(e) => {
                return Err(e);
            },
        };
        match decode_c_string(bytes.as_slice()) {
            Ok(s) => {
                proof {
                    assert(bytes@.len() == max_length && valid_utf8(c_prefix(bytes@)) && s@
                        == decode_utf8(c_prefix(bytes@)));
                }
                Ok(s)
            },
            Err(e) => {
                let mut context = String::from_str("Invalid UTF-8 string at 0x");
                let rendered = hex_string(address);
                context.append(rendered.as_str());
                context.append(": ");
                let detail = e.message();
                Err(DmaError::DecodingError(prefixed_message(context, detail.as_str())))
            },
        }
    }

    /// The underlying backend process handle, for callers that need backend
    /// facilities this layer does not wrap.
    pub fn inner(&self) -> &memprocfs::VmmProcess<'a> {
        &self.inner
    }
}

/// Attaching by pid, then querying metadata, reports that pid: `attach_pid`
/// binds the handle to the requested pid and `info` stamps its snapshot
/// with the handle's pid, so the snapshot's pid is the one requested.
pub proof fn lemma_attach_pid_info<'a>(handle: Process<'a>, pid: u32, snapshot: ProcessInfo)
    requires
        handle.pid_spec() == pid,
        snapshot.pid == handle.pid_spec(),
    ensures
        snapshot.pid == pid,
{
}

} // verus!
