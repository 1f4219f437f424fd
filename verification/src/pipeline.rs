//! The two compute programs and the registry that follows their compilation.
//!
//! Programs are compiled in the background by the graphics driver. The
//! registry hands out a handle when a compilation is requested and records
//! what the driver reports about it afterwards; it never waits.

use vstd::prelude::*;
use vstd::string::StringExecFns;

verus! {

/// The compute programs of the simulation.
#[derive(Clone, Copy, Debug, PartialEq, Eq, Structural)]
pub enum Kernel {
    /// Writes the starting pattern.
    Init,
    /// Computes the next generation from the current one.
    Update,
}

/// Name of the entry point of a kernel in the shader source.
pub open spec fn entry_point_name(kernel: Kernel) -> Seq<char> {
    match kernel {
        Kernel::Init => "init"@,
        Kernel::Update => "update"@,
    }
}

impl Kernel {
    /// Name of the entry point of this kernel in the shader source.
    pub fn entry_point(self) -> (name: &'static str)
        ensures
            name@ == entry_point_name(self),
    {
        match self {
            Kernel::Init => "init",
            Kernel::Update => "update",
        }
    }
}

/// How far the compilation of a program has come, as contracts see it.
pub enum Readiness {
    Pending,
    Ready,
    Failed(Seq<char>),
}

impl Readiness {
    /// What a registry holds after the driver reported `observed` on a
    /// program it held as `self`: a pending program takes what is reported,
    /// a ready or failed one stays as it is.
    pub open spec fn settle(self, observed: Readiness) -> Readiness {
        match self {
            Readiness::Pending => observed,
            _ => self,
        }
    }
}

/// A program that is ready stays ready and a program that failed stays
/// failed with its message, whatever the driver reports afterwards.
pub proof fn lemma_settled_status_is_final(status: Readiness, observed: Readiness)
    ensures
        !(status is Pending) ==> status.settle(observed) == status,
        status.settle(observed) is Pending ==> status is Pending && observed is Pending,
{
}

/// How far the compilation of a program has come.
#[derive(Debug, PartialEq, Eq)]
pub enum PipelineStatus {
    /// The driver has not finished compiling.
    Pending,
    /// The program can be dispatched.
    Ready,
    /// The program did not compile; the driver's message says why.
    Failed(String),
}

impl View for PipelineStatus {
    type V = Readiness;

    open spec fn view(&self) -> Readiness {
        match self {
            PipelineStatus::Pending => Readiness::Pending,
            PipelineStatus::Ready => Readiness::Ready,
            PipelineStatus::Failed(message) => Readiness::Failed(message@),
        }
    }
}

impl Clone for PipelineStatus {
    fn clone(&self) -> (copy: PipelineStatus)
        ensures
            copy@ == self@,
    {
        match self {
            PipelineStatus::Pending => PipelineStatus::Pending,
            PipelineStatus::Ready => PipelineStatus::Ready,
            PipelineStatus::Failed(message) => PipelineStatus::Failed(message.clone()),
        }
    }
}

impl PipelineStatus {
    /// Whether the program can be dispatched.
    pub fn is_ready(&self) -> (ready: bool)
        ensures
            ready == (self@ is Ready),
    {
        match self {
            PipelineStatus::Ready => true,
            _ => false,
        }
    }

    /// Whether the driver is still compiling.
    pub fn is_pending(&self) -> (pending: bool)
        ensures
            pending == (self@ is Pending),
    {
        match self {
            PipelineStatus::Pending => true,
            _ => false,
        }
    }
}

/// A compile failure as contracts see it.
pub struct FailureView {
    pub kernel: Kernel,
    pub message: Seq<char>,
}

/// The fatal error of the scheduler: a program that did not compile. Nothing
/// can run without it, so the host reports it and stops.
#[derive(Debug, PartialEq, Eq)]
pub struct CompileFailure {
    /// The program that failed.
    pub kernel: Kernel,
    /// The driver's message.
    pub message: String,
}

impl View for CompileFailure {
    type V = FailureView;

    open spec fn view(&self) -> FailureView {
        FailureView { kernel: self.kernel, message: self.message@ }
    }
}

/// The text of the diagnostic for a failure in the shader at `asset_path`.
pub open spec fn diagnostic_text(asset_path: Seq<char>, message: Seq<char>) -> Seq<char> {
    "Initializing assets/"@ + asset_path + ":\n"@ + message
}

impl CompileFailure {
    /// The diagnostic to halt with: it names the shader asset and carries the
    /// driver's message below it.
    pub fn diagnostic(&self, asset_path: &str) -> (text: String)
        ensures
            text@ == diagnostic_text(asset_path@, self.message@),
    {
        let mut text = String::from_str("Initializing assets/");
        text.append(asset_path);
        text.append(":\n");
        text.append(self.message.as_str());
        text
    }
}

/// One requested compilation as contracts see it.
pub struct RequestView {
    pub kernel_source: Seq<char>,
    pub entry_point: Seq<char>,
    pub status: Readiness,
}

/// One requested compilation.
struct PipelineRequest {
    kernel_source: String,
    entry_point: String,
    status: PipelineStatus,
}

impl View for PipelineRequest {
    type V = RequestView;

    closed spec fn view(&self) -> RequestView {
        RequestView {
            kernel_source: self.kernel_source@,
            entry_point: self.entry_point@,
            status: self.status@,
        }
    }
}

/// Names a program whose compilation was requested from a registry.
#[derive(Clone, Copy, Debug, PartialEq, Eq, Structural)]
pub struct PipelineHandle {
    index: usize,
}

impl View for PipelineHandle {
    type V = int;

    closed spec fn view(&self) -> int {
        self.index as int
    }
}

/// What a sequence of requests holds after the driver reported `observed`
/// on the request at `index`. A report on a request that was never made
/// changes nothing.
pub open spec fn recorded(requests: Seq<RequestView>, index: int, observed: Readiness) -> Seq<
    RequestView,
> {
    if 0 <= index < requests.len() {
        requests.update(
            index,
            RequestView { status: requests[index].status.settle(observed), ..requests[index] },
        )
    } else {
        requests
    }
}

/// The compilations requested so far, in the order of the requests, each
/// with the last word of the driver on it.
pub struct ComputePipelineRegistry {
    requests: Vec<PipelineRequest>,
}

impl View for ComputePipelineRegistry {
    type V = Seq<RequestView>;

    closed spec fn view(&self) -> Seq<RequestView> {
        Seq::new(self.requests@.len(), |i: int| self.requests@[i]@)
    }
}

impl ComputePipelineRegistry {
    /// A registry without requests.
    pub fn new() -> (registry: ComputePipelineRegistry)
        ensures
            registry@ == Seq::<RequestView>::empty(),
    {
        ComputePipelineRegistry { requests: Vec::new() }
    }

    /// Whether `handle` names a request of this registry.
    pub open spec fn issued(&self, handle: PipelineHandle) -> bool {
        0 <= handle@ < self@.len()
    }

    /// Registers the compilation of the entry point `entry_point` of the
    /// shader `kernel_source` and returns at once. The program is pending
    /// until the driver reports otherwise.
    pub fn request_compile(&mut self, kernel_source: &str, entry_point: &str) -> (handle:
        PipelineHandle)
        ensures
            handle@ == old(self)@.len(),
            final(self)@ == old(self)@.push(
                RequestView {
                    kernel_source: kernel_source@,
                    entry_point: entry_point@,
                    status: Readiness::Pending,
                },
            ),
    {
        let index: usize = self.requests.len();
        self.requests.push(
            PipelineRequest {
                kernel_source: String::from_str(kernel_source),
                entry_point: String::from_str(entry_point),
                status: PipelineStatus::Pending,
            },
        );
        PipelineHandle { index }
    }

    /// The status of the program that `handle` names, or nothing when this
    /// registry never issued the handle.
    pub fn status(&self, handle: PipelineHandle) -> (status: Option<&PipelineStatus>)
        ensures
            status is Some <==> self.issued(handle),
            status matches Some(found) ==> found@ == self@[handle@].status,
    {
        if handle.index < self.requests.len() {
            Some(&self.requests[handle.index].status)
        } else {
            None
        }
    }

    /// The entry point that was requested under `handle`, or nothing when
    /// this registry never issued the handle.
    pub fn entry_point(&self, handle: PipelineHandle) -> (name: Option<&str>)
        ensures
            name is Some <==> self.issued(handle),
            name matches Some(found) ==> found@ == self@[handle@].entry_point,
    {
        if handle.index < self.requests.len() {
            Some(self.requests[handle.index].entry_point.as_str())
        } else {
            None
        }
    }

    /// Records what the driver reports on the program that `handle` names.
    /// Only a pending program changes: a ready one stays ready and a failed
    /// one stays failed, whatever is reported later.
    pub fn record(&mut self, handle: PipelineHandle, observed: PipelineStatus)
        ensures
            final(self)@ == recorded(old(self)@, handle@, observed@),
    {
        if handle.index < self.requests.len() {
            if self.requests[handle.index].status.is_pending() {
                self.requests[handle.index].status = observed;
            }
        }
    }
}

} // verus!
