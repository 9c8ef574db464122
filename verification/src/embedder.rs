//! The kernel embedding pipeline.
//!
//! The embedder takes the path of an already linked kernel executable and
//! turns it into a statically linkable unit inside the bootloader's own
//! binary. It first has an object-copy tool wrap the kernel's bytes in a
//! 64-bit x86 ELF object whose data lands in a `.kernel` section, renaming
//! the tool's autogenerated blob symbols to the fixed names
//! `_kernel_start_addr`, `_kernel_end_addr` and `_kernel_size`; it then has
//! an archiver wrap that one object in a static library, and finally emits
//! the build-system directives that make the outer build link the archive.
//!
//! Everything the pipeline decides — file names, symbol names, complete
//! command lines, directive lines, and which error ends the build — is
//! computed here from plain values. Reading the environment, splitting the
//! kernel path, resolving the two tools and running them are the calling
//! build script's job: it drives the [`EmbedderState`] machine and performs
//! each returned [`EmbedderAction`].

use vstd::prelude::*;
use vstd::string::StringExecFns;

verus! {

// ---------------------------------------------------------------------------
// The fixed symbol names of the embedded kernel blob.
// ---------------------------------------------------------------------------

/// Symbol bound to the first byte of the embedded kernel.
///
/// The three symbol names are the contract that the bootloader's own linked
/// code relies on: they never vary with the kernel's file name.
pub open spec fn start_symbol() -> Seq<char> {
    "_kernel_start_addr"@
}

/// Symbol bound just past the last byte of the embedded kernel.
pub open spec fn end_symbol() -> Seq<char> {
    "_kernel_end_addr"@
}

/// Symbol bound to the byte size of the embedded kernel.
pub open spec fn size_symbol() -> Seq<char> {
    "_kernel_size"@
}

// ---------------------------------------------------------------------------
// Names derived from the kernel's file name.
// ---------------------------------------------------------------------------

/// File name of the object that wraps the kernel's bytes.
pub open spec fn object_file_name_spec(n: Seq<char>) -> Seq<char> {
    "kernel_bin-"@ + n + ".o"@
}

/// File name of the static archive that wraps the object.
pub open spec fn archive_file_name_spec(n: Seq<char>) -> Seq<char> {
    "libkernel_bin-"@ + n + ".a"@
}

/// Name under which the outer build links the archive.
pub open spec fn link_library_name_spec(n: Seq<char>) -> Seq<char> {
    "kernel_bin-"@ + n
}

/// `dir` and `file` joined with a path separator.
pub open spec fn join_spec(dir: Seq<char>, file: Seq<char>) -> Seq<char> {
    dir + "/"@ + file
}

/// The object-copy tool names the blob symbols after its input file; this
/// argument renames the start symbol to its fixed name.
pub open spec fn redefine_start_arg_spec(n: Seq<char>) -> Seq<char> {
    "_binary_"@ + n + "_start="@ + start_symbol()
}

/// Renames the autogenerated end symbol to its fixed name.
pub open spec fn redefine_end_arg_spec(n: Seq<char>) -> Seq<char> {
    "_binary_"@ + n + "_end="@ + end_symbol()
}

/// Renames the autogenerated size symbol to its fixed name.
pub open spec fn redefine_size_arg_spec(n: Seq<char>) -> Seq<char> {
    "_binary_"@ + n + "_size="@ + size_symbol()
}

/// File name of the object that wraps the bytes of a kernel file named
/// `kernel_file_name`.
pub fn object_file_name(kernel_file_name: &str) -> (r: String)
    ensures
        r@ == object_file_name_spec(kernel_file_name@),
{
    let mut s = String::from_str("kernel_bin-");
    s.append(kernel_file_name);
    s.append(".o");
    s
}

/// File name of the archive that wraps the object for a kernel file named
/// `kernel_file_name`.
pub fn archive_file_name(kernel_file_name: &str) -> (r: String)
    ensures
        r@ == archive_file_name_spec(kernel_file_name@),
{
    let mut s = String::from_str("libkernel_bin-");
    s.append(kernel_file_name);
    s.append(".a");
    s
}

/// Name under which the outer build links the archive for a kernel file
/// named `kernel_file_name`.
pub fn link_library_name(kernel_file_name: &str) -> (r: String)
    ensures
        r@ == link_library_name_spec(kernel_file_name@),
{
    let mut s = String::from_str("kernel_bin-");
    s.append(kernel_file_name);
    s
}

/// `dir` and `file` joined with a path separator.
pub fn join_path(dir: &str, file: &str) -> (r: String)
    ensures
        r@ == join_spec(dir@, file@),
{
    let mut s = String::from_str(dir);
    s.append("/");
    s.append(file);
    s
}

/// The object-copy argument that renames the autogenerated start symbol.
pub fn redefine_start_arg(kernel_file_name: &str) -> (r: String)
    ensures
        r@ == redefine_start_arg_spec(kernel_file_name@),
{
    let mut s = String::from_str("_binary_");
    s.append(kernel_file_name);
    s.append("_start=");
    s.append("_kernel_start_addr");
    s
}

/// The object-copy argument that renames the autogenerated end symbol.
pub fn redefine_end_arg(kernel_file_name: &str) -> (r: String)
    ensures
        r@ == redefine_end_arg_spec(kernel_file_name@),
{
    let mut s = String::from_str("_binary_");
    s.append(kernel_file_name);
    s.append("_end=");
    s.append("_kernel_end_addr");
    s
}

/// The object-copy argument that renames the autogenerated size symbol.
pub fn redefine_size_arg(kernel_file_name: &str) -> (r: String)
    ensures
        r@ == redefine_size_arg_spec(kernel_file_name@),
{
    let mut s = String::from_str("_binary_");
    s.append(kernel_file_name);
    s.append("_size=");
    s.append("_kernel_size");
    s
}

// ---------------------------------------------------------------------------
// Complete command lines and directives.
// ---------------------------------------------------------------------------

/// The complete argument list of the object-copy invocation: read the kernel
/// file as raw binary, emit a 64-bit x86 ELF object at `object_path` whose
/// data lands in the `.kernel` section, and rename the three blob symbols to
/// their fixed names.
pub open spec fn objcopy_args_spec(n: Seq<char>, object_path: Seq<char>) -> Seq<Seq<char>> {
    seq![
        "-I"@,
        "binary"@,
        "-O"@,
        "elf64-x86-64"@,
        "--binary-architecture=i386:x86-64"@,
        "--rename-section"@,
        ".data=.kernel"@,
        "--redefine-sym"@,
        redefine_start_arg_spec(n),
        "--redefine-sym"@,
        redefine_end_arg_spec(n),
        "--redefine-sym"@,
        redefine_size_arg_spec(n),
        n,
        object_path,
    ]
}

/// The complete argument list of the archiver invocation: create or replace
/// the archive at `archive_path` from the one object at `object_path`, with
/// an up-to-date symbol index.
pub open spec fn archiver_args_spec(archive_path: Seq<char>, object_path: Seq<char>) -> Seq<Seq<char>> {
    seq!["crs"@, archive_path, object_path]
}

/// The build-system directives the embedder emits, in order: rebuild when
/// the kernel file changes, rebuild when the embedder's own source changes,
/// search the output directory for native libraries, and link the embedded
/// kernel archive.
pub open spec fn directives_spec(kernel_path: Seq<char>, out_dir: Seq<char>, n: Seq<char>) -> Seq<Seq<char>> {
    seq![
        "cargo:rerun-if-changed="@ + kernel_path,
        "cargo:rerun-if-changed=build.rs"@,
        "cargo:rustc-link-search=native="@ + out_dir,
        "cargo:rustc-link-lib=static="@ + link_library_name_spec(n),
    ]
}

/// Builds the object-copy argument list for a kernel file named
/// `kernel_file_name`, writing the object to `object_path`.
pub fn objcopy_args(kernel_file_name: &str, object_path: &str) -> (r: Vec<String>)
    ensures
        r.deep_view() == objcopy_args_spec(kernel_file_name@, object_path@),
{
    let mut args: Vec<String> = Vec::new();
    args.push(String::from_str("-I"));
    args.push(String::from_str("binary"));
    args.push(String::from_str("-O"));
    args.push(String::from_str("elf64-x86-64"));
    args.push(String::from_str("--binary-architecture=i386:x86-64"));
    args.push(String::from_str("--rename-section"));
    args.push(String::from_str(".data=.kernel"));
    args.push(String::from_str("--redefine-sym"));
    args.push(redefine_start_arg(kernel_file_name));
    args.push(String::from_str("--redefine-sym"));
    args.push(redefine_end_arg(kernel_file_name));
    args.push(String::from_str("--redefine-sym"));
    args.push(redefine_size_arg(kernel_file_name));
    args.push(String::from_str(kernel_file_name));
    args.push(String::from_str(object_path));
    proof {
        assert(args.deep_view() =~~= objcopy_args_spec(kernel_file_name@, object_path@));
    }
    args
}

/// Builds the archiver argument list that wraps the object at `object_path`
/// into the archive at `archive_path`.
pub fn archiver_args(archive_path: &str, object_path: &str) -> (r: Vec<String>)
    ensures
        r.deep_view() == archiver_args_spec(archive_path@, object_path@),
{
    let mut args: Vec<String> = Vec::new();
    args.push(String::from_str("crs"));
    args.push(String::from_str(archive_path));
    args.push(String::from_str(object_path));
    proof {
        assert(args.deep_view() =~~= archiver_args_spec(archive_path@, object_path@));
    }
    args
}

/// Builds the build-system directive lines for a kernel at `kernel_path`
/// named `kernel_file_name`, with artifacts in `out_dir`.
pub fn directives(kernel_path: &str, out_dir: &str, kernel_file_name: &str) -> (r: Vec<String>)
    ensures
        r.deep_view() == directives_spec(kernel_path@, out_dir@, kernel_file_name@),
{
    let mut lines: Vec<String> = Vec::new();
    let mut rerun_kernel = String::from_str("cargo:rerun-if-changed=");
    rerun_kernel.append(kernel_path);
    lines.push(rerun_kernel);
    lines.push(String::from_str("cargo:rerun-if-changed=build.rs"));
    let mut search = String::from_str("cargo:rustc-link-search=native=");
    search.append(out_dir);
    lines.push(search);
    let mut link = String::from_str("cargo:rustc-link-lib=static=");
    let library = link_library_name(kernel_file_name);
    link.append(library.as_str());
    lines.push(link);
    proof {
        assert(lines.deep_view() =~~= directives_spec(kernel_path@, out_dir@, kernel_file_name@));
    }
    lines
}

/// Whether a build target's file stem names the bootloader target that the
/// embedding runs for; for every other target the build script does nothing.
pub fn is_bootloader_target(target_file_stem: &str) -> (r: bool)
    ensures
        r == (target_file_stem@ == "x86_64-bootloader"@),
{
    let stem = String::from_str(target_file_stem);
    let expected = String::from_str("x86_64-bootloader");
    stem == expected
}

// ---------------------------------------------------------------------------
// Laws of the derived names.
// ---------------------------------------------------------------------------

/// The symbol-renaming invariant: whatever the kernel's file name `n`, each
/// rename argument binds the tool's autogenerated blob symbol to the same
/// fixed name — the argument ends in `=` followed by `_kernel_start_addr`,
/// `_kernel_end_addr` or `_kernel_size`, so the symbols the bootloader's
/// linked code references never vary with the kernel's file name.
pub proof fn lemma_fixed_symbol_names(n: Seq<char>)
    ensures
        redefine_start_arg_spec(n).skip(
            redefine_start_arg_spec(n).len() - start_symbol().len(),
        ) == start_symbol(),
        redefine_end_arg_spec(n).skip(
            redefine_end_arg_spec(n).len() - end_symbol().len(),
        ) == end_symbol(),
        redefine_size_arg_spec(n).skip(
            redefine_size_arg_spec(n).len() - size_symbol().len(),
        ) == size_symbol(),
        forall|object_path: Seq<char>|
            (#[trigger] objcopy_args_spec(n, object_path))[7] == "--redefine-sym"@
                && objcopy_args_spec(n, object_path)[8] == redefine_start_arg_spec(n)
                && objcopy_args_spec(n, object_path)[9] == "--redefine-sym"@
                && objcopy_args_spec(n, object_path)[10] == redefine_end_arg_spec(n)
                && objcopy_args_spec(n, object_path)[11] == "--redefine-sym"@
                && objcopy_args_spec(n, object_path)[12] == redefine_size_arg_spec(n),
{
    assert(redefine_start_arg_spec(n).skip(
        redefine_start_arg_spec(n).len() - start_symbol().len(),
    ) =~= start_symbol());
    assert(redefine_end_arg_spec(n).skip(
        redefine_end_arg_spec(n).len() - end_symbol().len(),
    ) =~= end_symbol());
    assert(redefine_size_arg_spec(n).skip(
        redefine_size_arg_spec(n).len() - size_symbol().len(),
    ) =~= size_symbol());
}

/// Determinism of the embedding: every name, path, command line and
/// directive is a function of the inputs alone, so two embeddings of kernels
/// with the same file name, the same path and the same output directory
/// issue letter-identical commands — and, the tools being deterministic,
/// produce byte-identical object and archive files.
pub proof fn lemma_embedding_deterministic(
    n1: Seq<char>,
    n2: Seq<char>,
    kernel_path1: Seq<char>,
    kernel_path2: Seq<char>,
    out_dir1: Seq<char>,
    out_dir2: Seq<char>,
)
    requires
        n1 == n2,
        kernel_path1 == kernel_path2,
        out_dir1 == out_dir2,
    ensures
        object_file_name_spec(n1) == object_file_name_spec(n2),
        archive_file_name_spec(n1) == archive_file_name_spec(n2),
        link_library_name_spec(n1) == link_library_name_spec(n2),
        objcopy_args_spec(n1, join_spec(out_dir1, object_file_name_spec(n1))) == objcopy_args_spec(
            n2,
            join_spec(out_dir2, object_file_name_spec(n2)),
        ),
        archiver_args_spec(
            join_spec(out_dir1, archive_file_name_spec(n1)),
            join_spec(out_dir1, object_file_name_spec(n1)),
        ) == archiver_args_spec(
            join_spec(out_dir2, archive_file_name_spec(n2)),
            join_spec(out_dir2, object_file_name_spec(n2)),
        ),
        directives_spec(kernel_path1, out_dir1, n1) == directives_spec(kernel_path2, out_dir2, n2),
{
}

// ---------------------------------------------------------------------------
// Errors.
// ---------------------------------------------------------------------------

/// Why the embedding pipeline ends the build. Every variant is fatal: the
/// build terminates with a non-zero status and none of the artifacts is
/// published.
#[derive(Clone, Copy, Debug, PartialEq, Eq, Structural)]
pub enum EmbedError {
    /// The environment variable naming the kernel image is not set.
    MissingKernelEnv,
    /// The kernel path has no file name, or its file name is not valid text,
    /// so no symbol or output file name can be derived from it.
    InvalidKernelFileName,
    /// The toolchain bundle holding the object-copy and archiver tools is
    /// not installed.
    ToolchainNotFound,
    /// The object-copy tool exited with a non-zero status.
    ObjcopyFailed,
    /// The archiver tool exited with a non-zero status.
    ArchiverFailed,
}

/// The message the build prints before terminating with `e`.
pub open spec fn message_spec(e: EmbedError) -> Seq<char> {
    match e {
        EmbedError::MissingKernelEnv => "The KERNEL environment variable must be set for building the bootloader."@,
        EmbedError::InvalidKernelFileName => "The KERNEL path must end in a file name that is valid UTF-8."@,
        EmbedError::ToolchainNotFound => "Error: llvm-tools not found\nMaybe the rustup component `llvm-tools-preview` is missing?\n  Install it through: `rustup component add llvm-tools-preview`"@,
        EmbedError::ObjcopyFailed => "Error: Running objcopy failed"@,
        EmbedError::ArchiverFailed => "Error: Running ar failed"@,
    }
}

impl EmbedError {
    /// The human-actionable message for this error, naming the missing
    /// resource or the failing tool.
    pub fn message(&self) -> (r: String)
        ensures
            r@ == message_spec(*self),
    {
        match self {
            EmbedError::MissingKernelEnv => String::from_str(
                "The KERNEL environment variable must be set for building the bootloader.",
            ),
            EmbedError::InvalidKernelFileName => String::from_str(
                "The KERNEL path must end in a file name that is valid UTF-8.",
            ),
            EmbedError::ToolchainNotFound => String::from_str(
                "Error: llvm-tools not found\nMaybe the rustup component `llvm-tools-preview` is missing?\n  Install it through: `rustup component add llvm-tools-preview`",
            ),
            EmbedError::ObjcopyFailed => String::from_str("Error: Running objcopy failed"),
            EmbedError::ArchiverFailed => String::from_str("Error: Running ar failed"),
        }
    }
}

// ---------------------------------------------------------------------------
// Inputs and the embedding plan.
// ---------------------------------------------------------------------------

/// Everything the pipeline needs from its surroundings, as plain values.
///
/// The calling build script gathers these: the value of the `KERNEL`
/// environment variable, the decomposition of that path, the build's output
/// directory, and the resolved paths of the two tools.
pub struct EmbedInputs {
    /// Value of the `KERNEL` environment variable; `None` when it is not
    /// set.
    pub kernel_path: Option<String>,
    /// The kernel path's file name, when it has one and it is valid text;
    /// `None` otherwise.
    pub kernel_file_name: Option<String>,
    /// The directory holding the kernel file; the object-copy tool runs
    /// there so the autogenerated symbol names derive from the bare file
    /// name.
    pub kernel_dir: String,
    /// The build's output directory, where the object and the archive are
    /// written.
    pub out_dir: String,
    /// Resolved path of the object-copy tool; `None` when the toolchain
    /// bundle is missing.
    pub objcopy: Option<String>,
    /// Resolved path of the archiver tool; `None` when the toolchain bundle
    /// is missing.
    pub archiver: Option<String>,
}

/// The first error the pipeline reports for `i`, checked in the order the
/// build needs the inputs; `None` when the inputs admit an embedding.
pub open spec fn first_error(i: EmbedInputs) -> Option<EmbedError> {
    if i.kernel_path is None {
        Some(EmbedError::MissingKernelEnv)
    } else if i.kernel_file_name is None {
        Some(EmbedError::InvalidKernelFileName)
    } else if i.objcopy is None {
        Some(EmbedError::ToolchainNotFound)
    } else if i.archiver is None {
        Some(EmbedError::ToolchainNotFound)
    } else {
        None
    }
}

/// Everything the pipeline decided: where each artifact goes and which tools
/// act on it. All later command lines and directives derive from these
/// values alone.
pub struct EmbedPlan {
    /// The kernel path, as the environment supplied it.
    pub kernel_path: String,
    /// The kernel's file name.
    pub kernel_file_name: String,
    /// The directory holding the kernel file.
    pub kernel_dir: String,
    /// The build's output directory.
    pub out_dir: String,
    /// Path of the object-copy tool.
    pub objcopy: String,
    /// Path of the archiver tool.
    pub archiver: String,
    /// Where the object that wraps the kernel's bytes is written.
    pub object_path: String,
    /// Where the archive that wraps the object is written.
    pub archive_path: String,
}

/// `p` is the plan for inputs `i`: each field carries the corresponding
/// input through, and the artifact paths join the output directory with the
/// names derived from the kernel's file name.
pub open spec fn plan_for(p: EmbedPlan, i: EmbedInputs) -> bool {
    &&& i.kernel_path matches Some(kp) && p.kernel_path@ == kp@
    &&& i.kernel_file_name matches Some(n) && p.kernel_file_name@ == n@
    &&& p.kernel_dir@ == i.kernel_dir@
    &&& p.out_dir@ == i.out_dir@
    &&& i.objcopy matches Some(oc) && p.objcopy@ == oc@
    &&& i.archiver matches Some(ar) && p.archiver@ == ar@
    &&& p.object_path@ == join_spec(i.out_dir@, object_file_name_spec(p.kernel_file_name@))
    &&& p.archive_path@ == join_spec(i.out_dir@, archive_file_name_spec(p.kernel_file_name@))
}

/// Decides the whole embedding up front: validates the inputs in the order
/// the build needs them and derives the artifact paths. Returns the plan
/// exactly when the inputs admit one, and otherwise the first error, before
/// any tool runs.
pub fn plan_embedding(i: EmbedInputs) -> (r: Result<EmbedPlan, EmbedError>)
    ensures
        r is Err <==> first_error(i) is Some,
        r matches Err(e) ==> Some(e) == first_error(i),
        r matches Ok(p) ==> plan_for(p, i),
{
    let EmbedInputs { kernel_path, kernel_file_name, kernel_dir, out_dir, objcopy, archiver } = i;
    let kernel_path = match kernel_path {
        Some(p) => p,
        None => {
            return Err(EmbedError::MissingKernelEnv);
        },
    };
    let kernel_file_name = match kernel_file_name {
        Some(n) => n,
        None => {
            return Err(EmbedError::InvalidKernelFileName);
        },
    };
    let objcopy = match objcopy {
        Some(p) => p,
        None => {
            return Err(EmbedError::ToolchainNotFound);
        },
    };
    let archiver = match archiver {
        Some(p) => p,
        None => {
            return Err(EmbedError::ToolchainNotFound);
        },
    };
    let object_name = object_file_name(kernel_file_name.as_str());
    let archive_name = archive_file_name(kernel_file_name.as_str());
    let object_path = join_path(out_dir.as_str(), object_name.as_str());
    let archive_path = join_path(out_dir.as_str(), archive_name.as_str());
    Ok(EmbedPlan {
        kernel_path,
        kernel_file_name,
        kernel_dir,
        out_dir,
        objcopy,
        archiver,
        object_path,
        archive_path,
    })
}

// ---------------------------------------------------------------------------
// The pipeline state machine.
// ---------------------------------------------------------------------------

/// Where the pipeline stands. The strict data dependency — the archiver
/// consumes the object-copy tool's output — is the order of these states:
/// the archive step is reachable only through a successful object-copy step.
pub enum EmbedderState {
    /// The object-copy tool was asked to run; its exit status is pending.
    AwaitingObjcopy { plan: EmbedPlan },
    /// The object exists; the archiver was asked to run.
    AwaitingArchiver { plan: EmbedPlan },
    /// The archive exists and the directives were handed out.
    Finished,
    /// The build is over; nothing further may run.
    Failed { error: EmbedError },
}

/// What the calling build script must do next. Exactly one action accompanies
/// each state transition.
pub enum EmbedderAction {
    /// Run `program` with `args`, from `current_dir` when given, wait for it,
    /// and report its exit status back through [`on_tool_exit`].
    RunTool { program: String, current_dir: Option<String>, args: Vec<String> },
    /// Print each line to standard output, for the outer build orchestrator.
    /// The build step is complete.
    EmitDirectives { lines: Vec<String> },
    /// Print `message` to standard error and terminate the build with a
    /// non-zero status.
    AbortBuild { message: String },
}

/// `a` runs the object-copy tool of `p`, in the kernel's directory, with the
/// complete argument list derived from the plan.
pub open spec fn is_objcopy_action(a: EmbedderAction, p: EmbedPlan) -> bool {
    &&& a matches EmbedderAction::RunTool { program, current_dir, args }
    &&& program@ == p.objcopy@
    &&& current_dir matches Some(d) && d@ == p.kernel_dir@
    &&& args.deep_view() == objcopy_args_spec(p.kernel_file_name@, p.object_path@)
}

/// `a` runs the archiver of `p` with the complete argument list derived from
/// the plan.
pub open spec fn is_archiver_action(a: EmbedderAction, p: EmbedPlan) -> bool {
    &&& a matches EmbedderAction::RunTool { program, current_dir, args }
    &&& program@ == p.archiver@
    &&& current_dir is None
    &&& args.deep_view() == archiver_args_spec(p.archive_path@, p.object_path@)
}

/// `a` hands the build orchestrator exactly the directive lines of `p`.
pub open spec fn is_directives_action(a: EmbedderAction, p: EmbedPlan) -> bool {
    &&& a matches EmbedderAction::EmitDirectives { lines }
    &&& lines.deep_view() == directives_spec(p.kernel_path@, p.out_dir@, p.kernel_file_name@)
}

/// `a` terminates the build with the message for `e`.
pub open spec fn is_abort_action(a: EmbedderAction, e: EmbedError) -> bool {
    &&& a matches EmbedderAction::AbortBuild { message }
    &&& message@ == message_spec(e)
}

/// Starts the pipeline on `inputs`. When the inputs admit an embedding the
/// pipeline asks for the object-copy run; otherwise it fails with the first
/// error, before any tool runs and before any artifact path is touched.
pub fn begin(inputs: EmbedInputs) -> (r: (EmbedderState, EmbedderAction))
    ensures
        first_error(inputs) matches Some(e) ==> r.0 == (EmbedderState::Failed { error: e })
            && is_abort_action(r.1, e),
        first_error(inputs) is None ==> (r.0 matches EmbedderState::AwaitingObjcopy { plan }
            && plan_for(plan, inputs) && is_objcopy_action(r.1, plan)),
{
    match plan_embedding(inputs) {
        Err(error) => {
            let message = error.message();
            (EmbedderState::Failed { error }, EmbedderAction::AbortBuild { message })
        },
        Ok(plan) => {
            let program = plan.objcopy.clone();
            let current_dir = Some(plan.kernel_dir.clone());
            let args = objcopy_args(plan.kernel_file_name.as_str(), plan.object_path.as_str());
            (
                EmbedderState::AwaitingObjcopy { plan },
                EmbedderAction::RunTool { program, current_dir, args },
            )
        },
    }
}

/// Advances the pipeline once a tool has exited.
///
/// A non-zero exit fails the build at once: after a failed object-copy run
/// the archiver is never asked to run, so no archive is produced that a
/// later stage could mistakenly link; after a failed archiver run no
/// directives are emitted, so the incomplete archive is never linked. Only
/// two successful runs, in order, reach the directives.
pub fn on_tool_exit(state: EmbedderState, exit_ok: bool) -> (r: (EmbedderState, EmbedderAction))
    requires
        state is AwaitingObjcopy || state is AwaitingArchiver,
    ensures
        state matches EmbedderState::AwaitingObjcopy { plan } ==> (if exit_ok {
            (r.0 matches EmbedderState::AwaitingArchiver { plan: p } && p == plan)
                && is_archiver_action(r.1, plan)
        } else {
            r.0 == (EmbedderState::Failed { error: EmbedError::ObjcopyFailed })
                && is_abort_action(r.1, EmbedError::ObjcopyFailed)
        }),
        state matches EmbedderState::AwaitingArchiver { plan } ==> (if exit_ok {
            r.0 == EmbedderState::Finished && is_directives_action(r.1, plan)
        } else {
            r.0 == (EmbedderState::Failed { error: EmbedError::ArchiverFailed })
                && is_abort_action(r.1, EmbedError::ArchiverFailed)
        }),
{
    match state {
        EmbedderState::AwaitingObjcopy { plan } => {
            if exit_ok {
                let program = plan.archiver.clone();
                let args = archiver_args(plan.archive_path.as_str(), plan.object_path.as_str());
                (
                    EmbedderState::AwaitingArchiver { plan },
                    EmbedderAction::RunTool { program, current_dir: None, args },
                )
            } else {
                let error = EmbedError::ObjcopyFailed;
                let message = error.message();
                (EmbedderState::Failed { error }, EmbedderAction::AbortBuild { message })
            }
        },
        EmbedderState::AwaitingArchiver { plan } => {
            if exit_ok {
                let lines = directives(
                    plan.kernel_path.as_str(),
                    plan.out_dir.as_str(),
                    plan.kernel_file_name.as_str(),
                );
                (EmbedderState::Finished, EmbedderAction::EmitDirectives { lines })
            } else {
                let error = EmbedError::ArchiverFailed;
                let message = error.message();
                (EmbedderState::Failed { error }, EmbedderAction::AbortBuild { message })
            }
        },
        EmbedderState::Finished => vstd::pervasive::unreached(),
        EmbedderState::Failed { .. } => vstd::pervasive::unreached(),
    }
}

} // verus!
