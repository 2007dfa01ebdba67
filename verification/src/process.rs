//! Child process descriptions: the specification of a process to run, the
//! resource-limit wrapper script, bounded output capture, and the messages
//! that name each supervision step.
use vstd::prelude::*;

use crate::env::EnvVars;
use crate::text::{chars_of, concat3, decimal, decimal_chars, extend_chars, extend_str, string_of};

verus! {

pub const RESOURCE_LIMIT_SHELL: &'static str = "/bin/sh";

pub const RESOURCE_LIMIT_ARG0: &'static str = "runx-resource-limits";

pub const RESOURCE_LIMIT_FILE_BLOCK_BYTES: u64 = 512;

pub const RESOURCE_LIMIT_MEMORY_KIB_BYTES: u64 = 1024;

pub const CHILD_MAX_OPEN_FILES: u64 = 256;

pub const CHILD_MAX_FILE_BYTES: u64 = 536870912;

pub const CHILD_MAX_CPU_SECONDS: u64 = 60;

pub const CHILD_MAX_ADDRESS_SPACE_BYTES: u64 = 4294967296;

// ---------------------------------------------------------------------------
// Process specifications
// ---------------------------------------------------------------------------

/// Bytes written to a child's standard input, and what to call that step.
#[derive(Clone, Debug)]
pub struct ProcessStdin {
    pub bytes: Vec<u8>,
    pub write_context: &'static str,
}

impl ProcessStdin {
    pub fn new(bytes: Vec<u8>, write_context: &'static str) -> (r: Self)
        ensures
            r.bytes@ == bytes@,
            r.write_context == write_context,
    {
        ProcessStdin { bytes, write_context }
    }
}

/// A child process to run: command, arguments, working directory, the whole
/// environment it sees, standard input, a timeout in milliseconds, an output
/// limit, and directories to remove afterwards.
#[derive(Clone, Debug)]
pub struct ProcessSpec {
    pub label: &'static str,
    pub command: String,
    pub args: Vec<String>,
    pub cwd: Option<String>,
    pub env: EnvVars,
    pub stdin: Option<ProcessStdin>,
    pub timeout_ms: Option<u64>,
    pub output_limit_bytes: usize,
    pub cleanup_paths: Vec<String>,
}

impl ProcessSpec {
    pub fn new(label: &'static str, command: &str, output_limit_bytes: usize) -> (r: Self)
        ensures
            r.label == label,
            r.command@ == command@,
            r.args@.len() == 0,
            r.cwd is None,
            r.env.wf(),
            r.env@ == Map::<Seq<char>, Seq<char>>::empty(),
            r.stdin is None,
            r.timeout_ms is None,
            r.output_limit_bytes == output_limit_bytes,
            r.cleanup_paths@.len() == 0,
    {
        ProcessSpec {
            label,
            command: command.to_owned(),
            args: Vec::new(),
            cwd: None,
            env: EnvVars::new(),
            stdin: None,
            timeout_ms: None,
            output_limit_bytes,
            cleanup_paths: Vec::new(),
        }
    }

    pub fn args(self, args: Vec<String>) -> (r: Self)
        ensures
            r.args@ == args@,
            r.label == self.label,
            r.command == self.command,
            r.cwd == self.cwd,
            r.env == self.env,
            r.stdin == self.stdin,
            r.timeout_ms == self.timeout_ms,
            r.output_limit_bytes == self.output_limit_bytes,
            r.cleanup_paths == self.cleanup_paths,
    {
        ProcessSpec { args, ..self }
    }

    pub fn cwd(self, cwd: String) -> (r: Self)
        ensures
            r.cwd == Some(cwd),
            r.label == self.label,
            r.command == self.command,
            r.args == self.args,
            r.env == self.env,
            r.stdin == self.stdin,
            r.timeout_ms == self.timeout_ms,
            r.output_limit_bytes == self.output_limit_bytes,
            r.cleanup_paths == self.cleanup_paths,
    {
        ProcessSpec { cwd: Some(cwd), ..self }
    }

    pub fn env(self, env: EnvVars) -> (r: Self)
        ensures
            r.env == env,
            r.label == self.label,
            r.command == self.command,
            r.args == self.args,
            r.cwd == self.cwd,
            r.stdin == self.stdin,
            r.timeout_ms == self.timeout_ms,
            r.output_limit_bytes == self.output_limit_bytes,
            r.cleanup_paths == self.cleanup_paths,
    {
        ProcessSpec { env, ..self }
    }

    pub fn stdin(self, stdin: Option<ProcessStdin>) -> (r: Self)
        ensures
            r.stdin == stdin,
            r.label == self.label,
            r.command == self.command,
            r.args == self.args,
            r.cwd == self.cwd,
            r.env == self.env,
            r.timeout_ms == self.timeout_ms,
            r.output_limit_bytes == self.output_limit_bytes,
            r.cleanup_paths == self.cleanup_paths,
    {
        ProcessSpec { stdin, ..self }
    }

    pub fn timeout(self, timeout_ms: Option<u64>) -> (r: Self)
        ensures
            r.timeout_ms == timeout_ms,
            r.label == self.label,
            r.command == self.command,
            r.args == self.args,
            r.cwd == self.cwd,
            r.env == self.env,
            r.stdin == self.stdin,
            r.output_limit_bytes == self.output_limit_bytes,
            r.cleanup_paths == self.cleanup_paths,
    {
        ProcessSpec { timeout_ms, ..self }
    }

    pub fn cleanup_paths(self, cleanup_paths: Vec<String>) -> (r: Self)
        ensures
            r.cleanup_paths@ == cleanup_paths@,
            r.label == self.label,
            r.command == self.command,
            r.args == self.args,
            r.cwd == self.cwd,
            r.env == self.env,
            r.stdin == self.stdin,
            r.timeout_ms == self.timeout_ms,
            r.output_limit_bytes == self.output_limit_bytes,
    {
        ProcessSpec { cleanup_paths, ..self }
    }
}

// ---------------------------------------------------------------------------
// Resource limits
// ---------------------------------------------------------------------------

/// A soft and a hard resource limit; `None` is unlimited.
#[derive(Clone, Copy, Debug, PartialEq, Eq)]
pub struct ResourceLimit {
    pub current: Option<u64>,
    pub maximum: Option<u64>,
}

/// The resources the child is limited in.
#[derive(Clone, Copy, Debug, PartialEq, Eq)]
pub enum LimitedResource {
    OpenFiles,
    FileSize,
    CpuTime,
    AddressSpace,
}

/// Calls `rustix::process::getrlimit`. What the process's limits are is
/// machine state: the contract claims nothing of them.
#[verifier::external_body]
fn inherited_limit(resource: LimitedResource) -> (r: ResourceLimit) {
    let resource = match resource {
        LimitedResource::OpenFiles => rustix::process::Resource::Nofile,
        LimitedResource::FileSize => rustix::process::Resource::Fsize,
        LimitedResource::CpuTime => rustix::process::Resource::Cpu,
        LimitedResource::AddressSpace => rustix::process::Resource::As,
    };
    let limit = rustix::process::getrlimit(resource);
    ResourceLimit { current: limit.current, maximum: limit.maximum }
}

/// The limit passed to the shell: the target, lowered to the inherited hard
/// limit, in units of `unit` bytes.
pub open spec fn shell_limit(current: ResourceLimit, target: u64, unit: u64) -> u64 {
    let hard = match current.maximum {
        Some(m) => m,
        None => target,
    };
    (if target <= hard {
        target
    } else {
        hard
    }) / unit
}

pub fn shell_limit_value(current: ResourceLimit, target: u64, unit: u64) -> (r: u64)
    requires
        unit > 0,
    ensures
        r == shell_limit(current, target, unit),
{
    let hard_limit = match current.maximum {
        Some(m) => m,
        None => target,
    };
    let value = if target <= hard_limit {
        target
    } else {
        hard_limit
    };
    value / unit
}

/// One `ulimit` flag and its value.
#[derive(Clone, Copy, Debug, Eq, PartialEq)]
pub struct ChildResourceLimit {
    pub flag: &'static str,
    pub value: u64,
}

pub open spec fn limit_flags() -> Seq<Seq<char>> {
    seq![seq!['-', 'n'], seq!['-', 'f'], seq!['-', 't'], seq!['-', 'v']]
}

/// The limits for a child: open files, file size in 512-byte blocks, CPU
/// seconds, and address space in KiB, each lowered to the inherited limit.
pub fn child_resource_limits() -> (r: Vec<ChildResourceLimit>)
    ensures
        r@.len() == 4,
        forall|i: int| 0 <= i < 4 ==> (#[trigger] r@[i]).flag@ == limit_flags()[i],
        r@[0].value <= CHILD_MAX_OPEN_FILES,
        r@[1].value <= CHILD_MAX_FILE_BYTES / RESOURCE_LIMIT_FILE_BLOCK_BYTES,
        r@[2].value <= CHILD_MAX_CPU_SECONDS,
        r@[3].value <= CHILD_MAX_ADDRESS_SPACE_BYTES / RESOURCE_LIMIT_MEMORY_KIB_BYTES,
{
    let mut limits: Vec<ChildResourceLimit> = Vec::new();
    let open_files = shell_limit_value(
        inherited_limit(LimitedResource::OpenFiles),
        CHILD_MAX_OPEN_FILES,
        1,
    );
    limits.push(ChildResourceLimit { flag: "-n", value: open_files });
    let file_size = shell_limit_value(
        inherited_limit(LimitedResource::FileSize),
        CHILD_MAX_FILE_BYTES,
        RESOURCE_LIMIT_FILE_BLOCK_BYTES,
    );
    limits.push(ChildResourceLimit { flag: "-f", value: file_size });
    let cpu = shell_limit_value(
        inherited_limit(LimitedResource::CpuTime),
        CHILD_MAX_CPU_SECONDS,
        1,
    );
    limits.push(ChildResourceLimit { flag: "-t", value: cpu });
    let address_space = shell_limit_value(
        inherited_limit(LimitedResource::AddressSpace),
        CHILD_MAX_ADDRESS_SPACE_BYTES,
        RESOURCE_LIMIT_MEMORY_KIB_BYTES,
    );
    limits.push(ChildResourceLimit { flag: "-v", value: address_space });
    proof {
        reveal_strlit("-n");
        reveal_strlit("-f");
        reveal_strlit("-t");
        reveal_strlit("-v");
        assert(limits@[0].flag@ =~= limit_flags()[0]);
        assert(limits@[1].flag@ =~= limit_flags()[1]);
        assert(limits@[2].flag@ =~= limit_flags()[2]);
        assert(limits@[3].flag@ =~= limit_flags()[3]);
    }
    limits
}

pub open spec fn quote_dollar() -> Seq<char> {
    seq![' ', '"', '$']
}

/// `ulimit <flag> "$<n>"`.
pub open spec fn ulimit_clause(flag: Seq<char>, n: nat) -> Seq<char> {
    seq!['u', 'l', 'i', 'm', 'i', 't', ' '] + flag + quote_dollar() + decimal(n) + seq!['"']
}

/// The `ulimit` clauses for `limits[..k]`, joined by ` && `.
pub open spec fn ulimit_clauses(limits: Seq<ChildResourceLimit>, k: int) -> Seq<char>
    decreases k,
{
    if k <= 0 {
        Seq::empty()
    } else if k == 1 {
        ulimit_clause(limits[0].flag@, 1)
    } else {
        ulimit_clauses(limits, k - 1) + seq![' ', '&', '&', ' '] + ulimit_clause(
            limits[k - 1].flag@,
            k as nat,
        )
    }
}

/// The wrapper script: apply each limit from a positional argument, drop
/// those arguments, and `exec` the rest. The requested command never enters
/// the script text.
pub open spec fn limit_script(limits: Seq<ChildResourceLimit>) -> Seq<char> {
    ulimit_clauses(limits, limits.len() as int) + (if limits.len() > 0 {
        seq![' ', '&', '&', ' ', 's', 'h', 'i', 'f', 't', ' '] + decimal(limits.len()) + seq![
            ' ',
            '&',
            '&',
            ' ',
        ]
    } else {
        Seq::empty()
    }) + seq!['e', 'x', 'e', 'c', ' ', '"', '$', '@', '"']
}

/// The decimal values of `limits`.
pub open spec fn limit_values(limits: Seq<ChildResourceLimit>) -> Seq<Seq<char>> {
    limits.map_values(|l: ChildResourceLimit| decimal(l.value as nat))
}

/// The shell's arguments: `-c`, the script, the script's `$0`, the limit
/// values, the command and its arguments.
pub open spec fn limit_shell_args(
    limits: Seq<ChildResourceLimit>,
    command: Seq<char>,
    args: Seq<Seq<char>>,
) -> Seq<Seq<char>> {
    seq!["-c"@, limit_script(limits), "runx-resource-limits"@] + limit_values(limits)
        + seq![command] + args
}

/// The view of a vector of strings.
pub open spec fn strings_view(v: Seq<String>) -> Seq<Seq<char>> {
    v.map_values(|s: String| s@)
}

fn push_string(args: &mut Vec<String>, s: String)
    ensures
        strings_view(final(args)@) == strings_view(old(args)@).push(s@),
{
    let ghost before = strings_view(args@);
    args.push(s);
    assert(strings_view(args@) =~= before.push(s@));
}

/// The wrapper shell's arguments for `limits` and `spec`.
pub fn resource_limit_shell_args_for_limits(
    limits: &Vec<ChildResourceLimit>,
    spec: &ProcessSpec,
) -> (r: Vec<String>)
    requires
        limits@.len() < u64::MAX,
    ensures
        strings_view(r@) == limit_shell_args(limits@, spec.command@, strings_view(spec.args@)),
{
    let mut script: Vec<char> = Vec::new();
    let mut index: usize = 0;
    while index < limits.len()
        invariant
            index <= limits@.len(),
            limits@.len() < u64::MAX,
            script@ == ulimit_clauses(limits@, index as int),
        decreases limits.len() - index,
    {
        let ghost before = script@;
        if index > 0 {
            extend_str(&mut script, " && ");
        }
        extend_str(&mut script, "ulimit ");
        extend_str(&mut script, limits[index].flag);
        extend_str(&mut script, " \"$");
        let n = decimal_chars((index + 1) as u64);
        extend_chars(&mut script, &n);
        script.push('"');
        proof {
            reveal_strlit(" && ");
            reveal_strlit("ulimit ");
            reveal_strlit(" \"$");
            if index > 0 {
                assert(script@ =~= before + seq![' ', '&', '&', ' '] + ulimit_clause(
                    limits@[index as int].flag@,
                    (index + 1) as nat,
                ));
            } else {
                assert(script@ =~= ulimit_clause(limits@[0].flag@, 1));
            }
        }
        index += 1;
    }
    let ghost clauses = script@;
    if limits.len() > 0 {
        extend_str(&mut script, " && shift ");
        let n = decimal_chars(limits.len() as u64);
        extend_chars(&mut script, &n);
        extend_str(&mut script, " && ");
    }
    extend_str(&mut script, "exec \"$@\"");
    proof {
        reveal_strlit(" && shift ");
        reveal_strlit(" && ");
        reveal_strlit("exec \"$@\"");
        assert(script@ =~= limit_script(limits@));
    }
    let mut args: Vec<String> = Vec::new();
    let script_string = string_of(&script);
    let ghost script_view = script_string@;
    push_string(&mut args, "-c".to_owned());
    push_string(&mut args, script_string);
    push_string(&mut args, RESOURCE_LIMIT_ARG0.to_owned());
    let ghost head = strings_view(args@);
    assert(head =~= seq!["-c"@, script_view, "runx-resource-limits"@]);
    let mut i: usize = 0;
    while i < limits.len()
        invariant
            i <= limits@.len(),
            strings_view(args@) == head + limit_values(limits@).take(i as int),
        decreases limits.len() - i,
    {
        let v = decimal_chars(limits[i].value);
        push_string(&mut args, string_of(&v));
        assert(limit_values(limits@).take(i as int).push(decimal(limits@[i as int].value as nat))
            =~= limit_values(limits@).take(i + 1));
        i += 1;
    }
    assert(limit_values(limits@).take(limits@.len() as int) =~= limit_values(limits@));
    push_string(&mut args, spec.command.clone());
    let ghost mid = strings_view(args@);
    assert(mid =~= head + limit_values(limits@) + seq![spec.command@]);
    let mut j: usize = 0;
    while j < spec.args.len()
        invariant
            j <= spec.args@.len(),
            strings_view(args@) == mid + strings_view(spec.args@).take(j as int),
        decreases spec.args.len() - j,
    {
        push_string(&mut args, spec.args[j].clone());
        assert(strings_view(spec.args@).take(j as int).push(spec.args@[j as int]@)
            =~= strings_view(spec.args@).take(j + 1));
        j += 1;
    }
    proof {
        reveal_strlit("-c");
        reveal_strlit("runx-resource-limits");
        assert(strings_view(spec.args@).take(spec.args@.len() as int) =~= strings_view(
            spec.args@,
        ));
        assert(strings_view(args@) =~= limit_shell_args(
            limits@,
            spec.command@,
            strings_view(spec.args@),
        ));
    }
    args
}

/// The shell that applies resource limits.
pub fn resource_limit_shell() -> (r: &'static str)
    ensures
        r@ == "/bin/sh"@,
{
    RESOURCE_LIMIT_SHELL
}

/// The wrapper shell's arguments for `spec`, with this process's limits.
pub fn resource_limit_shell_args(spec: &ProcessSpec) -> (r: Vec<String>)
    ensures
        exists|limits: Seq<ChildResourceLimit>|
            limits.len() == 4 && strings_view(r@) == limit_shell_args(
                limits,
                spec.command@,
                strings_view(spec.args@),
            ),
{
    let limits = child_resource_limits();
    resource_limit_shell_args_for_limits(&limits, spec)
}

// ---------------------------------------------------------------------------
// Output capture
// ---------------------------------------------------------------------------

/// What a child wrote, up to the limit, and whether more was cut off.
#[derive(Debug, PartialEq, Eq)]
pub struct CapturedOutput {
    pub bytes: Vec<u8>,
    pub truncated: bool,
}

impl CapturedOutput {
    pub fn new() -> (r: Self)
        ensures
            r.bytes@.len() == 0,
            !r.truncated,
    {
        CapturedOutput { bytes: Vec::new(), truncated: false }
    }

    /// Takes in one chunk read from the pipe: the part that still fits under
    /// `limit` is kept, and the output is marked truncated when some of the
    /// chunk did not fit.
    pub fn append_chunk(&mut self, chunk: &[u8], limit: usize)
        ensures
            ({
                let room = if old(self).bytes@.len() >= limit {
                    0
                } else {
                    limit - old(self).bytes@.len()
                };
                let kept = if chunk@.len() <= room {
                    chunk@.len() as int
                } else {
                    room
                };
                &&& final(self).bytes@ == old(self).bytes@ + chunk@.subrange(0, kept)
                &&& final(self).truncated == (old(self).truncated || chunk@.len() > room)
            }),
    {
        let remaining: usize = if self.bytes.len() >= limit {
            0
        } else {
            limit - self.bytes.len()
        };
        let take: usize = if chunk.len() <= remaining {
            chunk.len()
        } else {
            remaining
        };
        let ghost before = self.bytes@;
        let mut i: usize = 0;
        while i < take
            invariant
                take <= chunk@.len(),
                i <= take,
                self.bytes@ == before + chunk@.subrange(0, i as int),
                self.truncated == old(self).truncated,
                before == old(self).bytes@,
            decreases take - i,
        {
            self.bytes.push(chunk[i]);
            assert(before + chunk@.subrange(0, i as int).push(chunk@[i as int]) =~= before
                + chunk@.subrange(0, i + 1));
            i += 1;
        }
        if chunk.len() > remaining {
            self.truncated = true;
        }
    }
}

/// Capture never keeps more than the limit, once it started under it.
pub proof fn captured_output_stays_within_limit(before: Seq<u8>, chunk: Seq<u8>, limit: nat)
    requires
        before.len() <= limit,
    ensures
        ({
            let room = limit - before.len();
            let kept = if chunk.len() <= room {
                chunk.len() as int
            } else {
                room
            };
            (before + chunk.subrange(0, kept)).len() <= limit
        }),
{
}

// ---------------------------------------------------------------------------
// Step descriptions
// ---------------------------------------------------------------------------

/// `spawning <label> process `<command>`[ in <cwd>]`.
pub open spec fn spawn_context_text(label: Seq<char>, command: Seq<char>, cwd: Option<Seq<char>>) -> Seq<
    char,
> {
    "spawning "@ + label + " process `"@ + command + "`"@ + match cwd {
        Some(dir) => " in "@ + dir,
        None => Seq::empty(),
    }
}

pub fn spawn_context(spec: &ProcessSpec) -> (r: String)
    ensures
        r@ == spawn_context_text(
            spec.label@,
            spec.command@,
            match spec.cwd {
                Some(d) => Some(d@),
                None => None,
            },
        ),
{
    let mut out = chars_of("spawning ");
    extend_str(&mut out, spec.label);
    extend_str(&mut out, " process `");
    extend_str(&mut out, spec.command.as_str());
    extend_str(&mut out, "`");
    match &spec.cwd {
        Some(dir) => {
            extend_str(&mut out, " in ");
            extend_str(&mut out, dir.as_str());
        },
        None => {},
    }
    proof {
        assert(out@ =~= spawn_context_text(
            spec.label@,
            spec.command@,
            match spec.cwd {
                Some(d) => Some(d@),
                None => None,
            },
        ));
    }
    string_of(&out)
}


/// Joins five pieces of text.
fn concat5(a: &str, b: &str, c: &str, d: &str, e: &str) -> (r: String)
    ensures
        r@ == a@ + b@ + c@ + d@ + e@,
{
    let mut out = chars_of(a);
    extend_str(&mut out, b);
    extend_str(&mut out, c);
    extend_str(&mut out, d);
    extend_str(&mut out, e);
    string_of(&out)
}

/// `opening <label> <stream> pipe`.
pub fn open_pipe_context(label: &str, stream: &str) -> (r: String)
    ensures
        r@ == "opening "@ + label@ + " "@ + stream@ + " pipe"@,
{
    concat5("opening ", label, " ", stream, " pipe")
}

/// `collecting <label> <stream>`.
pub fn collect_context(label: &str, stream: &str) -> (r: String)
    ensures
        r@ == "collecting "@ + label@ + " "@ + stream@ + ""@,
{
    concat5("collecting ", label, " ", stream, "")
}

/// `waiting for <label> process`.
pub fn wait_context(label: &str) -> (r: String)
    ensures
        r@ == "waiting for "@ + label@ + " process"@,
{
    concat3("waiting for ", label, " process")
}

/// `waiting for <label> process with timeout`.
pub fn wait_timeout_context(label: &str) -> (r: String)
    ensures
        r@ == "waiting for "@ + label@ + " process with timeout"@,
{
    concat3("waiting for ", label, " process with timeout")
}

/// `waiting for timed out <label> process`.
pub fn wait_timed_out_context(label: &str) -> (r: String)
    ensures
        r@ == "waiting for timed out "@ + label@ + " process"@,
{
    concat3("waiting for timed out ", label, " process")
}

/// `polling timed out <label> process`.
pub fn poll_timed_out_context(label: &str) -> (r: String)
    ensures
        r@ == "polling timed out "@ + label@ + " process"@,
{
    concat3("polling timed out ", label, " process")
}

/// `killing timed out <label> process`.
pub fn kill_timed_out_context(label: &str) -> (r: String)
    ensures
        r@ == "killing timed out "@ + label@ + " process"@,
{
    concat3("killing timed out ", label, " process")
}

/// A command with a `/` names a path that must exist; a bare name is looked
/// up on `PATH` by the operating system.
pub fn command_names_explicit_path(command: &str) -> (b: bool)
    ensures
        b == command@.contains('/'),
{
    let v = chars_of(command);
    let mut i: usize = 0;
    while i < v.len()
        invariant
            i <= v.len(),
            v@ == command@,
            forall|j: int| 0 <= j < i ==> v@[j] != '/',
        decreases v.len() - i,
    {
        if v[i] == '/' {
            assert(command@[i as int] == '/');
            return true;
        }
        i += 1;
    }
    false
}

} // verus!
