use vstd::prelude::*;
use vstd::string::*;

use crate::conf::append_str;
use crate::error::GfxError;
use crate::setup::{module_name, KernelModule};

verus! {

/// How many times a module load or unload is tried before it is reported as
/// failed.
pub const DRIVER_ATTEMPTS: u32 = 6;

/// Milliseconds to wait between two attempts.
pub const DRIVER_RETRY_DELAY_MS: u64 = 50;

pub const NOT_LOADED_SUFFIX: &'static str = "is not currently loaded";

pub const BUILTIN_SUFFIX: &'static str = "is builtin.";

pub const PERMISSION_DENIED_SUFFIX: &'static str = "Permission denied";

pub const MISSING_MODULE_HEAD: &'static str = "Module ";

pub const MISSING_MODULE_TAIL: &'static str = " not found";

/// What one run of `modprobe` or `rmmod` meant, by its exit status and its
/// error output.
#[derive(Debug, Clone, Copy, PartialEq, Eq, Structural)]
pub enum AttemptClass {
    /// The command succeeded.
    Succeeded,
    /// The module was not loaded to begin with: nothing left to do.
    NotLoaded,
    /// The module is built into the kernel.
    Builtin,
    /// Permission was denied; the action may still have happened by another path.
    PermissionDenied,
    /// The module does not exist.
    Missing,
    /// Any other failure, which may pass on a later attempt.
    Transient,
}

/// Why a driver action failed for good.
#[derive(Debug, Clone, Copy, PartialEq, Eq, Structural)]
pub enum DriverFailure {
    Exhausted,
    Builtin,
    Missing,
}

/// What follows one attempt of a driver action.
#[derive(Debug, Clone, Copy, PartialEq, Eq, Structural)]
pub enum DriverStep {
    /// The action is complete.
    Done,
    /// Wait `DRIVER_RETRY_DELAY_MS` and try again.
    Retry,
    /// The action failed.
    Failed(DriverFailure),
}

pub open spec fn ends_with(s: Seq<u8>, suffix: Seq<u8>) -> bool {
    s.len() >= suffix.len() && s.subrange(s.len() - suffix.len(), s.len() as int) == suffix
}

pub open spec fn matches_at(s: Seq<u8>, p: Seq<u8>, i: int) -> bool {
    0 <= i && i + p.len() <= s.len() && s.subrange(i, i + p.len()) == p
}

pub open spec fn contains(s: Seq<u8>, p: Seq<u8>) -> bool {
    exists|i: int| matches_at(s, p, i)
}

/// The message without one final line break.
pub open spec fn trim_newline(s: Seq<u8>) -> Seq<u8> {
    if s.len() > 0 && s.last() == 10u8 {
        s.drop_last()
    } else {
        s
    }
}

/// The message that `modprobe` gives for a module that does not exist.
pub open spec fn missing_module_message(m: KernelModule) -> Seq<u8> {
    MISSING_MODULE_HEAD.spec_bytes() + module_name(m).spec_bytes() + MISSING_MODULE_TAIL.spec_bytes()
}

/// The rules, in order, that classify an attempt on module `m`.
pub open spec fn classify(m: KernelModule, success: bool, stderr: Seq<u8>) -> AttemptClass {
    let msg = trim_newline(stderr);
    if success {
        AttemptClass::Succeeded
    } else if ends_with(msg, NOT_LOADED_SUFFIX.spec_bytes()) {
        AttemptClass::NotLoaded
    } else if ends_with(msg, BUILTIN_SUFFIX.spec_bytes()) {
        AttemptClass::Builtin
    } else if ends_with(msg, PERMISSION_DENIED_SUFFIX.spec_bytes()) {
        AttemptClass::PermissionDenied
    } else if contains(stderr, missing_module_message(m)) {
        AttemptClass::Missing
    } else {
        AttemptClass::Transient
    }
}

/// What follows attempt number `attempt` (counted from 1) of an action on
/// module `m`.
pub open spec fn attempt_step(m: KernelModule, attempt: nat, success: bool, stderr: Seq<u8>) -> DriverStep {
    match classify(m, success, stderr) {
        AttemptClass::Succeeded | AttemptClass::NotLoaded | AttemptClass::PermissionDenied => DriverStep::Done,
        AttemptClass::Builtin => DriverStep::Failed(DriverFailure::Builtin),
        AttemptClass::Missing => DriverStep::Failed(DriverFailure::Missing),
        AttemptClass::Transient => if attempt < DRIVER_ATTEMPTS {
            DriverStep::Retry
        } else {
            DriverStep::Failed(DriverFailure::Exhausted)
        },
    }
}

/// The outcome of an action whose attempts, from number `attempt` on, end
/// with the given exit statuses and error outputs: the step of the first
/// attempt that is not retried.
pub open spec fn run_attempts(m: KernelModule, outputs: Seq<(bool, Seq<u8>)>, attempt: nat) -> DriverStep
    decreases outputs.len(),
{
    if outputs.len() == 0 {
        DriverStep::Retry
    } else {
        let step = attempt_step(m, attempt, outputs[0].0, outputs[0].1);
        if step == DriverStep::Retry {
            run_attempts(m, outputs.drop_first(), attempt + 1)
        } else {
            step
        }
    }
}

proof fn lemma_run_transient_prefix(m: KernelModule, outputs: Seq<(bool, Seq<u8>)>, attempt: nat, n: nat)
    requires
        n <= outputs.len(),
        attempt >= 1,
        attempt + n <= DRIVER_ATTEMPTS,
        forall|i: int| 0 <= i < n ==> classify(m, #[trigger] outputs[i].0, outputs[i].1) == AttemptClass::Transient,
    ensures
        run_attempts(m, outputs, attempt) == run_attempts(m, outputs.subrange(n as int, outputs.len() as int), attempt + n),
    decreases n,
{
    if n > 0 {
        assert(classify(m, outputs[0].0, outputs[0].1) == AttemptClass::Transient);
        let rest = outputs.drop_first();
        assert forall|i: int| 0 <= i < n - 1 implies classify(m, #[trigger] rest[i].0, rest[i].1) == AttemptClass::Transient by {
            assert(rest[i] == outputs[i + 1]);
        }
        lemma_run_transient_prefix(m, rest, attempt + 1, (n - 1) as nat);
        assert(rest.subrange(n - 1, rest.len() as int) =~= outputs.subrange(n as int, outputs.len() as int));
    } else {
        assert(outputs.subrange(0, outputs.len() as int) =~= outputs);
    }
}

/// A driver action is tried at most `DRIVER_ATTEMPTS` times: five failures
/// of a kind that may pass later, then a success, end the action as done.
pub proof fn lemma_success_on_last_attempt(m: KernelModule, outputs: Seq<(bool, Seq<u8>)>)
    requires
        outputs.len() == DRIVER_ATTEMPTS,
        forall|i: int| 0 <= i < DRIVER_ATTEMPTS - 1 ==> classify(m, #[trigger] outputs[i].0, outputs[i].1) == AttemptClass::Transient,
        outputs[DRIVER_ATTEMPTS - 1].0,
    ensures
        run_attempts(m, outputs, 1) == DriverStep::Done,
{
    lemma_run_transient_prefix(m, outputs, 1, (DRIVER_ATTEMPTS - 1) as nat);
    let rest = outputs.subrange(DRIVER_ATTEMPTS - 1, outputs.len() as int);
    assert(rest[0] == outputs[DRIVER_ATTEMPTS - 1]);
}

/// Six failures of a kind that may pass later fail the action as exhausted;
/// no seventh attempt is made.
pub proof fn lemma_failure_after_last_attempt(m: KernelModule, outputs: Seq<(bool, Seq<u8>)>)
    requires
        outputs.len() >= DRIVER_ATTEMPTS,
        forall|i: int| 0 <= i < DRIVER_ATTEMPTS ==> classify(m, #[trigger] outputs[i].0, outputs[i].1) == AttemptClass::Transient,
    ensures
        run_attempts(m, outputs, 1) == DriverStep::Failed(DriverFailure::Exhausted),
{
    lemma_run_transient_prefix(m, outputs, 1, (DRIVER_ATTEMPTS - 1) as nat);
    let rest = outputs.subrange(DRIVER_ATTEMPTS - 1, outputs.len() as int);
    assert(rest[0] == outputs[DRIVER_ATTEMPTS - 1]);
}

/// A failure whose message ends "is not currently loaded" ends the action as
/// done at the first attempt.
pub proof fn lemma_not_loaded_is_done(m: KernelModule, stderr: Seq<u8>, outputs: Seq<(bool, Seq<u8>)>)
    requires
        outputs.len() >= 1,
        outputs[0] == (false, stderr),
        ends_with(trim_newline(stderr), NOT_LOADED_SUFFIX.spec_bytes()),
    ensures
        attempt_step(m, 1, false, stderr) == DriverStep::Done,
        run_attempts(m, outputs, 1) == DriverStep::Done,
{
}

/// Whether `s` ends with `suffix`.
pub fn bytes_end_with(s: &[u8], end: usize, suffix: &[u8]) -> (r: bool)
    requires
        end <= s@.len(),
    ensures
        r == ends_with(s@.take(end as int), suffix@),
{
    if suffix.len() > end {
        return false;
    }
    let start = end - suffix.len();
    let mut k: usize = 0;
    while k < suffix.len()
        invariant
            start + suffix@.len() == end,
            end <= s@.len(),
            0 <= k <= suffix@.len(),
            forall|j: int| 0 <= j < k ==> s@[start + j] == suffix@[j],
        decreases suffix@.len() - k,
    {
        if s[start + k] != suffix[k] {
            assert(s@.take(end as int).subrange(start as int, end as int)[k as int] != suffix@[k as int]);
            return false;
        }
        k = k + 1;
    }
    assert(s@.take(end as int).subrange(start as int, end as int) =~= suffix@);
    true
}

/// Whether `p` occurs in `s`.
pub fn bytes_contain(s: &[u8], p: &[u8]) -> (r: bool)
    ensures
        r == contains(s@, p@),
{
    if p.len() > s.len() {
        return false;
    }
    let last = s.len() - p.len();
    let mut i: usize = 0;
    while i <= last
        invariant
            p@.len() <= s@.len(),
            s@.len() == s.len(),
            last == s@.len() - p@.len(),
            0 <= i <= last + 1,
            forall|j: int| 0 <= j < i ==> !matches_at(s@, p@, j),
        decreases last + 1 - i,
    {
        let mut k: usize = 0;
        while k < p.len()
            invariant
                p@.len() <= s@.len(),
                s@.len() == s.len(),
                i <= last,
                last == s@.len() - p@.len(),
                0 <= k <= p@.len(),
                forall|j: int| 0 <= j < k ==> s@[i + j] == p@[j],
            ensures
                0 <= k <= p@.len(),
                forall|j: int| 0 <= j < k ==> s@[i + j] == p@[j],
                k < p@.len() ==> s@[i + k] != p@[k as int],
            decreases p@.len() - k,
        {
            if s[i + k] != p[k] {
                break;
            }
            k = k + 1;
        }
        if k == p.len() {
            assert(s@.subrange(i as int, i + p@.len()) =~= p@);
            assert(matches_at(s@, p@, i as int));
            return true;
        }
        assert(s@.subrange(i as int, i + p@.len())[k as int] != p@[k as int]);
        i = i + 1;
    }
    assert forall|j: int| !matches_at(s@, p@, j) by {
        if 0 <= j && j + p@.len() <= s@.len() {
            assert(j < i);
        }
    }
    false
}

/// Classifies one run of `modprobe` or `rmmod` on module `m` by its exit
/// status and error output.
pub fn classify_attempt(m: KernelModule, success: bool, stderr: &Vec<u8>) -> (r: AttemptClass)
    ensures
        r == classify(m, success, stderr@),
{
    if success {
        return AttemptClass::Succeeded;
    }
    let s = stderr.as_slice();
    let end = if s.len() > 0 && s[s.len() - 1] == 10u8 {
        s.len() - 1
    } else {
        s.len()
    };
    assert(s@.take(end as int) =~= trim_newline(stderr@));
    if bytes_end_with(s, end, NOT_LOADED_SUFFIX.as_bytes()) {
        return AttemptClass::NotLoaded;
    }
    if bytes_end_with(s, end, BUILTIN_SUFFIX.as_bytes()) {
        return AttemptClass::Builtin;
    }
    if bytes_end_with(s, end, PERMISSION_DENIED_SUFFIX.as_bytes()) {
        return AttemptClass::PermissionDenied;
    }
    let mut pattern: Vec<u8> = Vec::new();
    append_str(&mut pattern, MISSING_MODULE_HEAD);
    append_str(&mut pattern, m.name());
    append_str(&mut pattern, MISSING_MODULE_TAIL);
    assert(pattern@ =~= missing_module_message(m));
    if bytes_contain(s, pattern.as_slice()) {
        return AttemptClass::Missing;
    }
    AttemptClass::Transient
}

/// Decides what follows attempt number `attempt` (counted from 1) of loading
/// or unloading module `m`, given the command's exit status and error output:
/// success, a module that was not loaded, and a denied permission end the
/// action; a built-in or missing module fails it; any other failure is
/// retried until `DRIVER_ATTEMPTS` attempts have failed.
pub fn driver_attempt_step(m: KernelModule, attempt: u32, success: bool, stderr: &Vec<u8>) -> (r: DriverStep)
    ensures
        r == attempt_step(m, attempt as nat, success, stderr@),
{
    match classify_attempt(m, success, stderr) {
        AttemptClass::Succeeded | AttemptClass::NotLoaded | AttemptClass::PermissionDenied => DriverStep::Done,
        AttemptClass::Builtin => DriverStep::Failed(DriverFailure::Builtin),
        AttemptClass::Missing => DriverStep::Failed(DriverFailure::Missing),
        AttemptClass::Transient => if attempt < DRIVER_ATTEMPTS {
            DriverStep::Retry
        } else {
            DriverStep::Failed(DriverFailure::Exhausted)
        },
    }
}

/// The error that reports a failed action on module `m`.
pub fn driver_error(m: KernelModule, failure: DriverFailure) -> (r: GfxError)
    ensures
        failure == DriverFailure::Exhausted ==> (r matches GfxError::DriverAction(n) && n@ == module_name(m)@),
        failure == DriverFailure::Builtin ==> (r matches GfxError::DriverBuiltin(n) && n@ == module_name(m)@),
        failure == DriverFailure::Missing ==> (r matches GfxError::MissingModule(n) && n@ == module_name(m)@),
{
    let name = String::from_str(m.name());
    match failure {
        DriverFailure::Exhausted => GfxError::DriverAction(name),
        DriverFailure::Builtin => GfxError::DriverBuiltin(name),
        DriverFailure::Missing => GfxError::MissingModule(name),
    }
}

} // verus!
