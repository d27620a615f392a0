//! Types exchanged between the invoker and the valuer.

use vstd::prelude::*;

verus! {

/// Coarse classification of a test or submission status.
#[derive(Clone, Copy, Debug, PartialEq, Eq, Structural, PartialOrd, Ord, Hash)]
pub enum StatusKind {
    Queue,
    /// WA, TLE, rejected by teacher, etc
    Rejected,
    /// e.g. Coding Style Violation
    CompilationError,
    Accepted,
    NotSet,
    InternalError,
    Skipped,
}

impl StatusKind {
    /// Only `Accepted` counts as success.
    pub fn is_success(self) -> (r: bool)
        ensures
            r <==> self == StatusKind::Accepted,
    {
        matches!(self, StatusKind::Accepted)
    }
}

/// Build-related status codes.
pub const TOOLCHAIN_SEARCH_ERROR: &'static str = "TOOLCHAIN_SEARCH_ERROR";
pub const BUILT: &'static str = "BUILT";
pub const COMPILATION_TIMED_OUT: &'static str = "COMPILATION_TIMED_OUT";
pub const COMPILER_FAILED: &'static str = "COMPILER_FAILED";

/// Per-test status codes.
pub const TIME_LIMIT_EXCEEDED: &'static str = "TIME_LIMIT_EXCEEDED";
pub const RUNTIME_ERROR: &'static str = "RUNTIME_ERROR";
pub const TEST_PASSED: &'static str = "TEST_PASSED";
pub const JUDGE_FAULT: &'static str = "JUDGE_FAULT";
pub const WRONG_ANSWER: &'static str = "WRONG_ANSWER";
pub const PRESENTATION_ERROR: &'static str = "PRESENTATION_ERROR";
pub const LAUNCH_ERROR: &'static str = "LAUNCH_ERROR";

/// Aggregated status codes.
pub const ACCEPTED: &'static str = "ACCEPTED";
pub const PARTIAL_SOLUTION: &'static str = "PARTIAL_SOLUTION";
pub const BUILD_ERROR: &'static str = "BUILD_ERROR";

/// A status: its kind and a machine-readable code.
#[derive(Clone, Debug, PartialEq, Eq, PartialOrd, Ord, Hash)]
pub struct Status {
    pub kind: StatusKind,
    pub code: String,
}

/// Parts of a test row that the reader of a judge log may see, as bits.
#[derive(Clone, Copy, Debug, PartialEq, Eq, Structural, Hash)]
pub struct TestVisibleComponents {
    pub bits: u32,
}

/// Parts of a subtask row that the reader of a judge log may see, as bits.
#[derive(Clone, Copy, Debug, PartialEq, Eq, Structural, Hash)]
pub struct SubtaskVisibleComponents {
    pub bits: u32,
}

/// Identifier of a test; tests are numbered from one.
#[derive(Clone, Copy, Debug, PartialEq, Eq, Structural, Hash)]
pub struct TestId(pub u32);

#[derive(Clone, Debug, PartialEq, Eq)]
pub struct JudgeLogTestRow {
    pub test_id: TestId,
    pub status: Status,
    pub components: TestVisibleComponents,
}

/// Identifier of a subtask; never zero.
#[derive(Clone, Copy, Debug, PartialEq, Eq, Structural, Hash)]
pub struct SubtaskId(pub u32);

impl SubtaskId {
    pub open spec fn wf(self) -> bool {
        self.0 != 0
    }

    /// Makes the identifier of subtask `n`, which must not be zero.
    pub fn make(n: u32) -> (r: SubtaskId)
        requires
            n != 0,
        ensures
            r.0 == n,
            r.wf(),
    {
        SubtaskId(n)
    }
}

#[derive(Clone, Copy, Debug, PartialEq, Eq, Structural)]
pub struct JudgeLogSubtaskRow {
    pub subtask_id: SubtaskId,
    pub score: u32,
    pub components: SubtaskVisibleComponents,
}

#[derive(Clone, Copy, Debug, PartialEq, Eq, Structural)]
pub enum JudgeLogKind {
    /// Contains all tests.
    /// Test can be omitted, if staring it was speculation.
    Full,
    /// Contains judge log for contestant
    /// Valuer should respect various restrictions specified in config.
    Contestant,
}

impl JudgeLogKind {
    /// The lower-case name of the kind.
    pub fn as_str(self) -> (r: &'static str)
        ensures
            self == JudgeLogKind::Full ==> r@ == "full"@,
            self == JudgeLogKind::Contestant ==> r@ == "contestant"@,
    {
        match self {
            JudgeLogKind::Full => "full",
            JudgeLogKind::Contestant => "contestant",
        }
    }

    /// Every kind once, the contestant's first.
    pub fn list() -> (r: Vec<JudgeLogKind>)
        ensures
            r@ == seq![JudgeLogKind::Contestant, JudgeLogKind::Full],
    {
        vec![JudgeLogKind::Contestant, JudgeLogKind::Full]
    }
}

/// Judge log from the valuer's point of view.
#[derive(Clone, Debug, PartialEq, Eq)]
pub struct JudgeLog {
    pub kind: JudgeLogKind,
    pub tests: Vec<JudgeLogTestRow>,
    pub subtasks: Vec<JudgeLogSubtaskRow>,
    pub score: u32,
    pub is_full: bool,
}

impl Default for JudgeLog {
    /// An empty contestant log with no score.
    fn default() -> (r: JudgeLog)
        ensures
            r.kind == JudgeLogKind::Contestant,
            r.tests@.len() == 0,
            r.subtasks@.len() == 0,
            r.score == 0,
            !r.is_full,
    {
        JudgeLog {
            kind: JudgeLogKind::Contestant,
            tests: Vec::new(),
            subtasks: Vec::new(),
            score: 0,
            is_full: false,
        }
    }
}

#[derive(Clone, Debug)]
pub struct ProblemInfo {
    pub tests: Vec<String>,
}

#[derive(Clone, Debug, PartialEq, Eq)]
pub struct TestDoneNotification {
    pub test_id: TestId,
    pub test_status: Status,
}

#[derive(Clone, Debug, PartialEq, Eq)]
pub enum ValuerResponse {
    Test { test_id: TestId, live: bool },
    /// Sent when judge log ready.
    /// Judge log of each kind must be sent at most once.
    JudgeLog(JudgeLog),
    Finish,
    LiveScore { score: u32 },
}

} // verus!
