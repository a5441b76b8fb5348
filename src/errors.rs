use vstd::prelude::*;
use vstd::string::StringExecFns;

verus! {

/// The stable machine-readable kinds of version-management failures.
#[derive(Debug, Clone, Copy, PartialEq, Eq, Structural)]
pub enum VersionErrorCode {
    InvalidInput,
    SourceTimeout,
    SourceUnavailable,
    NoValidSourceResult,
    UpdateConflict,
    StepFailed,
    RollbackFailed,
}

/// The machine code of each kind.
pub open spec fn code_text(c: VersionErrorCode) -> Seq<char> {
    match c {
        VersionErrorCode::InvalidInput => "VERSION_INVALID_INPUT"@,
        VersionErrorCode::SourceTimeout => "VERSION_SOURCE_TIMEOUT"@,
        VersionErrorCode::SourceUnavailable => "VERSION_SOURCE_UNAVAILABLE"@,
        VersionErrorCode::NoValidSourceResult => "VERSION_NO_VALID_SOURCE_RESULT"@,
        VersionErrorCode::UpdateConflict => "VERSION_UPDATE_CONFLICT"@,
        VersionErrorCode::StepFailed => "VERSION_STEP_FAILED"@,
        VersionErrorCode::RollbackFailed => "VERSION_ROLLBACK_FAILED"@,
    }
}

/// The operator-facing sentence of each kind.
pub open spec fn hint_text(c: VersionErrorCode) -> Seq<char> {
    match c {
        VersionErrorCode::InvalidInput => "输入参数无效，请检查配置"@,
        VersionErrorCode::SourceTimeout => "版本检查超时，请稍后重试"@,
        VersionErrorCode::SourceUnavailable => "版本源不可用，请检查网络连接"@,
        VersionErrorCode::NoValidSourceResult => "所有版本源检查失败，请检查配置"@,
        VersionErrorCode::UpdateConflict => "该镜像正在更新中，请稍后重试"@,
        VersionErrorCode::StepFailed => "更新步骤执行失败"@,
        VersionErrorCode::RollbackFailed => "回滚失败，请手动恢复"@,
    }
}

impl VersionErrorCode {
    pub fn as_str(&self) -> (r: &'static str)
        ensures
            r@ == code_text(*self),
    {
        match self {
            VersionErrorCode::InvalidInput => {
                proof { reveal_strlit("VERSION_INVALID_INPUT"); }
                "VERSION_INVALID_INPUT"
            },
            VersionErrorCode::SourceTimeout => {
                proof { reveal_strlit("VERSION_SOURCE_TIMEOUT"); }
                "VERSION_SOURCE_TIMEOUT"
            },
            VersionErrorCode::SourceUnavailable => {
                proof { reveal_strlit("VERSION_SOURCE_UNAVAILABLE"); }
                "VERSION_SOURCE_UNAVAILABLE"
            },
            VersionErrorCode::NoValidSourceResult => {
                proof { reveal_strlit("VERSION_NO_VALID_SOURCE_RESULT"); }
                "VERSION_NO_VALID_SOURCE_RESULT"
            },
            VersionErrorCode::UpdateConflict => {
                proof { reveal_strlit("VERSION_UPDATE_CONFLICT"); }
                "VERSION_UPDATE_CONFLICT"
            },
            VersionErrorCode::StepFailed => {
                proof { reveal_strlit("VERSION_STEP_FAILED"); }
                "VERSION_STEP_FAILED"
            },
            VersionErrorCode::RollbackFailed => {
                proof { reveal_strlit("VERSION_ROLLBACK_FAILED"); }
                "VERSION_ROLLBACK_FAILED"
            },
        }
    }

    pub fn user_message(&self) -> (r: &'static str)
        ensures
            r@ == hint_text(*self),
    {
        match self {
            VersionErrorCode::InvalidInput => {
                proof { reveal_strlit("输入参数无效，请检查配置"); }
                "输入参数无效，请检查配置"
            },
            VersionErrorCode::SourceTimeout => {
                proof { reveal_strlit("版本检查超时，请稍后重试"); }
                "版本检查超时，请稍后重试"
            },
            VersionErrorCode::SourceUnavailable => {
                proof { reveal_strlit("版本源不可用，请检查网络连接"); }
                "版本源不可用，请检查网络连接"
            },
            VersionErrorCode::NoValidSourceResult => {
                proof { reveal_strlit("所有版本源检查失败，请检查配置"); }
                "所有版本源检查失败，请检查配置"
            },
            VersionErrorCode::UpdateConflict => {
                proof { reveal_strlit("该镜像正在更新中，请稍后重试"); }
                "该镜像正在更新中，请稍后重试"
            },
            VersionErrorCode::StepFailed => {
                proof { reveal_strlit("更新步骤执行失败"); }
                "更新步骤执行失败"
            },
            VersionErrorCode::RollbackFailed => {
                proof { reveal_strlit("回滚失败，请手动恢复"); }
                "回滚失败，请手动恢复"
            },
        }
    }
}

/// A version-management failure with its detail.
#[derive(Debug, Clone)]
pub enum VersionError {
    InvalidInput(String),
    SourceTimeout(String),
    SourceUnavailable(String),
    NoValidSourceResult,
    UpdateConflict(String),
    StepFailed { step: String, message: String },
    RollbackFailed(String),
    Io(String),
    Http(String),
    Parse(String),
}

/// The kind of an error; transport, I/O and parse failures count as an unavailable source.
pub open spec fn code_of(e: VersionError) -> VersionErrorCode {
    match e {
        VersionError::InvalidInput(_) => VersionErrorCode::InvalidInput,
        VersionError::SourceTimeout(_) => VersionErrorCode::SourceTimeout,
        VersionError::SourceUnavailable(_) => VersionErrorCode::SourceUnavailable,
        VersionError::NoValidSourceResult => VersionErrorCode::NoValidSourceResult,
        VersionError::UpdateConflict(_) => VersionErrorCode::UpdateConflict,
        VersionError::StepFailed { .. } => VersionErrorCode::StepFailed,
        VersionError::RollbackFailed(_) => VersionErrorCode::RollbackFailed,
        VersionError::Io(_) => VersionErrorCode::SourceUnavailable,
        VersionError::Http(_) => VersionErrorCode::SourceUnavailable,
        VersionError::Parse(_) => VersionErrorCode::SourceUnavailable,
    }
}

/// The human-readable description of an error.
pub open spec fn description_of(e: VersionError) -> Seq<char> {
    match e {
        VersionError::InvalidInput(m) => "Invalid input: "@ + m@,
        VersionError::SourceTimeout(m) => "Source timeout: "@ + m@,
        VersionError::SourceUnavailable(m) => "Source unavailable: "@ + m@,
        VersionError::NoValidSourceResult => "No valid source result"@,
        VersionError::UpdateConflict(m) => "Update conflict: "@ + m@,
        VersionError::StepFailed { step, message } => "Step failed: "@ + step@ + " - "@ + message@,
        VersionError::RollbackFailed(m) => "Rollback failed: "@ + m@,
        VersionError::Io(m) => "IO error: "@ + m@,
        VersionError::Http(m) => "HTTP error: "@ + m@,
        VersionError::Parse(m) => "Parse error: "@ + m@,
    }
}

/// The message shown to an operator: the kind's sentence, then the description.
pub open spec fn user_message_of(e: VersionError) -> Seq<char> {
    hint_text(code_of(e)) + ": "@ + description_of(e)
}

fn labelled(label: &str, detail: &String) -> (r: String)
    ensures
        r@ == label@ + detail@,
{
    let mut s = String::from_str(label);
    s.append(detail.as_str());
    s
}

impl VersionError {
    pub fn code(&self) -> (r: VersionErrorCode)
        ensures
            r == code_of(*self),
    {
        match self {
            VersionError::InvalidInput(_) => VersionErrorCode::InvalidInput,
            VersionError::SourceTimeout(_) => VersionErrorCode::SourceTimeout,
            VersionError::SourceUnavailable(_) => VersionErrorCode::SourceUnavailable,
            VersionError::NoValidSourceResult => VersionErrorCode::NoValidSourceResult,
            VersionError::UpdateConflict(_) => VersionErrorCode::UpdateConflict,
            VersionError::StepFailed { .. } => VersionErrorCode::StepFailed,
            VersionError::RollbackFailed(_) => VersionErrorCode::RollbackFailed,
            VersionError::Io(_) | VersionError::Http(_) | VersionError::Parse(_) => {
                VersionErrorCode::SourceUnavailable
            },
        }
    }

    /// The description of this error (what its `Display` would print).
    pub fn to_string(&self) -> (r: String)
        ensures
            r@ == description_of(*self),
    {
        match self {
            VersionError::InvalidInput(m) => {
                proof { reveal_strlit("Invalid input: "); }
                labelled("Invalid input: ", m)
            },
            VersionError::SourceTimeout(m) => {
                proof { reveal_strlit("Source timeout: "); }
                labelled("Source timeout: ", m)
            },
            VersionError::SourceUnavailable(m) => {
                proof { reveal_strlit("Source unavailable: "); }
                labelled("Source unavailable: ", m)
            },
            VersionError::NoValidSourceResult => {
                proof { reveal_strlit("No valid source result"); }
                String::from_str("No valid source result")
            },
            VersionError::UpdateConflict(m) => {
                proof { reveal_strlit("Update conflict: "); }
                labelled("Update conflict: ", m)
            },
            VersionError::StepFailed { step, message } => {
                proof {
                    reveal_strlit("Step failed: ");
                    reveal_strlit(" - ");
                }
                let mut s = labelled("Step failed: ", step);
                s.append(" - ");
                s.append(message.as_str());
                s
            },
            VersionError::RollbackFailed(m) => {
                proof { reveal_strlit("Rollback failed: "); }
                labelled("Rollback failed: ", m)
            },
            VersionError::Io(m) => {
                proof { reveal_strlit("IO error: "); }
                labelled("IO error: ", m)
            },
            VersionError::Http(m) => {
                proof { reveal_strlit("HTTP error: "); }
                labelled("HTTP error: ", m)
            },
            VersionError::Parse(m) => {
                proof { reveal_strlit("Parse error: "); }
                labelled("Parse error: ", m)
            },
        }
    }

    pub fn user_message(&self) -> (r: String)
        ensures
            r@ == user_message_of(*self),
    {
        let mut s = String::from_str(self.code().user_message());
        proof { reveal_strlit(": "); }
        s.append(": ");
        let d = self.to_string();
        s.append(d.as_str());
        s
    }
}

pub type VersionResult<T> = Result<T, VersionError>;

} // verus!
