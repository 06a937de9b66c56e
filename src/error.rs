use vstd::prelude::*;

verus! {

/// Why one connection attempt did not yield a session.
#[derive(Clone, Debug, PartialEq, Eq)]
pub enum ConnectFailure {
    /// The server answered and refused the connection.
    Rejected { message: String },
    /// No answer came within the per-attempt timeout.
    TimedOut { timeout_secs: u64 },
}

/// What is missing from a connection URL given through the environment.
#[derive(Clone, Copy, Debug, PartialEq, Eq)]
pub enum UrlProblem {
    MissingHostname,
    MissingPort,
    MissingPassword,
}

/// The closed set of failures the client reports.
#[derive(Clone, Debug, PartialEq, Eq)]
pub enum ObsCmdError {
    /// A remote request was refused, or the transport failed under it.
    ConnectionError { message: String },
    /// Every connection attempt failed; the last cause is kept.
    AllConnectionAttemptsFailed { attempts: u32, last_failure: ConnectFailure },
    /// A connection URL could not be parsed at all.
    UrlParseError { url: String },
    /// A connection URL parsed but lacks a part the client needs.
    WebSocketUrlParseError { problem: UrlProblem },
    InvalidAudioCommand { command: String },
    InvalidFilterCommand { command: String },
    InvalidAudioMonitorType { monitor_type: String },
    InvalidBlendMode { blend_mode: String },
    MonitorNotAvailable { index: u32 },
    /// The remote session knows no item `leaf` inside `container`.
    ItemNotFound { container: String, leaf: String },
    RecordingNotActive,
    RecordingPaused,
    NoLastReplay,
    /// A reply of a kind that does not answer the request that was sent.
    UnexpectedReply,
}

impl ConnectFailure {
    /// A value equal to this failure.
    pub fn duplicate(&self) -> (r: ConnectFailure)
        ensures
            r == *self,
    {
        match self {
            ConnectFailure::Rejected { message } => ConnectFailure::Rejected {
                message: message.clone(),
            },
            ConnectFailure::TimedOut { timeout_secs } => ConnectFailure::TimedOut {
                timeout_secs: *timeout_secs,
            },
        }
    }
}

impl ObsCmdError {
    /// A value equal to this error.
    pub fn clone_error(&self) -> (r: ObsCmdError)
        ensures
            r == *self,
    {
        match self {
            ObsCmdError::ConnectionError { message } => ObsCmdError::ConnectionError {
                message: message.clone(),
            },
            ObsCmdError::AllConnectionAttemptsFailed { attempts, last_failure } =>
                ObsCmdError::AllConnectionAttemptsFailed {
                attempts: *attempts,
                last_failure: last_failure.duplicate(),
            },
            ObsCmdError::UrlParseError { url } => ObsCmdError::UrlParseError { url: url.clone() },
            ObsCmdError::WebSocketUrlParseError { problem } =>
                ObsCmdError::WebSocketUrlParseError { problem: *problem },
            ObsCmdError::InvalidAudioCommand { command } => ObsCmdError::InvalidAudioCommand {
                command: command.clone(),
            },
            ObsCmdError::InvalidFilterCommand { command } => ObsCmdError::InvalidFilterCommand {
                command: command.clone(),
            },
            ObsCmdError::InvalidAudioMonitorType { monitor_type } =>
                ObsCmdError::InvalidAudioMonitorType { monitor_type: monitor_type.clone() },
            ObsCmdError::InvalidBlendMode { blend_mode } => ObsCmdError::InvalidBlendMode {
                blend_mode: blend_mode.clone(),
            },
            ObsCmdError::MonitorNotAvailable { index } => ObsCmdError::MonitorNotAvailable {
                index: *index,
            },
            ObsCmdError::ItemNotFound { container, leaf } => ObsCmdError::ItemNotFound {
                container: container.clone(),
                leaf: leaf.clone(),
            },
            ObsCmdError::RecordingNotActive => ObsCmdError::RecordingNotActive,
            ObsCmdError::RecordingPaused => ObsCmdError::RecordingPaused,
            ObsCmdError::NoLastReplay => ObsCmdError::NoLastReplay,
            ObsCmdError::UnexpectedReply => ObsCmdError::UnexpectedReply,
        }
    }
}

} // verus!
