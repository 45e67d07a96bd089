use vstd::prelude::*;
use vstd::string::StringExecFns;

verus! {

/// The remote call that failed; it fixes the wording of the error.
#[derive(Clone, Copy, Debug, PartialEq, Eq, Structural)]
pub enum RpcOp {
    QueryDatabase,
    DownloadFile,
    LoadModels,
    HealthCheck,
    SendChat,
    StopChat,
    UploadFile,
    StopUpload,
    StopDownload,
    RemoveFile,
    GetFileList,
}

/// The UI notification whose delivery failed.
#[derive(Clone, Copy, Debug, PartialEq, Eq, Structural)]
pub enum EmitKind {
    Progress,
    Message,
}

/// Every way a relay command can fail.
#[derive(Clone, Debug)]
pub enum RelayError {
    /// No connection has been made yet.
    NotInitialized,
    /// Dialing the middleware failed; the cause is deliberately not kept.
    Connection,
    /// A call failed after a connection existed.
    Rpc(RpcOp, String),
    /// A chat stream item did not hold the expected payload.
    Decode,
    /// The stream itself reported an error.
    Stream(String),
    /// The stream reported the first error, and the stop call that followed
    /// failed with the second.
    StreamNotStopped(String, RpcOp, String),
    /// A UI notification could not be delivered.
    Emit(EmitKind, String),
    /// A download stream ended before reporting completion; holds the last file name seen.
    Incomplete(String),
}

pub open spec fn rpc_prefix(op: RpcOp) -> Seq<char> {
    match op {
        RpcOp::QueryDatabase => "Failed to query database: "@,
        RpcOp::DownloadFile => "Failed to download file: "@,
        RpcOp::LoadModels => "Failed to load models: "@,
        RpcOp::HealthCheck => "Failed to connect: "@,
        RpcOp::SendChat => "Failed to send chat: "@,
        RpcOp::StopChat => "Failed to stop chat: "@,
        RpcOp::UploadFile => "Failed to upload file: "@,
        RpcOp::StopUpload => "Failed to stop upload file: "@,
        RpcOp::StopDownload => "Failed to stop download: "@,
        RpcOp::RemoveFile => "Failed to remove file: "@,
        RpcOp::GetFileList => "Failed to get file list: "@,
    }
}

pub open spec fn emit_prefix(kind: EmitKind) -> Seq<char> {
    match kind {
        EmitKind::Progress => "Failed to emit progress event: "@,
        EmitKind::Message => "Failed to emit message: "@,
    }
}

impl RpcOp {
    pub fn prefix(&self) -> (r: &'static str)
        ensures
            r@ == rpc_prefix(*self),
    {
        match self {
            RpcOp::QueryDatabase => "Failed to query database: ",
            RpcOp::DownloadFile => "Failed to download file: ",
            RpcOp::LoadModels => "Failed to load models: ",
            RpcOp::HealthCheck => "Failed to connect: ",
            RpcOp::SendChat => "Failed to send chat: ",
            RpcOp::StopChat => "Failed to stop chat: ",
            RpcOp::UploadFile => "Failed to upload file: ",
            RpcOp::StopUpload => "Failed to stop upload file: ",
            RpcOp::StopDownload => "Failed to stop download: ",
            RpcOp::RemoveFile => "Failed to remove file: ",
            RpcOp::GetFileList => "Failed to get file list: ",
        }
    }
}

impl EmitKind {
    pub fn prefix(&self) -> (r: &'static str)
        ensures
            r@ == emit_prefix(*self),
    {
        match self {
            EmitKind::Progress => "Failed to emit progress event: ",
            EmitKind::Message => "Failed to emit message: ",
        }
    }
}

impl RelayError {
    /// The text shown to the UI for this error.
    pub open spec fn text(&self) -> Seq<char> {
        match self {
            RelayError::NotInitialized => "Client not initialized"@,
            RelayError::Connection => "Failed to connect to middleware."@,
            RelayError::Rpc(op, detail) => rpc_prefix(*op) + detail@,
            RelayError::Decode => "Failed to read response message"@,
            RelayError::Stream(detail) => "Stream error: "@ + detail@,
            RelayError::StreamNotStopped(detail, op, stop) => "Stream error: "@ + detail@ + "; "@ + rpc_prefix(*op) + stop@,
            RelayError::Emit(kind, detail) => emit_prefix(*kind) + detail@,
            RelayError::Incomplete(last) => last@,
        }
    }

    pub fn message(&self) -> (r: String)
        ensures
            r@ == self.text(),
    {
        match self {
            RelayError::NotInitialized => String::from_str("Client not initialized"),
            RelayError::Connection => String::from_str("Failed to connect to middleware."),
            RelayError::Rpc(op, detail) => String::from_str(op.prefix()).concat(detail.as_str()),
            RelayError::Decode => String::from_str("Failed to read response message"),
            RelayError::Stream(detail) => String::from_str("Stream error: ").concat(detail.as_str()),
            RelayError::StreamNotStopped(detail, op, stop) => String::from_str("Stream error: ")
                .concat(detail.as_str())
                .concat("; ")
                .concat(op.prefix())
                .concat(stop.as_str()),
            RelayError::Emit(kind, detail) => String::from_str(kind.prefix()).concat(detail.as_str()),
            RelayError::Incomplete(last) => last.clone(),
        }
    }
}

} // verus!
