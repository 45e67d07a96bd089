use crate::error::{RelayError, RpcOp};
use crate::handle::ClientSlot;
use vstd::prelude::*;
use vstd::string::StringExecFns;

verus! {

/// A request/response command of the UI, with its parameters.
#[derive(Clone, Debug)]
pub enum Command {
    GetConfig { assistant: String },
    UpdateDbModels { assistant: String, models_json: String },
    LoadModels,
    CheckPyllm,
    GetChatHistory,
    RenameChatSession { sid: i32, name: String },
    RemoveChatSession { sid: i32 },
    StopChat,
    StopUploadFile,
    RemoveFile { files: String },
    GetFileList,
}

/// The message one command sends to the middleware.
#[derive(Clone, Debug)]
pub enum Request {
    GetClientConfig { assistant: String },
    SetActiveAssistant { assistant: String, models_json: String },
    LoadModels,
    SayHello { name: String },
    GetChatHistory,
    SetSessionName { session_id: i32, session_name: String },
    RemoveSession { session_id: i32 },
    StopChat,
    StopAddFiles,
    RemoveFiles { files_to_remove: String },
    GetFileList { file_type: String },
}

/// The primary payload of a reply.
#[derive(Clone, Debug)]
pub enum Reply {
    Text(String),
    Flag(bool),
    Empty,
}

/// What a command returns to the UI on success.
#[derive(Clone, Debug)]
pub enum Output {
    Text(String),
    Flag(bool),
    Done,
}

/// Whether `req` is the message that `cmd` sends.
pub open spec fn request_fits(cmd: Command, req: Request) -> bool {
    match (cmd, req) {
        (Command::GetConfig { assistant: a }, Request::GetClientConfig { assistant: b }) => a == b,
        (
            Command::UpdateDbModels { assistant: a, models_json: m },
            Request::SetActiveAssistant { assistant: b, models_json: n },
        ) => a == b && m == n,
        (Command::LoadModels, Request::LoadModels) => true,
        (Command::CheckPyllm, Request::SayHello { name }) => name@ == "CoreUI"@,
        (Command::GetChatHistory, Request::GetChatHistory) => true,
        (
            Command::RenameChatSession { sid, name },
            Request::SetSessionName { session_id, session_name },
        ) => sid == session_id && name == session_name,
        (Command::RemoveChatSession { sid }, Request::RemoveSession { session_id }) => sid == session_id,
        (Command::StopChat, Request::StopChat) => true,
        (Command::StopUploadFile, Request::StopAddFiles) => true,
        (Command::RemoveFile { files }, Request::RemoveFiles { files_to_remove }) => files == files_to_remove,
        (Command::GetFileList, Request::GetFileList { file_type }) => file_type@.len() == 0,
        _ => false,
    }
}

/// The call whose failure a command reports.
pub open spec fn op_of(cmd: Command) -> RpcOp {
    match cmd {
        Command::LoadModels => RpcOp::LoadModels,
        Command::CheckPyllm => RpcOp::HealthCheck,
        Command::StopChat => RpcOp::StopChat,
        Command::StopUploadFile => RpcOp::StopUpload,
        Command::RemoveFile { .. } => RpcOp::RemoveFile,
        Command::GetFileList => RpcOp::GetFileList,
        _ => RpcOp::QueryDatabase,
    }
}

/// Whether `out` is what `cmd` returns for a reply with payload `reply`.
pub open spec fn output_fits(cmd: Command, reply: Reply, out: Output) -> bool {
    match cmd {
        Command::UpdateDbModels { .. } => out matches Output::Text(t) && t@ == "Model updated successfully."@,
        _ => match (reply, out) {
            (Reply::Text(a), Output::Text(b)) => a == b,
            (Reply::Flag(a), Output::Flag(b)) => a == b,
            (Reply::Empty, Output::Done) => true,
            _ => false,
        },
    }
}

impl Command {
    pub fn op(&self) -> (r: RpcOp)
        ensures
            r == op_of(*self),
    {
        match self {
            Command::LoadModels => RpcOp::LoadModels,
            Command::CheckPyllm => RpcOp::HealthCheck,
            Command::StopChat => RpcOp::StopChat,
            Command::StopUploadFile => RpcOp::StopUpload,
            Command::RemoveFile { .. } => RpcOp::RemoveFile,
            Command::GetFileList => RpcOp::GetFileList,
            _ => RpcOp::QueryDatabase,
        }
    }

    /// The message this command sends.
    pub fn request(self) -> (r: Request)
        ensures
            request_fits(self, r),
    {
        match self {
            Command::GetConfig { assistant } => Request::GetClientConfig { assistant },
            Command::UpdateDbModels { assistant, models_json } => Request::SetActiveAssistant { assistant, models_json },
            Command::LoadModels => Request::LoadModels,
            Command::CheckPyllm => Request::SayHello { name: String::from_str("CoreUI") },
            Command::GetChatHistory => Request::GetChatHistory,
            Command::RenameChatSession { sid, name } => Request::SetSessionName { session_id: sid, session_name: name },
            Command::RemoveChatSession { sid } => Request::RemoveSession { session_id: sid },
            Command::StopChat => Request::StopChat,
            Command::StopUploadFile => Request::StopAddFiles,
            Command::RemoveFile { files } => Request::RemoveFiles { files_to_remove: files },
            Command::GetFileList => Request::GetFileList { file_type: String::new() },
        }
    }
}

/// Starts a command: with no connection it fails with `NotInitialized` and
/// hands out no request, so no call is made; otherwise it hands out the
/// connection to use and the command's request.
pub fn begin<'a, C>(slot: &'a ClientSlot<C>, cmd: Command) -> (r: Result<(&'a C, Request), RelayError>)
    ensures
        slot.current is None <==> r is Err,
        r is Err ==> r->Err_0 == RelayError::NotInitialized,
        r matches Ok((c, req)) ==> slot.current == Some(*c) && request_fits(cmd, req),
{
    match slot.acquire() {
        Ok(c) => Ok((c, cmd.request())),
        Err(e) => Err(e),
    }
}

/// Turns the outcome of a command's single call into what the UI receives:
/// a failed call becomes an `Rpc` error naming the command's call, with no retry.
pub fn finish(cmd: &Command, reply: Result<Reply, String>) -> (r: Result<Output, RelayError>)
    ensures
        match reply {
            Ok(p) => r matches Ok(out) && output_fits(*cmd, p, out),
            Err(d) => r == Err::<Output, RelayError>(RelayError::Rpc(op_of(*cmd), d)),
        },
{
    match reply {
        Err(d) => Err(RelayError::Rpc(cmd.op(), d)),
        Ok(p) => match cmd {
            Command::UpdateDbModels { .. } => Ok(Output::Text(String::from_str("Model updated successfully."))),
            _ => match p {
                Reply::Text(t) => Ok(Output::Text(t)),
                Reply::Flag(b) => Ok(Output::Flag(b)),
                Reply::Empty => Ok(Output::Done),
            },
        },
    }
}

/// Before any successful connect every command fails with `NotInitialized`.
pub proof fn lemma_unconnected_refuses<C>(slot: ClientSlot<C>)
    requires
        slot.current is None,
    ensures
        slot.acquired() == Err::<C, RelayError>(RelayError::NotInitialized),
{
}

} // verus!
