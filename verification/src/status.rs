//! gRPC status codes and the statuses that the server answers refused requests with.
use vstd::prelude::*;

verus! {

/// The gRPC status codes that the server answers with.
#[derive(Clone, Copy, Debug, PartialEq, Eq, Structural)]
pub enum Code {
    InvalidArgument,
    NotFound,
    AlreadyExists,
    PermissionDenied,
    FailedPrecondition,
    Unimplemented,
    Internal,
    Unavailable,
    Unauthenticated,
}

/// The number of a gRPC status code on the wire.
pub open spec fn code_number(c: Code) -> i32 {
    match c {
        Code::InvalidArgument => 3,
        Code::NotFound => 5,
        Code::AlreadyExists => 6,
        Code::PermissionDenied => 7,
        Code::FailedPrecondition => 9,
        Code::Unimplemented => 12,
        Code::Internal => 13,
        Code::Unavailable => 14,
        Code::Unauthenticated => 16,
    }
}

impl Code {
    /// The number of this code on the wire.
    pub fn number(&self) -> (r: i32)
        ensures
            r == code_number(*self),
    {
        match self {
            Code::InvalidArgument => 3,
            Code::NotFound => 5,
            Code::AlreadyExists => 6,
            Code::PermissionDenied => 7,
            Code::FailedPrecondition => 9,
            Code::Unimplemented => 12,
            Code::Internal => 13,
            Code::Unavailable => 14,
            Code::Unauthenticated => 16,
        }
    }
}

/// A refusal of a gRPC request: its code and its message.
#[derive(Clone, Debug)]
pub struct RpcStatus {
    pub code: Code,
    pub message: String,
}

/// What a status says: its code and the text of its message.
pub struct StatusView {
    pub code: Code,
    pub message: Seq<char>,
}

impl View for RpcStatus {
    type V = StatusView;

    open spec fn view(&self) -> StatusView {
        StatusView { code: self.code, message: self.message@ }
    }
}

impl RpcStatus {
    /// A status with the code `code` and the message `message`.
    pub fn new(code: Code, message: &str) -> (r: RpcStatus)
        ensures
            r.code == code,
            r.message@ == message@,
    {
        RpcStatus { code, message: String::from_str(message) }
    }
}

/// Whether `r` is a refusal with the code `code` and the message `message`.
pub open spec fn refused_with<T>(r: Result<T, RpcStatus>, code: Code, message: Seq<char>) -> bool {
    r matches Err(s) && s.code == code && s.message@ == message
}

/// Whether the string `s` reads exactly `lit`.
pub fn string_is(s: &String, lit: &str) -> (r: bool)
    ensures
        r == (s@ == lit@),
{
    let other = String::from_str(lit);
    *s == other
}

/// An error of the call from the server into the scripting environment of DCS.
#[derive(Clone, Debug)]
pub enum IpcError {
    /// The script failed; `kind` names the gRPC status it asks for, if any.
    Script { kind: Option<String>, message: String },
    /// The call failed for another reason, which `text` describes.
    Other { text: String },
}

/// The code that a script error of the kind `kind` is answered with.
pub open spec fn script_error_code(kind: Option<Seq<char>>) -> Code {
    match kind {
        Some(k) => if k == "INVALID_ARGUMENT"@ {
            Code::InvalidArgument
        } else if k == "NOT_FOUND"@ {
            Code::NotFound
        } else if k == "ALREADY_EXISTS"@ {
            Code::AlreadyExists
        } else if k == "UNIMPLEMENTED"@ {
            Code::Unimplemented
        } else {
            Code::Internal
        },
        None => Code::Internal,
    }
}

/// The view of an optional string.
pub open spec fn opt_view(o: Option<String>) -> Option<Seq<char>> {
    match o {
        Some(s) => Some(s@),
        None => None,
    }
}

/// The status with which a failed call into DCS is answered: a script error keeps its
/// message and takes the code its kind names (`Internal` for any other kind); any other
/// error becomes `Internal` with its description.
pub fn to_status(err: IpcError) -> (r: RpcStatus)
    ensures
        match err {
            IpcError::Script { kind, message } => r.code == script_error_code(opt_view(kind))
                && r.message@ == message@,
            IpcError::Other { text } => r.code == Code::Internal && r.message@ == text@,
        },
{
    match err {
        IpcError::Script { kind, message } => {
            let code = match &kind {
                Some(k) => {
                    if string_is(k, "INVALID_ARGUMENT") {
                        Code::InvalidArgument
                    } else if string_is(k, "NOT_FOUND") {
                        Code::NotFound
                    } else if string_is(k, "ALREADY_EXISTS") {
                        Code::AlreadyExists
                    } else if string_is(k, "UNIMPLEMENTED") {
                        Code::Unimplemented
                    } else {
                        Code::Internal
                    }
                },
                None => Code::Internal,
            };
            RpcStatus { code, message }
        },
        IpcError::Other { text } => RpcStatus { code: Code::Internal, message: text },
    }
}

/// Lets an `Eval` request through only when evaluation is enabled; otherwise the request
/// is refused with `PermissionDenied`.
pub fn check_eval_enabled(eval_enabled: bool) -> (r: Result<(), RpcStatus>)
    ensures
        r is Ok <==> eval_enabled,
        r matches Err(s) ==> s.code == Code::PermissionDenied && s.message@
            == "eval operation is disabled"@,
{
    if !eval_enabled {
        return Err(RpcStatus::new(Code::PermissionDenied, "eval operation is disabled"));
    }
    Ok(())
}

/// The scripting environment of DCS that a call goes to.
#[derive(Clone, Copy, Debug, PartialEq, Eq, Structural)]
pub enum IpcEnv {
    /// The mission scripting environment.
    Mission,
    /// The hook (GUI) scripting environment.
    Hook,
}

/// The environment that the Lua side names by number: 1 for the mission, 2 for the hooks,
/// none for any other number (the call then has nothing to do).
pub fn ipc_env(env: i32) -> (r: Option<IpcEnv>)
    ensures
        r == (if env == 1 {
            Some(IpcEnv::Mission)
        } else if env == 2 {
            Some(IpcEnv::Hook)
        } else {
            None
        }),
{
    if env == 1 {
        Some(IpcEnv::Mission)
    } else if env == 2 {
        Some(IpcEnv::Hook)
    } else {
        None
    }
}

/// The version the server reports: the one it was built as, else `unknown`.
pub fn version_or_unknown(built: Option<&str>) -> (r: String)
    ensures
        r@ == match built {
            Some(v) => v@,
            None => "unknown"@,
        },
{
    match built {
        Some(v) => String::from_str(v),
        None => String::from_str("unknown"),
    }
}

} // verus!
