use vstd::prelude::*;

verus! {

/// One invocation of the signaling executable, as the library sees it.
pub ghost enum Call {
    JoinSession(Seq<char>),
    Send(Seq<char>, Seq<char>),
    Close,
}

impl Call {
    /// The positional arguments handed to the executable, in order.
    pub open spec fn argv(self) -> Seq<Seq<char>> {
        match self {
            Call::JoinSession(session_id) => seq!["join_session"@, session_id],
            Call::Send(target_id, message) => seq!["send"@, target_id, message],
            Call::Close => seq!["close"@],
        }
    }
}

/// A request to run the signaling executable once.
#[derive(Debug)]
pub enum Request {
    JoinSession { session_id: String },
    Send { target_id: String, message: String },
    Close,
}

impl View for Request {
    type V = Call;

    open spec fn view(&self) -> Call {
        match self {
            Request::JoinSession { session_id } => Call::JoinSession(session_id@),
            Request::Send { target_id, message } => Call::Send(target_id@, message@),
            Request::Close => Call::Close,
        }
    }
}

impl Request {
    /// The argument vector of this request: each identifier and the message
    /// stand as one argument each, exactly as given.
    pub fn arguments(&self) -> (r: Vec<String>)
        ensures
            r@.len() == self@.argv().len(),
            forall|i: int| 0 <= i < r@.len() ==> #[trigger] r@[i]@ == self@.argv()[i],
    {
        let mut r: Vec<String> = Vec::new();
        match self {
            Request::JoinSession { session_id } => {
                r.push(String::from_str("join_session"));
                r.push(session_id.clone());
            },
            Request::Send { target_id, message } => {
                r.push(String::from_str("send"));
                r.push(target_id.clone());
                r.push(message.clone());
            },
            Request::Close => {
                r.push(String::from_str("close"));
            },
        }
        r
    }
}

/// The request that joins the given session.
pub fn join_session_request(session_id: &str) -> (r: Request)
    ensures
        r@ == Call::JoinSession(session_id@),
{
    Request::JoinSession { session_id: String::from_str(session_id) }
}

/// The request that sends `message` to `target_id`.
pub fn send_request(target_id: &str, message: &str) -> (r: Request)
    ensures
        r@ == Call::Send(target_id@, message@),
{
    Request::Send { target_id: String::from_str(target_id), message: String::from_str(message) }
}

/// The request that closes the session.
pub fn close_request() -> (r: Request)
    ensures
        r@ == Call::Close,
{
    Request::Close
}

/// A session identifier reaches the executable unchanged, as the single
/// argument after the operation name, whatever whitespace or other
/// characters it holds.
pub proof fn lemma_join_forwards_identifier_whole(session_id: Seq<char>)
    ensures
        Call::JoinSession(session_id).argv().len() == 2,
        Call::JoinSession(session_id).argv()[0] == "join_session"@,
        Call::JoinSession(session_id).argv()[1] == session_id,
{
}

/// How one run of the executable ended.
#[derive(Clone, Copy, Debug, PartialEq, Eq, Structural)]
pub enum Outcome {
    /// The process ran and exited with status zero.
    Success,
    /// The process could not be launched or waited for.
    ProcessError,
    /// The process ran and ended otherwise: a non-zero code, or no code at all
    /// when a signal ended it.
    NonSuccessExit { code: Option<i32> },
}

/// The outcome of a process that was launched and ended with the given exit
/// code, `None` where it ended without one.
pub open spec fn exit_outcome(code: Option<i32>) -> Outcome {
    if code == Some(0i32) {
        Outcome::Success
    } else {
        Outcome::NonSuccessExit { code }
    }
}

impl Outcome {
    /// Classifies a process that was launched and has ended.
    pub fn from_exit(code: Option<i32>) -> (r: Outcome)
        ensures
            r == exit_outcome(code),
    {
        match code {
            Some(c) => {
                if c == 0 {
                    Outcome::Success
                } else {
                    Outcome::NonSuccessExit { code }
                }
            },
            None => Outcome::NonSuccessExit { code },
        }
    }

    /// The boolean result of an operation: `true` exactly on success.
    pub fn succeeded(&self) -> (r: bool)
        ensures
            r == (*self is Success),
    {
        match self {
            Outcome::Success => true,
            _ => false,
        }
    }
}

/// An operation reports `true` exactly when its process was launched and
/// exited with status zero; a launch failure and every other ending report
/// `false`.
pub proof fn lemma_success_iff_zero_exit(code: Option<i32>)
    ensures
        exit_outcome(code) is Success <==> code == Some(0i32),
        !(Outcome::ProcessError is Success),
{
}

} // verus!
