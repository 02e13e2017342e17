//! State of the sessions window: the user's recording sessions and the one
//! selected for viewing.
use vstd::prelude::*;
use crate::data_window::{is_success, LoadError};

verus! {

/// The decimal digit `d`.
pub open spec fn digit_char(d: int) -> char {
    seq!['0', '1', '2', '3', '4', '5', '6', '7', '8', '9'][d]
}

/// The decimal digits of `n`, most significant first, without leading zeros.
pub open spec fn digits_of(n: nat) -> Seq<char>
    decreases n,
{
    if n < 10 {
        seq![digit_char(n as int)]
    } else {
        digits_of(n / 10).push(digit_char((n % 10) as int))
    }
}

/// `n` written in decimal, with a leading `-` when it is negative.
pub open spec fn decimal_of(n: int) -> Seq<char> {
    if n < 0 {
        seq!['-'] + digits_of((-n) as nat)
    } else {
        digits_of(n as nat)
    }
}

/// Relies on `i64`'s `Display`, through `to_string`: the number in decimal
/// digits, with a leading `-` when it is negative.
#[verifier::external_body]
fn decimal_text(n: i64) -> (r: String)
    ensures
        r@ == decimal_of(n as int),
{
    n.to_string()
}

/// One recording session of the user, as listed by the backend.
#[derive(Clone, Debug)]
pub struct Row {
    pub session_id: i64,
    pub username: String,
}

/// Mathematical view of a session [`Row`].
pub struct SessionRowView {
    pub session_id: i64,
    pub username: Seq<char>,
}

impl View for Row {
    type V = SessionRowView;

    open spec fn view(&self) -> SessionRowView {
        SessionRowView { session_id: self.session_id, username: self.username@ }
    }
}

/// The session list returned by the backend.
#[derive(Clone, Debug)]
pub struct SessionResponse {
    pub sessions: Vec<Row>,
}

/// Views of a sequence of session rows.
pub open spec fn session_views(s: Seq<Row>) -> Seq<SessionRowView> {
    s.map_values(|r: Row| r@)
}

/// Mathematical view of a [`SessionDisplay`].
pub struct SessionDisplayView {
    /// The sessions listed, in the backend's order.
    pub sessions: Seq<SessionRowView>,
    /// The list has been asked for since it last went stale.
    pub loaded: bool,
    /// Id of the session selected for the data window; empty before any.
    pub current_session: Seq<char>,
}

/// State of the sessions window.
pub struct SessionDisplay {
    sessions: Vec<Row>,
    loaded: bool,
    current_session: String,
}

impl View for SessionDisplay {
    type V = SessionDisplayView;

    closed spec fn view(&self) -> SessionDisplayView {
        SessionDisplayView {
            sessions: session_views(self.sessions@),
            loaded: self.loaded,
            current_session: self.current_session@,
        }
    }
}

impl SessionDisplay {
    /// No session listed or selected, and the list not yet asked for.
    pub fn new() -> (r: SessionDisplay)
        ensures
            r@.sessions.len() == 0,
            !r@.loaded,
            r@.current_session == Seq::<char>::empty(),
    {
        SessionDisplay { sessions: Vec::new(), loaded: false, current_session: String::new() }
    }

    /// Marks the list stale after a new session was asked for, so that it is
    /// asked for again.
    pub fn request_new_session(&mut self)
        ensures
            final(self)@ == (SessionDisplayView { loaded: false, ..old(self)@ }),
    {
        self.loaded = false;
    }

    /// Whether the list is to be asked for now: it is when it is stale, and it
    /// is then no longer stale.
    pub fn begin_load(&mut self) -> (r: bool)
        ensures
            r == !old(self)@.loaded,
            final(self)@ == (SessionDisplayView { loaded: true, ..old(self)@ }),
    {
        let due = !self.loaded;
        self.loaded = true;
        due
    }

    /// Applies the backend's answer to a request for the session list: on a
    /// status of 200 or 201 with a body, the list becomes the body's sessions.
    /// Otherwise the state is unchanged and the error says why.
    pub fn apply_sessions(&mut self, status: u16, body: Option<SessionResponse>) -> (r: Result<
        (),
        LoadError,
    >)
        ensures
            !is_success(status) ==> r == Err::<(), LoadError>(LoadError::Status(status))
                && final(self)@ == old(self)@,
            is_success(status) && body is None ==> r == Err::<(), LoadError>(
                LoadError::MissingBody,
            ) && final(self)@ == old(self)@,
            is_success(status) && body is Some ==> r is Ok && final(self)@ == (SessionDisplayView {
                sessions: session_views(body.unwrap().sessions@),
                ..old(self)@
            }),
    {
        if status != 200 && status != 201 {
            return Err(LoadError::Status(status));
        }
        match body {
            None => Err(LoadError::MissingBody),
            Some(response) => {
                self.sessions = response.sessions;
                Ok(())
            },
        }
    }

    /// Selects the listed session at `index` for viewing; an index past the
    /// list selects nothing.
    pub fn view_session(&mut self, index: usize) -> (r: bool)
        ensures
            r == (index < old(self)@.sessions.len()),
            r ==> final(self)@ == (SessionDisplayView {
                current_session: decimal_of(old(self)@.sessions[index as int].session_id as int),
                ..old(self)@
            }),
            !r ==> final(self)@ == old(self)@,
    {
        if index >= self.sessions.len() {
            return false;
        }
        let id = self.sessions[index].session_id;
        self.current_session = decimal_text(id);
        true
    }

    /// The sessions listed.
    pub fn sessions(&self) -> (r: &Vec<Row>)
        ensures
            session_views(r@) == self@.sessions,
    {
        &self.sessions
    }

    /// Id of the session selected for viewing.
    pub fn current_session(&self) -> (r: &String)
        ensures
            r@ == self@.current_session,
    {
        &self.current_session
    }
}

} // verus!
