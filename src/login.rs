//! Login state of the dashboard.
use vstd::prelude::*;

verus! {

/// The text with leading and trailing whitespace removed, as `str::trim` gives it.
pub uninterp spec fn trimmed(s: Seq<char>) -> Seq<char>;

/// Relies on `str::trim`: its result depends on the characters of the text
/// alone. The borrowed result is copied into a `String`.
#[verifier::external_body]
fn trim_text(s: &str) -> (r: String)
    ensures
        r@ == trimmed(s@),
{
    s.trim().to_string()
}

/// Login and window-visibility flags of the single-window prototype.
pub struct Login {
    pub logged_in: bool,
    pub failed_attempts: u8,
    pub show_window_sessionhist: bool,
    pub show_window_account: bool,
    pub show_window_deviceinfo: bool,
}

impl Default for Login {
    /// Logged out, with every window hidden.
    fn default() -> (r: Login)
        ensures
            !r.logged_in,
            r.failed_attempts == 0,
            !r.show_window_sessionhist,
            !r.show_window_account,
            !r.show_window_deviceinfo,
    {
        Login {
            logged_in: false,
            failed_attempts: 0,
            show_window_sessionhist: false,
            show_window_account: false,
            show_window_deviceinfo: false,
        }
    }
}

impl Login {
    /// Logs in and shows the session, account and device windows.
    pub fn login(&mut self)
        ensures
            final(self).logged_in,
            final(self).show_window_sessionhist,
            final(self).show_window_account,
            final(self).show_window_deviceinfo,
            final(self).failed_attempts == old(self).failed_attempts,
    {
        self.logged_in = true;
        self.show_window_sessionhist = true;
        self.show_window_account = true;
        self.show_window_deviceinfo = true;
    }

    /// Logs out and hides the session, account and device windows.
    pub fn logout(&mut self)
        ensures
            !final(self).logged_in,
            !final(self).show_window_sessionhist,
            !final(self).show_window_account,
            !final(self).show_window_deviceinfo,
            final(self).failed_attempts == old(self).failed_attempts,
    {
        self.logged_in = false;
        self.show_window_sessionhist = false;
        self.show_window_account = false;
        self.show_window_deviceinfo = false;
    }
}

/// Mathematical view of a [`LoginDisplay`].
pub struct LoginDisplayView {
    pub logged_in: bool,
    pub username: Seq<char>,
    pub failed_attempts: u8,
}

/// State of the login window: whether a user is logged in, and as whom.
///
/// The other windows read this state from here instead of sharing it.
pub struct LoginDisplay {
    logged_in: bool,
    username: String,
    failed_attempts: u8,
}

impl View for LoginDisplay {
    type V = LoginDisplayView;

    closed spec fn view(&self) -> LoginDisplayView {
        LoginDisplayView {
            logged_in: self.logged_in,
            username: self.username@,
            failed_attempts: self.failed_attempts,
        }
    }
}

impl LoginDisplay {
    /// Logged out, with no user name.
    pub fn new() -> (r: LoginDisplay)
        ensures
            r@ == (LoginDisplayView { logged_in: false, username: Seq::empty(), failed_attempts: 0 }),
    {
        LoginDisplay { logged_in: false, username: String::new(), failed_attempts: 0 }
    }

    /// Whether a user is logged in.
    pub fn get_logged_in(&self) -> (r: bool)
        ensures
            r == self@.logged_in,
    {
        self.logged_in
    }

    /// The name of the user logged in last.
    pub fn username(&self) -> (r: &String)
        ensures
            r@ == self@.username,
    {
        &self.username
    }

    /// Logs in as `username`, taken as it is.
    pub fn sign_in(&mut self, username: String)
        ensures
            final(self)@ == (LoginDisplayView { logged_in: true, username: username@, ..old(self)@ }),
    {
        self.logged_in = true;
        self.username = username;
    }

    /// Logs in as the user name typed in `entered`, without its surrounding
    /// whitespace. The backend is not asked: authentication is not in place.
    pub fn login(&mut self, entered: &str)
        ensures
            final(self)@ == (LoginDisplayView {
                logged_in: true,
                username: trimmed(entered@),
                ..old(self)@
            }),
    {
        let name = trim_text(entered);
        self.sign_in(name);
    }

    /// Logs out; the other windows stop being drawn.
    pub fn logout(&mut self)
        ensures
            final(self)@ == (LoginDisplayView { logged_in: false, ..old(self)@ }),
    {
        self.logged_in = false;
    }
}

} // verus!
