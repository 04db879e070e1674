//! The error taxonomy shared by every component: a coded kind together
//! with a human-readable message.

use vstd::prelude::*;

verus! {

/// The four failure classes: missing configuration, unexpected internal
/// failure, credential/uniqueness/authorization failure, and storage failure.
#[derive(Clone, Copy, Debug, PartialEq, Eq, Structural)]
pub enum YaddakErrorKind {
    EnvError,
    InternalError,
    AuthError,
    DBError,
}

/// A typed failure: a kind plus a message meant for the caller.
#[derive(Debug)]
pub struct YaddakError {
    pub kind: YaddakErrorKind,
    pub message: String,
}

pub type SResult<T> = Result<T, YaddakError>;

impl YaddakError {
    /// The message carried by this error, as a sequence of characters.
    pub open spec fn msg(&self) -> Seq<char> {
        self.message@
    }

    pub fn authorize_error(message: String) -> (r: Self)
        ensures
            r.kind == YaddakErrorKind::AuthError,
            r.msg() == message@,
    {
        Self { kind: YaddakErrorKind::AuthError, message }
    }

    pub fn database_error(message: String) -> (r: Self)
        ensures
            r.kind == YaddakErrorKind::DBError,
            r.msg() == message@,
    {
        Self { kind: YaddakErrorKind::DBError, message }
    }

    pub fn environment_error(message: String) -> (r: Self)
        ensures
            r.kind == YaddakErrorKind::EnvError,
            r.msg() == message@,
    {
        Self { kind: YaddakErrorKind::EnvError, message }
    }

    pub fn internal_error(message: String) -> (r: Self)
        ensures
            r.kind == YaddakErrorKind::InternalError,
            r.msg() == message@,
    {
        Self { kind: YaddakErrorKind::InternalError, message }
    }

    pub fn duplicate(&self) -> (r: Self)
        ensures
            r.kind == self.kind,
            r.msg() == self.msg(),
    {
        Self { kind: self.kind, message: self.message.clone() }
    }

    /// The full caller-facing text: a fixed prefix per kind, then the message.
    pub fn render(&self) -> (r: String)
        ensures
            r@ == error_prefix(self.kind) + self.msg(),
    {
        let prefix: &'static str = match self.kind {
            YaddakErrorKind::EnvError => "[E001] Environment Variable Error: ",
            YaddakErrorKind::InternalError => "[E002] Internal Error: ",
            YaddakErrorKind::AuthError => "[E003] Authentication Error: ",
            YaddakErrorKind::DBError => "[E004] Database Error:  ",
        };
        let mut out = String::from_str(prefix);
        out.append(self.message.as_str());
        out
    }
}

/// The prefix that `render` puts before the message of each kind.
pub open spec fn error_prefix(kind: YaddakErrorKind) -> Seq<char> {
    match kind {
        YaddakErrorKind::EnvError => "[E001] Environment Variable Error: "@,
        YaddakErrorKind::InternalError => "[E002] Internal Error: "@,
        YaddakErrorKind::AuthError => "[E003] Authentication Error: "@,
        YaddakErrorKind::DBError => "[E004] Database Error:  "@,
    }
}

} // verus!
