//! Sessions.

use vstd::prelude::*;

use crate::filter_types::SetCursor;
use crate::params::{
    lemma_named_values_add, lemma_named_values_param, named_values, opt_text, param, present,
    to_query, IntoParams, ToQueryText,
};

verus! {

/// Session status.
#[derive(Clone, Copy, PartialEq, Eq, Structural, Debug)]
pub enum SessionStatus {
    /// Session is ready to be activated.
    Ready,
    /// Session is active.
    Active,
    /// Session has been cancelled.
    Cancelled,
    /// Session has been revoked.
    Revoked,
    /// Access to the IdP has been lost.
    AccessLost,
}

/// The snake-case name of a session status.
pub open spec fn session_status_text(s: SessionStatus) -> Seq<char> {
    match s {
        SessionStatus::Ready => "ready"@,
        SessionStatus::Active => "active"@,
        SessionStatus::Cancelled => "cancelled"@,
        SessionStatus::Revoked => "revoked"@,
        SessionStatus::AccessLost => "access_lost"@,
    }
}

impl SessionStatus {
    /// The snake-case name of the status, as it is displayed.
    pub fn to_string(&self) -> (r: String)
        ensures
            r@ == session_status_text(*self),
            *self == SessionStatus::Ready ==> r@ == "ready"@,
            *self == SessionStatus::Active ==> r@ == "active"@,
            *self == SessionStatus::Cancelled ==> r@ == "cancelled"@,
            *self == SessionStatus::Revoked ==> r@ == "revoked"@,
            *self == SessionStatus::AccessLost ==> r@ == "access_lost"@,
    {
        match self {
            Self::Ready => "ready".to_owned(),
            Self::Active => "active".to_owned(),
            Self::Cancelled => "cancelled".to_owned(),
            Self::Revoked => "revoked".to_owned(),
            Self::AccessLost => "access_lost".to_owned(),
        }
    }
}

impl ToQueryText for SessionStatus {
    open spec fn query_text(&self) -> Seq<char> {
        session_status_text(*self)
    }

    fn to_query_text(&self) -> (r: String) {
        self.to_string()
    }
}

/// Query for listing sessions.
pub struct SessionQuery {
    /// Filter by session status.
    pub status: Option<SessionStatus>,
    /// Cursor for pagination.
    pub cursor: Option<String>,
    /// Maximum number of sessions to return, default 25, maximum 1000.
    pub limit: Option<u32>,
}

impl SetCursor for SessionQuery {
    open spec fn with_cursor_spec(self, cursor: Option<String>) -> Self {
        SessionQuery { cursor, ..self }
    }

    fn set_cursor(&mut self, cursor: Option<String>) {
        self.cursor = cursor;
    }
}

impl IntoParams for SessionQuery {
    /// Status, cursor and limit, each when it is set.
    open spec fn params_spec(self) -> Seq<(Seq<char>, Seq<char>)> {
        param("status"@, opt_text(self.status)) + param("cursor"@, opt_text(self.cursor)) + param(
            "limit"@,
            opt_text(self.limit),
        )
    }

    fn into_params(self) -> (r: Vec<(String, String)>) {
        let mut params: Vec<(String, String)> = Vec::new();
        assert(params.deep_view() =~= Seq::<(Seq<char>, Seq<char>)>::empty());
        to_query("status", &self.status, &mut params);
        to_query("cursor", &self.cursor, &mut params);
        to_query("limit", &self.limit, &mut params);
        assert(params.deep_view() =~= self.params_spec());
        params
    }
}

/// Each query parameter of a session query carries the text of the field it is
/// named after: a field that is set gives exactly one pair under its own
/// name, holding the field's text, and a field that is not set gives none.
pub proof fn lemma_session_query_params(q: SessionQuery)
    ensures
        named_values(q.params_spec(), "status"@) == present(opt_text(q.status)),
        named_values(q.params_spec(), "cursor"@) == present(opt_text(q.cursor)),
        named_values(q.params_spec(), "limit"@) == present(opt_text(q.limit)),
{
    broadcast use lemma_named_values_add, lemma_named_values_param, Seq::add_empty_left, Seq::add_empty_right;

    reveal_strlit("status");
    reveal_strlit("cursor");
    reveal_strlit("limit");
    assert("status"@.len() == 6);
    assert("cursor"@.len() == 6);
    assert("limit"@.len() == 5);
    assert("status"@[0] != "cursor"@[0]);
}

/// A CDF Session.
pub struct Session {
    /// Session internal ID.
    pub id: i64,
    /// Session type.
    pub session_type: Option<String>,
    /// Session status.
    pub status: SessionStatus,
    /// Time this session was created, in milliseconds since epoch.
    pub creation_time: Option<i64>,
    /// Time when this session will expire, in milliseconds since epoch.
    pub expiration_time: Option<i64>,
    /// Session nonce, used by the CDF service to activate the session.
    pub nonce: Option<String>,
    /// Client ID.
    pub client_id: Option<i64>,
}

/// Create a new session.
pub enum AddSession {
    /// Create a session using client credentials.
    ClientCredentials {
        /// Client ID.
        client_id: String,
        /// Client secret.
        client_secret: String,
    },
    /// Create a session using token exchange.
    TokenExchange {
        /// Set to `true`.
        token_exchange: bool,
    },
}

} // verus!
