use vstd::prelude::*;

verus! {

/// How long an admin session lasts, in seconds.
pub const SESSION_DURATION: u16 = 900;

/// The answer to an action of the site: whether it succeeded, and a text.
#[derive(Debug)]
pub struct Message {
    pub is_succeed: bool,
    pub message: String,
}

/// The answer to a login attempt: a text and, on success, the session token
/// (`"Nil"` otherwise).
#[derive(Debug)]
pub struct LoginTryMessage {
    pub reply: String,
    pub token: String,
}

/// What a visitor of the site sends about themselves.
#[derive(Debug)]
pub struct WriteDataBody {
    pub email: String,
    pub name: String,
    pub about_customer: String,
}

/// A customer request as the database stores it.
pub struct WriteToBaseNewCustomer {
    pub id: u16,
    pub request_status: String,
    pub customer_name: String,
    pub customer_email: String,
    pub customer_self_description: String,
    pub owner_notes: OwnerNotes,
    pub object_logs: ObjectLogs,
}

/// Notes that the owner keeps on a customer request.
#[derive(Debug)]
pub struct OwnerNotes {
    pub notes: Vec<String>,
}

/// The history of a customer request.
#[derive(Debug)]
pub struct ObjectLogs {
    pub logs: Vec<String>,
}

/// An admin account.
#[derive(Debug)]
pub struct AdminsData {
    pub id: u16,
    pub user_login: String,
    pub user_password: String,
}

/// The body of a login request.
#[derive(Debug)]
pub struct LoginRequestData {
    pub login: String,
    pub password: String,
}

/// An open admin session and the seconds it has left.
#[derive(Debug, Clone)]
pub struct ActiveSessionsPool {
    pub session_id: String,
    pub countdown_secs: u16,
}

/// The body of an age-check request: the token the browser kept.
#[derive(Debug)]
pub struct AgeStorageCheck {
    pub token: String,
}

/// The outcome of checking the fields of a customer request: all good, or
/// the first field that is wrong.
#[derive(Debug, PartialEq, Eq, Structural, Clone, Copy)]
pub enum CheckFieldsCase {
    AllOk,
    Email,
    Name,
    AboutCustomer,
}

} // verus!
