use vstd::prelude::*;

verus! {

use vstd::string::StringExecFns;

/// The error taxonomy of the service.
///
/// Client errors (`BadRequest`, `Unauthorized`, `NotFound`) carry a message
/// that is shown to the caller verbatim; server errors (`InternalServerError`,
/// `DatabaseError`, `PoolError`) carry an internal message that is replaced by
/// a generic one before it leaves the service.
#[derive(Debug, Clone)]
pub enum ServiceError {
    InternalServerError(String),
    BadRequest(String),
    Unauthorized(String),
    DatabaseError(String),
    NotFound(String),
    PoolError(String),
}

/// The message shown for every server-side failure.
pub open spec fn msg_generic_server_error() -> Seq<char> {
    "An internal server error occurred. Please try again later."@
}

pub open spec fn spec_not_found(e: ServiceError, msg: Seq<char>) -> bool {
    &&& e matches ServiceError::NotFound(m)
    &&& m@ == msg
}

pub open spec fn spec_bad_request(e: ServiceError, msg: Seq<char>) -> bool {
    &&& e matches ServiceError::BadRequest(m)
    &&& m@ == msg
}

pub open spec fn spec_database_error(e: ServiceError, msg: Seq<char>) -> bool {
    &&& e matches ServiceError::DatabaseError(m)
    &&& m@ == msg
}

impl ServiceError {
    /// The HTTP status code that this error maps to.
    pub open spec fn spec_status_code(&self) -> u16 {
        match self {
            ServiceError::InternalServerError(_) => 500,
            ServiceError::DatabaseError(_) => 500,
            ServiceError::PoolError(_) => 500,
            ServiceError::BadRequest(_) => 400,
            ServiceError::Unauthorized(_) => 401,
            ServiceError::NotFound(_) => 404,
        }
    }

    pub open spec fn spec_message(&self) -> Seq<char> {
        match self {
            ServiceError::InternalServerError(m) => m@,
            ServiceError::DatabaseError(m) => m@,
            ServiceError::PoolError(m) => m@,
            ServiceError::BadRequest(m) => m@,
            ServiceError::Unauthorized(m) => m@,
            ServiceError::NotFound(m) => m@,
        }
    }

    pub fn status_code(&self) -> (c: u16)
        ensures
            c == self.spec_status_code(),
    {
        match self {
            ServiceError::InternalServerError(_) => 500,
            ServiceError::DatabaseError(_) => 500,
            ServiceError::PoolError(_) => 500,
            ServiceError::BadRequest(_) => 400,
            ServiceError::Unauthorized(_) => 401,
            ServiceError::NotFound(_) => 404,
        }
    }

    /// The raw message carried by the error.
    pub fn message(&self) -> (m: &str)
        ensures
            m@ == self.spec_message(),
    {
        match self {
            ServiceError::InternalServerError(m) => m.as_str(),
            ServiceError::DatabaseError(m) => m.as_str(),
            ServiceError::PoolError(m) => m.as_str(),
            ServiceError::BadRequest(m) => m.as_str(),
            ServiceError::Unauthorized(m) => m.as_str(),
            ServiceError::NotFound(m) => m.as_str(),
        }
    }

    /// Client errors (status below 500) expose their message verbatim; server
    /// errors always expose a generic message so that internals do not leak.
    pub fn user_facing_message(&self) -> (m: &str)
        ensures
            self.spec_status_code() < 500 ==> m@ == self.spec_message(),
            self.spec_status_code() >= 500 ==> m@ == msg_generic_server_error(),
    {
        if self.status_code() < 500 {
            self.message()
        } else {
            "An internal server error occurred. Please try again later."
        }
    }
}

pub open spec fn msg_project_not_found() -> Seq<char> {
    "Project not found or not owned by user"@
}

pub open spec fn msg_task_not_found() -> Seq<char> {
    "Task not found or not owned by user"@
}

pub open spec fn msg_label_not_found() -> Seq<char> {
    "Label not found or not owned by user"@
}

pub open spec fn msg_time_entry_not_found() -> Seq<char> {
    "TimeEntry not found or not owned by user"@
}

pub open spec fn msg_association_not_found() -> Seq<char> {
    "Association between task and label not found"@
}

pub open spec fn msg_database_failure() -> Seq<char> {
    "A database operation failed."@
}

pub open spec fn msg_inverted_date_range() -> Seq<char> {
    "start_date cannot be after end_date"@
}

pub open spec fn msg_invalid_period() -> Seq<char> {
    "Invalid period specified. Supported: this_week, last_7_days, this_month, last_30_days or provide start_date & end_date."@
}

pub open spec fn msg_null_for_required_field() -> Seq<char> {
    "A non-nullable field cannot be set to null"@
}

pub fn project_not_found() -> (e: ServiceError)
    ensures
        spec_not_found(e, msg_project_not_found()),
{
    ServiceError::NotFound(String::from_str("Project not found or not owned by user"))
}

pub fn task_not_found() -> (e: ServiceError)
    ensures
        spec_not_found(e, msg_task_not_found()),
{
    ServiceError::NotFound(String::from_str("Task not found or not owned by user"))
}

pub fn label_not_found() -> (e: ServiceError)
    ensures
        spec_not_found(e, msg_label_not_found()),
{
    ServiceError::NotFound(String::from_str("Label not found or not owned by user"))
}

pub fn time_entry_not_found() -> (e: ServiceError)
    ensures
        spec_not_found(e, msg_time_entry_not_found()),
{
    ServiceError::NotFound(String::from_str("TimeEntry not found or not owned by user"))
}

pub fn association_not_found() -> (e: ServiceError)
    ensures
        spec_not_found(e, msg_association_not_found()),
{
    ServiceError::NotFound(String::from_str("Association between task and label not found"))
}

pub fn database_failure() -> (e: ServiceError)
    ensures
        spec_database_error(e, msg_database_failure()),
{
    ServiceError::DatabaseError(String::from_str("A database operation failed."))
}

pub fn inverted_date_range() -> (e: ServiceError)
    ensures
        spec_bad_request(e, msg_inverted_date_range()),
{
    ServiceError::BadRequest(String::from_str("start_date cannot be after end_date"))
}

pub fn invalid_period() -> (e: ServiceError)
    ensures
        spec_bad_request(e, msg_invalid_period()),
{
    ServiceError::BadRequest(
        String::from_str(
            "Invalid period specified. Supported: this_week, last_7_days, this_month, last_30_days or provide start_date & end_date.",
        ),
    )
}

pub fn null_for_required_field() -> (e: ServiceError)
    ensures
        spec_bad_request(e, msg_null_for_required_field()),
{
    ServiceError::BadRequest(String::from_str("A non-nullable field cannot be set to null"))
}

} // verus!
