//! The API's error vocabulary: what each failure is called on the wire, what
//! it tells the client and which HTTP status it carries.
use vstd::prelude::*;

verus! {

/// Every failure a request can end in.
#[derive(Debug, Clone)]
pub enum ApiError {
    InvalidCredentials,
    Unauthenticated,
    Forbidden,
    NotFound,
    DuplicateEmail,
    Conflict(String),
    Validation(String),
    RateLimited(String),
    /// The upstream AI provider was reached but declined (quota or
    /// overload); transient, unlike `Internal`.
    AiUnavailable,
    Internal,
}

impl ApiError {
    /// Whether `self` is `Validation` with the message `msg`.
    pub open spec fn is_validation(self, msg: Seq<char>) -> bool {
        self matches ApiError::Validation(m) && m@ == msg
    }

    /// Whether `self` is `Conflict` with the message `msg`.
    pub open spec fn is_conflict(self, msg: Seq<char>) -> bool {
        self matches ApiError::Conflict(m) && m@ == msg
    }

    /// Whether `self` is `RateLimited` with the message `msg`.
    pub open spec fn is_rate_limited(self, msg: Seq<char>) -> bool {
        self matches ApiError::RateLimited(m) && m@ == msg
    }

    /// The machine-readable code the client receives.
    pub open spec fn spec_code(self) -> Seq<char> {
        match self {
            ApiError::InvalidCredentials => "invalid_credentials"@,
            ApiError::Unauthenticated => "unauthenticated"@,
            ApiError::Forbidden => "forbidden"@,
            ApiError::NotFound => "not_found"@,
            ApiError::DuplicateEmail => "duplicate_email"@,
            ApiError::Conflict(_) => "conflict"@,
            ApiError::Validation(_) => "validation_error"@,
            ApiError::RateLimited(_) => "rate_limited"@,
            ApiError::AiUnavailable => "ai_unavailable"@,
            ApiError::Internal => "internal_error"@,
        }
    }

    /// The human-readable message the client receives. The three variants
    /// that carry a message show it verbatim; the others have a fixed text,
    /// deliberately generic for `Forbidden` (no hint whether a group exists)
    /// and for `AiUnavailable` (no hint which provider backs the AI).
    pub open spec fn spec_message(self) -> Seq<char> {
        match self {
            ApiError::InvalidCredentials => "invalid email or password"@,
            ApiError::Unauthenticated => "missing or invalid authentication token"@,
            ApiError::Forbidden => "you do not have permission to perform this action"@,
            ApiError::NotFound => "resource not found"@,
            ApiError::DuplicateEmail => "email already in use"@,
            ApiError::Conflict(m) => m@,
            ApiError::Validation(m) => m@,
            ApiError::RateLimited(m) => m@,
            ApiError::AiUnavailable => "the AI service is temporarily unavailable \u{2014} please try again in a moment"@,
            ApiError::Internal => "internal server error"@,
        }
    }

    /// The HTTP status of the response.
    pub open spec fn spec_status(self) -> u16 {
        match self {
            ApiError::InvalidCredentials => 401,
            ApiError::Unauthenticated => 401,
            ApiError::Forbidden => 403,
            ApiError::NotFound => 404,
            ApiError::DuplicateEmail => 409,
            ApiError::Conflict(_) => 409,
            ApiError::Validation(_) => 400,
            ApiError::RateLimited(_) => 429,
            ApiError::AiUnavailable => 503,
            ApiError::Internal => 500,
        }
    }

    pub fn code(&self) -> (c: &'static str)
        ensures
            c@ == self.spec_code(),
    {
        match self {
            ApiError::InvalidCredentials => "invalid_credentials",
            ApiError::Unauthenticated => "unauthenticated",
            ApiError::Forbidden => "forbidden",
            ApiError::NotFound => "not_found",
            ApiError::DuplicateEmail => "duplicate_email",
            ApiError::Conflict(_) => "conflict",
            ApiError::Validation(_) => "validation_error",
            ApiError::RateLimited(_) => "rate_limited",
            ApiError::AiUnavailable => "ai_unavailable",
            ApiError::Internal => "internal_error",
        }
    }

    pub fn message(&self) -> (m: String)
        ensures
            m@ == self.spec_message(),
    {
        match self {
            ApiError::InvalidCredentials => "invalid email or password".to_string(),
            ApiError::Unauthenticated => "missing or invalid authentication token".to_string(),
            ApiError::Forbidden => "you do not have permission to perform this action".to_string(),
            ApiError::NotFound => "resource not found".to_string(),
            ApiError::DuplicateEmail => "email already in use".to_string(),
            ApiError::Conflict(message) => message.clone(),
            ApiError::Validation(message) => message.clone(),
            ApiError::RateLimited(message) => message.clone(),
            ApiError::AiUnavailable => {
                "the AI service is temporarily unavailable \u{2014} please try again in a moment".to_string()
            },
            ApiError::Internal => "internal server error".to_string(),
        }
    }

    pub fn status_code(&self) -> (s: u16)
        ensures
            s == self.spec_status(),
    {
        match self {
            ApiError::InvalidCredentials => 401,
            ApiError::Unauthenticated => 401,
            ApiError::Forbidden => 403,
            ApiError::NotFound => 404,
            ApiError::DuplicateEmail => 409,
            ApiError::Conflict(_) => 409,
            ApiError::Validation(_) => 400,
            ApiError::RateLimited(_) => 429,
            ApiError::AiUnavailable => 503,
            ApiError::Internal => 500,
        }
    }
}

/// A validation error with the message `msg`.
pub fn validation(msg: &str) -> (e: ApiError)
    ensures
        e.is_validation(msg@),
{
    ApiError::Validation(msg.to_string())
}

/// A conflict error with the message `msg`.
pub fn conflict(msg: &str) -> (e: ApiError)
    ensures
        e.is_conflict(msg@),
{
    ApiError::Conflict(msg.to_string())
}

/// How the user store can fail.
#[derive(Debug, Clone, Copy, PartialEq, Eq, Structural)]
pub enum UserRepoError {
    /// The unique index on `email` rejected the write.
    DuplicateEmail,
    Database,
}

/// How the group store can fail.
#[derive(Debug, Clone, Copy, PartialEq, Eq, Structural)]
pub enum GroupRepoError {
    /// The unique index on (group, user) rejected the membership.
    DuplicateMember,
    Database,
}

/// How the ticket-link store can fail.
#[derive(Debug, Clone, Copy, PartialEq, Eq, Structural)]
pub enum LinkRepoError {
    /// The unique index on (group, source, target, relation) rejected the link.
    Duplicate,
    Database,
}

/// The API error a user-store failure surfaces as; database failures are
/// never leaked and collapse to `Internal`.
pub fn api_error_from_user_repo(err: UserRepoError) -> (e: ApiError)
    ensures
        err == UserRepoError::DuplicateEmail ==> e is DuplicateEmail,
        err == UserRepoError::Database ==> e is Internal,
{
    match err {
        UserRepoError::DuplicateEmail => ApiError::DuplicateEmail,
        UserRepoError::Database => ApiError::Internal,
    }
}

/// The API error a group-store failure surfaces as.
pub fn api_error_from_group_repo(err: GroupRepoError) -> (e: ApiError)
    ensures
        err == GroupRepoError::DuplicateMember ==> e.is_conflict(
            "user is already a member of this group"@,
        ),
        err == GroupRepoError::Database ==> e is Internal,
{
    match err {
        GroupRepoError::DuplicateMember => conflict("user is already a member of this group"),
        GroupRepoError::Database => ApiError::Internal,
    }
}

/// The API error a link-store failure surfaces as.
pub fn api_error_from_link_repo(err: LinkRepoError) -> (e: ApiError)
    ensures
        err == LinkRepoError::Duplicate ==> e.is_conflict("this link already exists"@),
        err == LinkRepoError::Database ==> e is Internal,
{
    match err {
        LinkRepoError::Duplicate => conflict("this link already exists"),
        LinkRepoError::Database => ApiError::Internal,
    }
}

} // verus!
