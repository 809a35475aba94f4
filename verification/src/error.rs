use vstd::prelude::*;

verus! {

/// The error taxonomy every externally observable failure falls under.
/// The same `IncorrectCredentials` kind is used whether the email, the
/// password, the challenge or the token was wrong, so a caller cannot
/// learn which check failed.
#[derive(Debug)]
pub enum AuthAPIError {
    UserAlreadyExists,
    InvalidCredentials,
    IncorrectCredentials,
    MissingToken,
    InvalidToken,
    /// Wraps an underlying storage, hashing or signing failure; the cause
    /// is kept for diagnostics only.
    UnexpectedError(String),
}

impl PartialEq for AuthAPIError {
    fn eq(&self, other: &Self) -> (r: bool) {
        match (self, other) {
            (AuthAPIError::UserAlreadyExists, AuthAPIError::UserAlreadyExists) => true,
            (AuthAPIError::InvalidCredentials, AuthAPIError::InvalidCredentials) => true,
            (AuthAPIError::IncorrectCredentials, AuthAPIError::IncorrectCredentials) => true,
            (AuthAPIError::MissingToken, AuthAPIError::MissingToken) => true,
            (AuthAPIError::InvalidToken, AuthAPIError::InvalidToken) => true,
            (AuthAPIError::UnexpectedError(_), AuthAPIError::UnexpectedError(_)) => true,
            _ => false,
        }
    }
}

impl vstd::std_specs::cmp::PartialEqSpecImpl for AuthAPIError {
    open spec fn obeys_eq_spec() -> bool {
        true
    }

    open spec fn eq_spec(&self, other: &Self) -> bool {
        match (self, other) {
            (AuthAPIError::UserAlreadyExists, AuthAPIError::UserAlreadyExists) => true,
            (AuthAPIError::InvalidCredentials, AuthAPIError::InvalidCredentials) => true,
            (AuthAPIError::IncorrectCredentials, AuthAPIError::IncorrectCredentials) => true,
            (AuthAPIError::MissingToken, AuthAPIError::MissingToken) => true,
            (AuthAPIError::InvalidToken, AuthAPIError::InvalidToken) => true,
            (AuthAPIError::UnexpectedError(_), AuthAPIError::UnexpectedError(_)) => true,
            _ => false,
        }
    }
}

/// The generic body every failing request is answered with.
#[derive(Debug)]
pub struct ErrorResponse {
    pub error: String,
}

/// The HTTP status each error kind is reported with.
pub open spec fn spec_error_status(e: AuthAPIError) -> u16 {
    match e {
        AuthAPIError::UserAlreadyExists => 409,
        AuthAPIError::InvalidCredentials => 400,
        AuthAPIError::MissingToken => 400,
        AuthAPIError::InvalidToken => 401,
        AuthAPIError::UnexpectedError(_) => 500,
        AuthAPIError::IncorrectCredentials => 401,
    }
}

/// The generic message each error kind is reported with; an unexpected
/// failure surfaces no internal detail — its stored cause belongs in the
/// diagnostic report only.
pub open spec fn spec_error_message(e: AuthAPIError) -> Seq<char> {
    match e {
        AuthAPIError::UserAlreadyExists => "User already exist."@,
        AuthAPIError::InvalidCredentials => "Invalid credentials."@,
        AuthAPIError::MissingToken => "Missing auth token"@,
        AuthAPIError::InvalidToken => "Invalid auth token"@,
        AuthAPIError::UnexpectedError(_) => "Unexpected error"@,
        AuthAPIError::IncorrectCredentials => "Unauthorized."@,
    }
}

/// Maps an error to the status code and generic body it is answered with.
pub fn error_response(e: &AuthAPIError) -> (r: (u16, ErrorResponse))
    ensures
        r.0 == spec_error_status(*e),
        r.1.error@ == spec_error_message(*e),
{
    match e {
        AuthAPIError::UserAlreadyExists => (
            409,
            ErrorResponse { error: String::from_str("User already exist.") },
        ),
        AuthAPIError::InvalidCredentials => (
            400,
            ErrorResponse { error: String::from_str("Invalid credentials.") },
        ),
        AuthAPIError::MissingToken => (
            400,
            ErrorResponse { error: String::from_str("Missing auth token") },
        ),
        AuthAPIError::InvalidToken => (
            401,
            ErrorResponse { error: String::from_str("Invalid auth token") },
        ),
        AuthAPIError::UnexpectedError(_) => (
            500,
            ErrorResponse { error: String::from_str("Unexpected error") },
        ),
        AuthAPIError::IncorrectCredentials => (
            401,
            ErrorResponse { error: String::from_str("Unauthorized.") },
        ),
    }
}

/// The lines framing a logged error report.
pub open spec fn spec_report_separator() -> Seq<char> {
    "\n-----------------------------------------------------------------------------------\n"@
}

/// The causes section of a report: one "Caused by" paragraph per cause, in
/// order.
pub open spec fn spec_causes_section(causes: Seq<Seq<char>>) -> Seq<char>
    decreases causes.len(),
{
    if causes.len() == 0 {
        Seq::<char>::empty()
    } else {
        spec_causes_section(causes.drop_last()) + "\nCaused by:\n\n"@ + causes.last()
    }
}

/// The full report for an error and its cause chain.
pub open spec fn spec_error_chain_report(error: Seq<char>, causes: Seq<Seq<char>>) -> Seq<char> {
    spec_report_separator() + error + "\n"@ + spec_causes_section(causes) + "\n"@
        + spec_report_separator()
}

/// Renders an error and its chain of causes as one framed report, ready to
/// be handed to whatever sink records diagnostics.
pub fn log_error_chain(error: &String, causes: &Vec<String>) -> (r: String)
    ensures
        r@ == spec_error_chain_report(error@, causes.deep_view()),
{
    let mut report = String::from_str(
        "\n-----------------------------------------------------------------------------------\n",
    );
    report.append(error.as_str());
    report.append("\n");

    let n: usize = causes.len();
    let mut i: usize = 0;
    while i < n
        invariant
            n == causes.len(),
            i <= n,
            report@ == spec_report_separator() + error@ + "\n"@ + spec_causes_section(
                causes.deep_view().take(i as int),
            ),
        decreases n - i,
    {
        report.append("\nCaused by:\n\n");
        report.append(causes[i].as_str());
        proof {
            let cs = causes.deep_view();
            assert(cs.take(i + 1).drop_last() =~= cs.take(i as int));
            assert(cs.take(i + 1).last() == cs[i as int]);
        }
        i += 1;
    }
    proof {
        assert(causes.deep_view().take(n as int) =~= causes.deep_view());
    }
    report.append("\n");
    report.append(
        "\n-----------------------------------------------------------------------------------\n",
    );
    report
}

} // verus!
