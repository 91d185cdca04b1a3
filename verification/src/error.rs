use vstd::prelude::*;

verus! {

/// Every way a request can fail, each tied to one HTTP status.
#[derive(Debug, Clone, PartialEq, Eq)]
pub enum AppError {
    /// 401: missing or invalid credentials.
    Unauthorized,
    /// 403: authenticated, but not allowed.
    Forbidden,
    /// 404: the resource does not exist.
    NotFound,
    /// 422: the input was understood but refused; the text is shown to the client.
    UnprocessableEntity(String),
    /// 500: a genuine server failure; the text is for the operator's log only.
    Internal(String),
}

/// The mathematical value of an [`AppError`]: the same variants, texts as character sequences.
pub enum ErrorView {
    Unauthorized,
    Forbidden,
    NotFound,
    UnprocessableEntity(Seq<char>),
    Internal(Seq<char>),
}

impl View for AppError {
    type V = ErrorView;

    open spec fn view(&self) -> ErrorView {
        match self {
            AppError::Unauthorized => ErrorView::Unauthorized,
            AppError::Forbidden => ErrorView::Forbidden,
            AppError::NotFound => ErrorView::NotFound,
            AppError::UnprocessableEntity(m) => ErrorView::UnprocessableEntity(m@),
            AppError::Internal(m) => ErrorView::Internal(m@),
        }
    }
}

/// The status line and the text of the JSON body `{"error": message}` sent for an error.
#[derive(Debug, Clone, PartialEq, Eq)]
pub struct ErrorResponse {
    pub status: u16,
    pub message: String,
}

/// The HTTP status code that an error is answered with.
pub open spec fn status_of(e: ErrorView) -> u16 {
    match e {
        ErrorView::Unauthorized => 401,
        ErrorView::Forbidden => 403,
        ErrorView::NotFound => 404,
        ErrorView::UnprocessableEntity(_) => 422,
        ErrorView::Internal(_) => 500,
    }
}

/// The text the client sees for an error. Internal failures are never described to the client.
pub open spec fn client_message_of(e: ErrorView) -> Seq<char> {
    match e {
        ErrorView::Unauthorized => "unauthorized"@,
        ErrorView::Forbidden => "forbidden"@,
        ErrorView::NotFound => "not found"@,
        ErrorView::UnprocessableEntity(m) => m,
        ErrorView::Internal(_) => "internal error"@,
    }
}

/// Lifts a result to the mathematical values of both its sides.
pub open spec fn result_view<T: View>(r: Result<T, AppError>) -> Result<T::V, ErrorView> {
    match r {
        Ok(t) => Ok(t@),
        Err(e) => Err(e@),
    }
}

/// Builds an owned string from a literal, keeping its characters.
pub(crate) fn text(s: &str) -> (res: String)
    ensures
        res@ == s@,
{
    String::from_str(s)
}

impl AppError {
    /// A 422 error carrying the given client-facing text.
    pub fn unprocessable(msg: &str) -> (res: AppError)
        ensures
            res@ == ErrorView::UnprocessableEntity(msg@),
    {
        AppError::UnprocessableEntity(text(msg))
    }

    /// A 500 error carrying the given operator-facing text.
    pub fn internal(msg: &str) -> (res: AppError)
        ensures
            res@ == ErrorView::Internal(msg@),
    {
        AppError::Internal(text(msg))
    }

    /// The status code this error is answered with.
    pub fn status_code(&self) -> (res: u16)
        ensures
            res == status_of(self@),
    {
        match self {
            AppError::Unauthorized => 401,
            AppError::Forbidden => 403,
            AppError::NotFound => 404,
            AppError::UnprocessableEntity(_) => 422,
            AppError::Internal(_) => 500,
        }
    }

    /// Turns the error into the status and text of the response: 401 "unauthorized",
    /// 403 "forbidden", 404 "not found", 422 with the validation text, and 500
    /// "internal error" whatever the internal cause was.
    pub fn into_response(self) -> (res: ErrorResponse)
        ensures
            res.status == status_of(self@),
            res.message@ == client_message_of(self@),
    {
        let status = self.status_code();
        let message = match self {
            AppError::Unauthorized => text("unauthorized"),
            AppError::Forbidden => text("forbidden"),
            AppError::NotFound => text("not found"),
            AppError::UnprocessableEntity(msg) => msg,
            AppError::Internal(_) => text("internal error"),
        };
        ErrorResponse { status, message }
    }
}

} // verus!
