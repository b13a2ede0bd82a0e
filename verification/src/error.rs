use vstd::prelude::*;

verus! {

/// What the service answers when an operation on users fails.
#[derive(Debug, PartialEq, Eq)]
pub enum Error {
    NotFound(String),
    InvalidInput(String),
    InternalServerError(String),
}

/// `Result` with the service's own error.
pub type Result<T> = std::result::Result<T, Error>;

/// An error taken as mathematical text.
pub enum ErrorView {
    NotFound(Seq<char>),
    InvalidInput(Seq<char>),
    InternalServerError(Seq<char>),
}

impl View for Error {
    type V = ErrorView;

    open spec fn view(&self) -> ErrorView {
        match self {
            Error::NotFound(m) => ErrorView::NotFound(m@),
            Error::InvalidInput(m) => ErrorView::InvalidInput(m@),
            Error::InternalServerError(m) => ErrorView::InternalServerError(m@),
        }
    }
}

/// The HTTP status code that answers an error.
pub open spec fn status_of(e: ErrorView) -> u16 {
    match e {
        ErrorView::NotFound(_) => 404,
        ErrorView::InvalidInput(_) => 400,
        ErrorView::InternalServerError(_) => 500,
    }
}

/// The text that an error is shown as.
pub open spec fn text_of(e: ErrorView) -> Seq<char> {
    match e {
        ErrorView::NotFound(m) => m,
        ErrorView::InvalidInput(m) => m,
        ErrorView::InternalServerError(m) => "Internal Server Error: "@ + m,
    }
}

impl Error {
    /// The HTTP status code of the response that carries this error:
    /// 404 for `NotFound`, 400 for `InvalidInput`, 500 for `InternalServerError`.
    pub fn status_code(&self) -> (code: u16)
        ensures
            code == status_of(self@),
            self is NotFound ==> code == 404,
            self is InvalidInput ==> code == 400,
            self is InternalServerError ==> code == 500,
    {
        match self {
            Error::NotFound(_) => 404,
            Error::InvalidInput(_) => 400,
            Error::InternalServerError(_) => 500,
        }
    }

    /// The error as text: the message itself, with the prefix
    /// `Internal Server Error: ` for an internal error.
    pub fn to_string(&self) -> (text: String)
        ensures
            text@ == text_of(self@),
            self matches Error::NotFound(m) ==> text@ == m@,
            self matches Error::InvalidInput(m) ==> text@ == m@,
            self matches Error::InternalServerError(m) ==> text@ == "Internal Server Error: "@ + m@,
    {
        match self {
            Error::NotFound(m) => m.clone(),
            Error::InvalidInput(m) => m.clone(),
            Error::InternalServerError(m) => {
                let mut text = "Internal Server Error: ".to_owned();
                text.append(m.as_str());
                text
            },
        }
    }
}

} // verus!
