//! The errors of the library.
use vstd::prelude::*;
use vstd::std_specs::cmp::PartialEqSpecImpl;
use vstd::std_specs::convert::FromSpecImpl;
use vstd::string::*;

verus! {

/// What a function of the library returns where it can fail.
pub type ForensicResult<T> = Result<T, ForensicError>;

/// Cannot parse certain data because the format is invalid
#[derive(Debug)]
pub struct BadFormatError(pub String);

/// The expected content cannot be found
#[derive(Debug)]
pub struct MissingError(pub String);

/// What can go wrong in the library.
#[derive(Debug)]
pub enum ForensicError {
    PermissionError,
    NoMoreData,
    Other(String),
    Missing(MissingError),
    BadFormat(BadFormatError),
    /// An input or output operation failed; holds the message of the failure.
    Io(String),
    CastError,
    IllegalTimestamp(String),
}

/// What an error says, as plain values.
pub enum ErrorView {
    PermissionError,
    NoMoreData,
    Other(Seq<char>),
    Missing(Seq<char>),
    BadFormat(Seq<char>),
    Io(Seq<char>),
    CastError,
    IllegalTimestamp(Seq<char>),
}

impl View for BadFormatError {
    type V = Seq<char>;

    open spec fn view(&self) -> Seq<char> {
        self.0@
    }
}

impl View for MissingError {
    type V = Seq<char>;

    open spec fn view(&self) -> Seq<char> {
        self.0@
    }
}

impl View for ForensicError {
    type V = ErrorView;

    open spec fn view(&self) -> ErrorView {
        match self {
            ForensicError::PermissionError => ErrorView::PermissionError,
            ForensicError::NoMoreData => ErrorView::NoMoreData,
            ForensicError::Other(m) => ErrorView::Other(m@),
            ForensicError::Missing(e) => ErrorView::Missing(e@),
            ForensicError::BadFormat(e) => ErrorView::BadFormat(e@),
            ForensicError::Io(m) => ErrorView::Io(m@),
            ForensicError::CastError => ErrorView::CastError,
            ForensicError::IllegalTimestamp(m) => ErrorView::IllegalTimestamp(m@),
        }
    }
}

impl ForensicError {
    /// Create a BadFormatError from a static string slice
    pub fn bad_format_str(err: &'static str) -> (e: Self)
        ensures
            e@ == ErrorView::BadFormat(err@),
    {
        ForensicError::BadFormat(BadFormatError(String::from_str(err)))
    }

    /// Create a BadFormatError from a String
    pub fn bad_format_string(err: String) -> (e: Self)
        ensures
            e@ == ErrorView::BadFormat(err@),
    {
        ForensicError::BadFormat(BadFormatError(err))
    }

    /// Create a MissingError from a static string slice
    pub fn missing_str(err: &'static str) -> (e: Self)
        ensures
            e@ == ErrorView::Missing(err@),
    {
        ForensicError::Missing(MissingError(String::from_str(err)))
    }

    /// Create a MissingError from a String
    pub fn missing_string(err: String) -> (e: Self)
        ensures
            e@ == ErrorView::Missing(err@),
    {
        ForensicError::Missing(MissingError(err))
    }

    /// The short text of the error.
    pub fn description(&self) -> (s: String)
        ensures
            s@ == short_text(self@),
    {
        match self {
            ForensicError::PermissionError => String::from_str("Not enough permissions"),
            ForensicError::NoMoreData => String::from_str("No more content/data/files"),
            ForensicError::Other(e) => e.clone(),
            ForensicError::Missing(e) => e.0.clone(),
            ForensicError::BadFormat(e) => e.0.clone(),
            ForensicError::Io(_) => String::from_str("IO operations error"),
            ForensicError::CastError => String::from_str(
                "The Into/Form operation cannot be executed",
            ),
            ForensicError::IllegalTimestamp(_) => String::from_str("Illegal timestamp"),
        }
    }

    /// What the error says, as a sentence.
    pub fn to_string(&self) -> (s: String)
        ensures
            s@ == describe(self@),
    {
        match self {
            ForensicError::PermissionError => String::from_str("Not enough permissions"),
            ForensicError::NoMoreData => String::from_str("No more content/data/files"),
            ForensicError::Other(e) => String::from_str("An error ocurred: ").concat(e.as_str()),
            ForensicError::Missing(e) => String::from_str("A file/data cannot be found: ").concat(
                e.0.as_str(),
            ),
            ForensicError::BadFormat(e) => String::from_str(
                "The data have an unexpected format: ",
            ).concat(e.0.as_str()),
            ForensicError::Io(e) => String::from_str("IO operations error: ").concat(e.as_str()),
            ForensicError::CastError => String::from_str(
                "The Into/Form operation cannot be executed",
            ),
            ForensicError::IllegalTimestamp(reason) => String::from_str(
                "Illegal timestamp: '",
            ).concat(reason.as_str()).concat("'"),
        }
    }
}

/// The short text of an error: its message where it has one of its own,
/// or what its kind is called.
pub open spec fn short_text(e: ErrorView) -> Seq<char> {
    match e {
        ErrorView::PermissionError => "Not enough permissions"@,
        ErrorView::NoMoreData => "No more content/data/files"@,
        ErrorView::Other(m) => m,
        ErrorView::Missing(m) => m,
        ErrorView::BadFormat(m) => m,
        ErrorView::Io(_) => "IO operations error"@,
        ErrorView::CastError => "The Into/Form operation cannot be executed"@,
        ErrorView::IllegalTimestamp(_) => "Illegal timestamp"@,
    }
}

/// The sentence that stands for an error.
pub open spec fn describe(e: ErrorView) -> Seq<char> {
    match e {
        ErrorView::PermissionError => "Not enough permissions"@,
        ErrorView::NoMoreData => "No more content/data/files"@,
        ErrorView::Other(m) => "An error ocurred: "@ + m,
        ErrorView::Missing(m) => "A file/data cannot be found: "@ + m,
        ErrorView::BadFormat(m) => "The data have an unexpected format: "@ + m,
        ErrorView::Io(m) => "IO operations error: "@ + m,
        ErrorView::CastError => "The Into/Form operation cannot be executed"@,
        ErrorView::IllegalTimestamp(m) => "Illegal timestamp: '"@ + m + "'"@,
    }
}

impl Clone for ForensicError {
    fn clone(&self) -> (c: Self)
        ensures
            c@ == self@,
    {
        match self {
            ForensicError::PermissionError => ForensicError::PermissionError,
            ForensicError::CastError => ForensicError::CastError,
            ForensicError::NoMoreData => ForensicError::NoMoreData,
            ForensicError::Other(m) => ForensicError::Other(m.clone()),
            ForensicError::Missing(e) => ForensicError::Missing(MissingError(e.0.clone())),
            ForensicError::BadFormat(e) => ForensicError::BadFormat(BadFormatError(e.0.clone())),
            ForensicError::Io(m) => ForensicError::Io(m.clone()),
            ForensicError::IllegalTimestamp(m) => ForensicError::IllegalTimestamp(m.clone()),
        }
    }
}

impl PartialEq for ForensicError {
    fn eq(&self, other: &Self) -> (r: bool) {
        match (self, other) {
            (ForensicError::Other(l), ForensicError::Other(r)) => *l == *r,
            (ForensicError::Missing(l), ForensicError::Missing(r)) => l.0 == r.0,
            (ForensicError::BadFormat(l), ForensicError::BadFormat(r)) => l.0 == r.0,
            (ForensicError::PermissionError, ForensicError::PermissionError) => true,
            (ForensicError::NoMoreData, ForensicError::NoMoreData) => true,
            (ForensicError::CastError, ForensicError::CastError) => true,
            (ForensicError::IllegalTimestamp(l), ForensicError::IllegalTimestamp(r)) => *l == *r,
            _ => false,
        }
    }
}

impl PartialEqSpecImpl for ForensicError {
    open spec fn obeys_eq_spec() -> bool {
        true
    }

    /// Two errors are equal where they are of one kind and say the same;
    /// a failed input or output operation equals no error, not even itself.
    open spec fn eq_spec(&self, other: &Self) -> bool {
        self@ == other@ && !(self is Io)
    }
}

impl Eq for ForensicError {

}

impl From<MissingError> for ForensicError {
    fn from(value: MissingError) -> (e: Self) {
        ForensicError::Missing(value)
    }
}

impl FromSpecImpl<MissingError> for ForensicError {
    open spec fn obeys_from_spec() -> bool {
        true
    }

    open spec fn from_spec(value: MissingError) -> Self {
        ForensicError::Missing(value)
    }
}

impl From<&MissingError> for ForensicError {
    fn from(value: &MissingError) -> (e: Self)
        ensures
            e@ == ErrorView::Missing(value@),
    {
        ForensicError::Missing(MissingError(value.0.clone()))
    }
}

/// The conversion makes a value of its own, which no expression of a
/// contract names: what comes out is stated by the conversion itself.
impl FromSpecImpl<&MissingError> for ForensicError {
    open spec fn obeys_from_spec() -> bool {
        false
    }

    open spec fn from_spec(value: &MissingError) -> Self {
        arbitrary()
    }
}

impl From<BadFormatError> for ForensicError {
    fn from(value: BadFormatError) -> (e: Self) {
        ForensicError::BadFormat(value)
    }
}

impl FromSpecImpl<BadFormatError> for ForensicError {
    open spec fn obeys_from_spec() -> bool {
        true
    }

    open spec fn from_spec(value: BadFormatError) -> Self {
        ForensicError::BadFormat(value)
    }
}

impl From<&BadFormatError> for ForensicError {
    fn from(value: &BadFormatError) -> (e: Self)
        ensures
            e@ == ErrorView::BadFormat(value@),
    {
        ForensicError::BadFormat(BadFormatError(value.0.clone()))
    }
}

/// The conversion makes a value of its own, which no expression of a
/// contract names: what comes out is stated by the conversion itself.
impl FromSpecImpl<&BadFormatError> for ForensicError {
    open spec fn obeys_from_spec() -> bool {
        false
    }

    open spec fn from_spec(value: &BadFormatError) -> Self {
        arbitrary()
    }
}

impl From<String> for ForensicError {
    fn from(value: String) -> (e: Self) {
        ForensicError::Other(value)
    }
}

impl FromSpecImpl<String> for ForensicError {
    open spec fn obeys_from_spec() -> bool {
        true
    }

    open spec fn from_spec(value: String) -> Self {
        ForensicError::Other(value)
    }
}

impl From<&str> for ForensicError {
    fn from(value: &str) -> (e: Self)
        ensures
            e@ == ErrorView::Other(value@),
    {
        ForensicError::Other(String::from_str(value))
    }
}

/// The conversion makes a value of its own, which no expression of a
/// contract names: what comes out is stated by the conversion itself.
impl FromSpecImpl<&str> for ForensicError {
    open spec fn obeys_from_spec() -> bool {
        false
    }

    open spec fn from_spec(value: &str) -> Self {
        arbitrary()
    }
}

impl From<&String> for ForensicError {
    fn from(value: &String) -> (e: Self)
        ensures
            e@ == ErrorView::Other(value@),
    {
        ForensicError::Other(value.clone())
    }
}

/// The conversion makes a value of its own, which no expression of a
/// contract names: what comes out is stated by the conversion itself.
impl FromSpecImpl<&String> for ForensicError {
    open spec fn obeys_from_spec() -> bool {
        false
    }

    open spec fn from_spec(value: &String) -> Self {
        arbitrary()
    }
}

impl BadFormatError {
    /// What is wrong with the format.
    pub fn to_string(&self) -> (s: String)
        ensures
            s@ == self@,
    {
        self.0.clone()
    }
}

impl MissingError {
    /// What is missing.
    pub fn to_string(&self) -> (s: String)
        ensures
            s@ == self@,
    {
        self.0.clone()
    }
}

impl Clone for BadFormatError {
    fn clone(&self) -> (c: Self)
        ensures
            c@ == self@,
    {
        BadFormatError(self.0.clone())
    }
}

impl Clone for MissingError {
    fn clone(&self) -> (c: Self)
        ensures
            c@ == self@,
    {
        MissingError(self.0.clone())
    }
}

} // verus!
