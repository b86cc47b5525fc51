use vstd::prelude::*;
use vstd::string::StringExecFns;

verus! {

/// Why an edited template could not be read back.
#[derive(Debug, Copy, Clone, PartialEq, Eq, Structural)]
pub enum ParseError {
    /// Comment stripping could not get through the text: a quoted literal is
    /// still open where the text ends.
    GrammarFailure,
    /// The text without its comments is not a JSON object with the fields of
    /// a request.
    Malformed,
}

/// What the library reports to its callers.
#[derive(Debug, Clone, PartialEq, Eq)]
pub enum Error {
    /// An edited template could not be read.
    Parse(ParseError),
    /// An option that is needed was given nowhere.
    MissingParameter(String),
    /// The address of the repository is no URL with a host.
    Url,
    /// The directory to clone into cannot be used.
    InvalidTargetDir,
    /// The repository has no working directory.
    RepositoryBare,
}

pub enum ErrorView {
    Parse(ParseError),
    MissingParameter(Seq<char>),
    Url,
    InvalidTargetDir,
    RepositoryBare,
}

impl View for Error {
    type V = ErrorView;

    open spec fn view(&self) -> ErrorView {
        match self {
            Error::Parse(e) => ErrorView::Parse(*e),
            Error::MissingParameter(name) => ErrorView::MissingParameter(name@),
            Error::Url => ErrorView::Url,
            Error::InvalidTargetDir => ErrorView::InvalidTargetDir,
            Error::RepositoryBare => ErrorView::RepositoryBare,
        }
    }
}

impl ErrorView {
    /// The kind of the error in a few words.
    pub open spec fn description(self) -> Seq<char> {
        match self {
            ErrorView::Parse(ParseError::GrammarFailure) => "Parse error"@,
            ErrorView::Parse(ParseError::Malformed) => "Malformed document"@,
            ErrorView::MissingParameter(_) => "Missing parameter"@,
            ErrorView::Url => "Repository URL is invalid"@,
            ErrorView::InvalidTargetDir => "Target directory is invalid"@,
            ErrorView::RepositoryBare => "Git repository is bare"@,
        }
    }

    /// The error as a line for the user: its description, and the name of
    /// the parameter where one is missing.
    pub open spec fn message(self) -> Seq<char> {
        match self {
            ErrorView::MissingParameter(name) => "Missing parameter: "@ + name,
            _ => self.description(),
        }
    }
}

impl Error {
    pub fn description(&self) -> (text: &'static str)
        ensures
            text@ == self@.description(),
    {
        match self {
            Error::Parse(ParseError::GrammarFailure) => "Parse error",
            Error::Parse(ParseError::Malformed) => "Malformed document",
            Error::MissingParameter(_) => "Missing parameter",
            Error::Url => "Repository URL is invalid",
            Error::InvalidTargetDir => "Target directory is invalid",
            Error::RepositoryBare => "Git repository is bare",
        }
    }

    pub fn message(&self) -> (text: String)
        ensures
            text@ == self@.message(),
    {
        match self {
            Error::MissingParameter(name) => {
                let mut text = "Missing parameter: ".to_owned();
                text.append(name.as_str());
                text
            },
            _ => self.description().to_owned(),
        }
    }
}

} // verus!
