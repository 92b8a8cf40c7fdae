use vstd::prelude::*;
use vstd::string::StringExecFns;

verus! {

/// What can go wrong when a unit is read or a scale is asked for.
#[derive(Clone, Debug, PartialEq, Eq)]
pub enum Error {
    /// The text is no symbol of the quantity; holds the text as it was given.
    UnknownUnit(String),
    /// The unit has no fixed physical size; holds the unit's symbol.
    SizeOfUnknown(String),
    /// The unit is a temperature scale with an offset, so it has no scale
    /// against the kelvin.
    TemparatureConversion,
}

/// The mathematical content of an [`Error`].
pub enum ErrorView {
    UnknownUnit(Seq<char>),
    SizeOfUnknown(Seq<char>),
    TemparatureConversion,
}

impl View for Error {
    type V = ErrorView;

    open spec fn view(&self) -> ErrorView {
        match self {
            Error::UnknownUnit(text) => ErrorView::UnknownUnit(text@),
            Error::SizeOfUnknown(symbol) => ErrorView::SizeOfUnknown(symbol@),
            Error::TemparatureConversion => ErrorView::TemparatureConversion,
        }
    }
}

impl ErrorView {
    /// The sentence that tells a reader of the error.
    pub open spec fn message(self) -> Seq<char> {
        match self {
            ErrorView::UnknownUnit(text) => "unknown unit: "@ + text,
            ErrorView::SizeOfUnknown(symbol) => "size of "@ + symbol + " is unknown"@,
            ErrorView::TemparatureConversion => "no conversion to K by multiplication only"@,
        }
    }
}

impl Error {
    /// The error as a sentence.
    pub fn message(&self) -> (message: String)
        ensures
            message@ == self@.message(),
    {
        match self {
            Error::UnknownUnit(text) => {
                let mut message = String::from_str("unknown unit: ");
                message.append(text.as_str());
                message
            },
            Error::SizeOfUnknown(symbol) => {
                let mut message = String::from_str("size of ");
                message.append(symbol.as_str());
                message.append(" is unknown");
                message
            },
            Error::TemparatureConversion => String::from_str(
                "no conversion to K by multiplication only",
            ),
        }
    }
}

/// A result with its error replaced by the error's view.
pub open spec fn outcome<T>(result: Result<T, Error>) -> Result<T, ErrorView> {
    match result {
        Ok(value) => Ok(value),
        Err(error) => Err(error@),
    }
}

} // verus!
