//! What can go wrong in a generation run.

use vstd::prelude::*;

verus! {

/// What an [`Error`] holds, as plain mathematical values.
pub enum ErrorView {
    ConfigParse(Seq<char>),
    Generation(Seq<char>),
    FileSystem(Seq<char>),
}

/// A failure of a generation run, with the message of whoever found it.
#[derive(Debug)]
pub enum Error {
    /// The configuration document is malformed.
    ConfigParse(String),
    /// No source text could be generated for a component.
    Generation(String),
    /// A directory could not be created or a file not written.
    FileSystem(String),
}

impl View for Error {
    type V = ErrorView;

    open spec fn view(&self) -> ErrorView {
        match self {
            Error::ConfigParse(message) => ErrorView::ConfigParse(message@),
            Error::Generation(message) => ErrorView::Generation(message@),
            Error::FileSystem(message) => ErrorView::FileSystem(message@),
        }
    }
}

impl Clone for Error {
    fn clone(&self) -> (copy: Error)
        ensures
            copy@ == self@,
    {
        match self {
            Error::ConfigParse(message) => Error::ConfigParse(message.clone()),
            Error::Generation(message) => Error::Generation(message.clone()),
            Error::FileSystem(message) => Error::FileSystem(message.clone()),
        }
    }
}

impl Error {
    /// The message that the error carries.
    pub fn message(&self) -> (message: &str)
        ensures
            self@ == ErrorView::ConfigParse(message@) || self@ == ErrorView::Generation(message@)
                || self@ == ErrorView::FileSystem(message@),
    {
        match self {
            Error::ConfigParse(message) => message.as_str(),
            Error::Generation(message) => message.as_str(),
            Error::FileSystem(message) => message.as_str(),
        }
    }
}

} // verus!
