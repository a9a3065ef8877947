//! The failures that the cache and the fetcher report.

use vstd::prelude::*;

verus! {

/// A failed access to the cache directory, to a file in it, or to the
/// network. Where the operating system or the transfer client gave a reason,
/// the variant carries its text unchanged.
#[derive(Debug, PartialEq, Eq)]
pub enum IoError {
    /// The cache directory, or one of its ancestors, could not be created.
    CreateDir(String),
    /// The cache directory could not be opened for listing.
    ReadDir(String),
    /// One child of the cache directory could not be read.
    ReadEntry(String),
    /// The name of a child of the cache directory is not valid text.
    UndecodableName,
    /// The temporary file of a download could not be created or written.
    TempFile(String),
    /// The transfer client reported anything but success.
    Transfer(String),
    /// The finished download could not be moved to its final name.
    Rename(String),
    /// A path handed to the wallpaper setter is not valid text.
    PathNotText,
}

impl IoError {
    /// The text of the error, as a sequence of characters.
    pub open spec fn spec_message(self) -> Seq<char> {
        match self {
            IoError::CreateDir(why) => why@,
            IoError::ReadDir(why) => why@,
            IoError::ReadEntry(why) => why@,
            IoError::UndecodableName => "uninterpretable filename"@,
            IoError::TempFile(why) => why@,
            IoError::Transfer(why) => why@,
            IoError::Rename(why) => why@,
            IoError::PathNotText => "Could not convert path to string.."@,
        }
    }

    /// The text of the error: the reason that came with it, or a fixed
    /// sentence for the two variants that carry none.
    pub fn message(&self) -> (text: String)
        ensures
            text@ == self.spec_message(),
    {
        match self {
            IoError::CreateDir(why) => why.clone(),
            IoError::ReadDir(why) => why.clone(),
            IoError::ReadEntry(why) => why.clone(),
            IoError::UndecodableName => "uninterpretable filename".to_string(),
            IoError::TempFile(why) => why.clone(),
            IoError::Transfer(why) => why.clone(),
            IoError::Rename(why) => why.clone(),
            IoError::PathNotText => "Could not convert path to string..".to_string(),
        }
    }
}

} // verus!
