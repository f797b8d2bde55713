use vstd::prelude::*;

verus! {

/// What can go wrong while opening, decoding or seeking a video.
///
/// Failures that come from outside the playback core carry the outside failure's
/// own description, so that nothing is lost when it is shown to a user.
#[derive(Debug)]
pub enum Error {
    /// The source could not be read.
    Io(String),
    /// The location of the source could not be understood.
    Uri,
    /// A time offset does not fit the decoder's millisecond unit.
    Conversion,
    /// The decoder refused a decode or a seek.
    GenericVideo(String),
    /// An exclusive section was abandoned by a thread that panicked.
    Concurrency,
    /// Anything that fits none of the above.
    Unknown,
}

impl Clone for Error {
    fn clone(&self) -> (copy: Error)
        ensures
            copy == *self,
    {
        match self {
            Error::Io(detail) => Error::Io(detail.clone()),
            Error::Uri => Error::Uri,
            Error::Conversion => Error::Conversion,
            Error::GenericVideo(detail) => Error::GenericVideo(detail.clone()),
            Error::Concurrency => Error::Concurrency,
            Error::Unknown => Error::Unknown,
        }
    }
}

impl Error {
    /// The text that [`Error::message`] produces.
    pub open spec fn spec_message(self) -> Seq<char> {
        match self {
            Error::Io(detail) => detail@,
            Error::Uri => "invalid URI"@,
            Error::Conversion => "out of range integral type conversion attempted"@,
            Error::GenericVideo(detail) => detail@,
            Error::Concurrency => "mutex poisoned"@,
            Error::Unknown => "unknown error occured"@,
        }
    }

    /// A description of the error for a human reader.
    pub fn message(&self) -> (text: String)
        ensures
            text@ == self.spec_message(),
    {
        match self {
            Error::Io(detail) => detail.clone(),
            Error::Uri => "invalid URI".to_owned(),
            Error::Conversion => "out of range integral type conversion attempted".to_owned(),
            Error::GenericVideo(detail) => detail.clone(),
            Error::Concurrency => "mutex poisoned".to_owned(),
            Error::Unknown => "unknown error occured".to_owned(),
        }
    }
}

} // verus!
