use vstd::prelude::*;

verus! {

/// The error type of the library: a message meant for the user.
#[derive(Debug, PartialEq, Eq)]
pub struct Error(pub String);

impl View for Error {
    type V = Seq<char>;

    open spec fn view(&self) -> Seq<char> {
        self.0@
    }
}

impl Error {
    /// Builds an error that carries `msg` as its message.
    pub fn new(msg: &str) -> (e: Error)
        ensures
            e@ == msg@,
    {
        Error(msg.to_owned())
    }

    /// The message of the error, as it is shown to the user.
    pub fn to_string(&self) -> (s: String)
        ensures
            s@ == self@,
    {
        self.0.clone()
    }
}

impl From<String> for Error {
    fn from(err: String) -> (e: Error) {
        Error(err)
    }
}

impl vstd::std_specs::convert::FromSpecImpl<String> for Error {
    open spec fn obeys_from_spec() -> bool {
        true
    }

    open spec fn from_spec(err: String) -> Error {
        Error(err)
    }
}

} // verus!

verus! {

/// A result of the library, by its views: the value, or the message of the
/// error.
pub open spec fn outcome<T: View>(r: Result<T, Error>) -> Result<T::V, Seq<char>> {
    match r {
        Ok(v) => Ok(v@),
        Err(e) => Err(e@),
    }
}

} // verus!
