use vstd::prelude::*;
use vstd::string::to_string_from_display_ensures;

verus! {

/// The standard library's I/O error, carried through the library unchanged.
#[verifier::external_type_specification]
#[verifier::external_body]
pub struct ExIoError(std::io::Error);

/// What can go wrong in a transfer: a message of the library's own, or an I/O
/// error raised by the source, the sink or the status stream.
pub enum Error {
    Msg(String),
    Io(std::io::Error),
}

/// Results whose failure is an [`Error`].
pub type Result<T> = core::result::Result<T, Error>;

impl Error {
    /// Whether this error carries a message of the library's own.
    pub open spec fn is_msg(&self) -> bool {
        self is Msg
    }

    /// The text of a message error.
    pub open spec fn msg_text(&self) -> Seq<char> {
        match self {
            Error::Msg(s) => s@,
            Error::Io(_) => Seq::empty(),
        }
    }

    /// The text that reports this error: the kind, then what it says.
    pub fn describe(&self) -> (r: String)
        ensures
            self is Msg ==> r@ == "Msg: "@ + self.msg_text(),
            self matches Error::Io(e) ==> exists|t: String|
                to_string_from_display_ensures::<std::io::Error>(&e, t) && r@ == "Io: "@ + t@,
    {
        match self {
            Error::Msg(s) => {
                let mut out = String::from_str("Msg: ");
                out.append(s.as_str());
                out
            },
            Error::Io(e) => {
                let mut out = String::from_str("Io: ");
                let text = e.to_string();
                out.append(text.as_str());
                out
            },
        }
    }
}

impl From<std::io::Error> for Error {
    fn from(e: std::io::Error) -> (r: Error) {
        Error::Io(e)
    }
}

impl vstd::std_specs::convert::FromSpecImpl<std::io::Error> for Error {
    open spec fn obeys_from_spec() -> bool {
        true
    }

    open spec fn from_spec(e: std::io::Error) -> Error {
        Error::Io(e)
    }
}

impl From<String> for Error {
    fn from(s: String) -> (r: Error) {
        Error::Msg(s)
    }
}

impl vstd::std_specs::convert::FromSpecImpl<String> for Error {
    open spec fn obeys_from_spec() -> bool {
        true
    }

    open spec fn from_spec(s: String) -> Error {
        Error::Msg(s)
    }
}

impl<'a> From<&'a str> for Error {
    fn from(s: &'a str) -> (r: Error) {
        Error::Msg(String::from_str(s))
    }
}

// A `String` is known by its view alone, so no value of `Error` can be named
// in a spec as the result of this conversion; verified callers use `From<String>`.
impl<'a> vstd::std_specs::convert::FromSpecImpl<&'a str> for Error {
    open spec fn obeys_from_spec() -> bool {
        false
    }

    open spec fn from_spec(s: &'a str) -> Error {
        arbitrary()
    }
}

} // verus!
