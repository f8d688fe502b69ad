use vstd::prelude::*;
use vstd::string::StringExecFns;

verus! {

/// An error reported by the Swiss Ephemeris, or by this crate when it
/// rejects a request before calling the C library.
#[derive(Debug, Clone, PartialEq, Eq)]
pub struct Error {
    message: String,
}

impl Error {
    /// The message carried by this error.
    pub closed spec fn text(&self) -> Seq<char> {
        self.message@
    }

    /// An error carrying `message`.
    pub fn new(message: &str) -> (e: Error)
        ensures
            e.text() == message@,
    {
        Error { message: String::from_str(message) }
    }

    /// An error carrying an owned `message`.
    pub fn from_string(message: String) -> (e: Error)
        ensures
            e.text() == message@,
    {
        Error { message }
    }

    /// The text of the error as displayed: `"swiss ephemeris: "` followed
    /// by the message.
    pub fn to_string(&self) -> (s: String)
        ensures
            s@ == "swiss ephemeris: "@ + self.text(),
    {
        let mut s = String::from_str("swiss ephemeris: ");
        s.append(self.message.as_str());
        s
    }

    /// The error message reported by the C library (or by this crate for
    /// input validation).
    pub fn message(&self) -> (m: &str)
        ensures
            m@ == self.text(),
    {
        self.message.as_str()
    }
}

/// The outcome of a C call that reports failure by a negative return code
/// and describes it in its `serr` buffer: the return code when it is not
/// negative, else an error carrying the buffer's text.
pub fn check_serr_call(ret: i32, serr: String) -> (r: Result<i32, Error>)
    ensures
        r is Err <==> ret < 0,
        r matches Ok(v) ==> v == ret,
        r matches Err(e) ==> e.text() == serr@,
{
    if ret < 0 {
        return Err(Error::from_string(serr));
    }
    Ok(ret)
}

} // verus!
