use vstd::prelude::*;

verus! {

/// The envelope that wraps every answer of the service: a status word, and
/// either a payload or an error message.
#[derive(Clone, Debug)]
pub struct ApiResponse<T> {
    pub status: String,
    pub data: Option<T>,
    pub error: Option<String>,
}

impl<T> ApiResponse<T> {
    /// The envelope is a success envelope carrying `d`.
    pub open spec fn is_success_with(&self, d: T) -> bool {
        &&& self.status@ == "success"@
        &&& self.data == Some(d)
        &&& self.error is None
    }

    /// The envelope is a success envelope with some payload.
    pub open spec fn is_success(&self) -> bool {
        &&& self.status@ == "success"@
        &&& self.data is Some
        &&& self.error is None
    }

    /// The envelope is an error envelope carrying the message `m`.
    pub open spec fn is_error_with(&self, m: Seq<char>) -> bool {
        &&& self.status@ == "error"@
        &&& self.data is None
        &&& self.error is Some
        &&& self.error->0@ == m
    }

    /// A success envelope around `data`.
    pub fn success(data: T) -> (r: Self)
        ensures
            r.is_success_with(data),
    {
        ApiResponse { status: "success".to_owned(), data: Some(data), error: None }
    }

    /// An error envelope with the given message.
    pub fn error(message: &str) -> (r: Self)
        ensures
            r.is_error_with(message@),
    {
        ApiResponse { status: "error".to_owned(), data: None, error: Some(message.to_owned()) }
    }
}

/// An HTTP status code together with the envelope sent as the body.
#[derive(Clone, Debug)]
pub struct Reply<T> {
    pub status: u16,
    pub body: ApiResponse<T>,
}

} // verus!
