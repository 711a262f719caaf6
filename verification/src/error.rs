use vstd::prelude::*;

verus! {

/// A failure reported to the caller: a stable machine code, a human message and,
/// where the failure concerns one input field, the name of that field.
#[derive(Debug, Clone, PartialEq, Eq)]
pub struct DomainError {
    pub code: String,
    pub message: String,
    pub field: Option<String>,
}

impl DomainError {
    /// Builds an error from literal parts.
    pub fn new(code: &str, message: &str, field: Option<&str>) -> (e: DomainError)
        ensures
            e.code@ == code@,
            e.message@ == message@,
            field is None ==> e.field is None,
            field matches Some(f) ==> e.field matches Some(g) && g@ == f@,
    {
        let field = match field {
            Some(f) => Some(f.to_string()),
            None => None,
        };
        DomainError { code: code.to_string(), message: message.to_string(), field }
    }
}

/// `r` is the error `code` on the input field `field`.
pub open spec fn fails_on<T>(r: Result<T, DomainError>, code: Seq<char>, field: Seq<char>) -> bool {
    r matches Err(e) && e.code@ == code && crate::text::opt_text(e.field) == Some(field)
}

/// The result is a failure with the given code.
pub open spec fn fails_with<T>(r: Result<T, DomainError>, code: Seq<char>) -> bool {
    match r {
        Err(e) => e.code@ == code,
        Ok(_) => false,
    }
}

} // verus!
