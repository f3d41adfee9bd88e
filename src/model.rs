use vstd::prelude::*;
use crate::error::AppError;

verus! {

/// Fewest characters a title may have.
pub const TITLE_MIN_CHARS: u64 = 1;

/// Most characters a title may have.
pub const TITLE_MAX_CHARS: u64 = 255;

/// A todo record. The identifier is the 128-bit value of a UUID; both
/// timestamps count microseconds since the Unix epoch, in UTC.
#[derive(Clone, Debug)]
pub struct Todo {
    pub id: u128,
    pub title: String,
    pub completed: bool,
    pub created_at: i64,
    pub updated_at: i64,
}

/// The mathematical value of a [`Todo`].
pub ghost struct TodoView {
    pub id: u128,
    pub title: Seq<char>,
    pub completed: bool,
    pub created_at: i64,
    pub updated_at: i64,
}

impl View for Todo {
    type V = TodoView;

    open spec fn view(&self) -> TodoView {
        TodoView {
            id: self.id,
            title: self.title@,
            completed: self.completed,
            created_at: self.created_at,
            updated_at: self.updated_at,
        }
    }
}

impl Todo {
    /// A field-for-field copy.
    pub fn snapshot(&self) -> (r: Todo)
        ensures
            r@ == self@,
    {
        Todo {
            id: self.id,
            title: self.title.clone(),
            completed: self.completed,
            created_at: self.created_at,
            updated_at: self.updated_at,
        }
    }
}

/// A title is accepted when it has between 1 and 255 characters.
pub open spec fn title_is_valid(title: Seq<char>) -> bool {
    TITLE_MIN_CHARS <= title.len() <= TITLE_MAX_CHARS
}

/// The text of the validation failure for a title of the wrong length.
pub open spec fn title_error_text() -> Seq<char> {
    "Validation failed: title: Title must be between 1 and 255 characters"@
}

/// The error returned for a title of the wrong length.
pub open spec fn is_title_error(e: AppError) -> bool {
    &&& e is ValidationError
    &&& e->ValidationError_0@ == title_error_text()
}

/// Relies on validator::validate_length: on a `&str` it counts the characters
/// and holds the count against the lower and upper bound given.
#[verifier::external_body]
fn char_count_within(s: &str, min: u64, max: u64) -> (r: bool)
    ensures
        r == (min <= s@.len() && s@.len() <= max),
{
    validator::validate_length(s, Some(min), Some(max), None)
}

/// The body of a create or an update request.
#[derive(Clone, Debug)]
pub struct CreateTodo {
    pub title: String,
    pub completed: Option<bool>,
}

impl CreateTodo {
    pub fn new(title: String, completed: Option<bool>) -> (r: CreateTodo)
        ensures
            r.title@ == title@,
            r.completed == completed,
    {
        CreateTodo { title, completed }
    }

    /// The completion flag to store: `false` where the request leaves it out.
    pub open spec fn completed_spec(&self) -> bool {
        match self.completed {
            Some(c) => c,
            None => false,
        }
    }

    pub fn completed_or_default(&self) -> (r: bool)
        ensures
            r == self.completed_spec(),
    {
        match self.completed {
            Some(c) => c,
            None => false,
        }
    }

    /// Checks the title's length.
    pub fn validate(&self) -> (r: Result<(), AppError>)
        ensures
            r is Ok <==> title_is_valid(self.title@),
            r is Err ==> is_title_error(r->Err_0),
    {
        if char_count_within(self.title.as_str(), TITLE_MIN_CHARS, TITLE_MAX_CHARS) {
            Ok(())
        } else {
            Err(
                AppError::ValidationError(
                    "Validation failed: title: Title must be between 1 and 255 characters".to_owned(),
                ),
            )
        }
    }
}

/// Page size used when the request names none.
pub const DEFAULT_LIMIT: u32 = 10;

/// Largest page size served.
pub const MAX_LIMIT: u32 = 100;

/// The query of a list request: the page to show (counted from 1) and the
/// number of records per page. Values out of range are clamped, not refused.
#[derive(Clone, Copy, Debug)]
pub struct PaginationQuery {
    pub page: Option<u32>,
    pub limit: Option<u32>,
}

impl PaginationQuery {
    pub fn new(page: Option<u32>, limit: Option<u32>) -> (r: PaginationQuery)
        ensures
            r.page == page,
            r.limit == limit,
    {
        PaginationQuery { page, limit }
    }

    /// The page served: 1 when absent or below 1.
    pub open spec fn page_spec(&self) -> u32 {
        match self.page {
            Some(p) => if p < 1 { 1 } else { p },
            None => 1,
        }
    }

    /// The page size served: 10 when absent, then clamped to 1..=100.
    pub open spec fn limit_spec(&self) -> u32 {
        let l = match self.limit {
            Some(l) => l,
            None => DEFAULT_LIMIT,
        };
        if l > MAX_LIMIT {
            MAX_LIMIT
        } else if l < 1 {
            1
        } else {
            l
        }
    }

    /// How many records come before the page served.
    pub open spec fn offset_spec(&self) -> int {
        (self.page_spec() - 1) * self.limit_spec()
    }

    pub fn page_number(&self) -> (r: u32)
        ensures
            r == self.page_spec(),
            r >= 1,
    {
        match self.page {
            Some(p) => if p < 1 { 1 } else { p },
            None => 1,
        }
    }

    pub fn page_size(&self) -> (r: u32)
        ensures
            r == self.limit_spec(),
            1 <= r <= MAX_LIMIT,
    {
        let l = match self.limit {
            Some(l) => l,
            None => DEFAULT_LIMIT,
        };
        if l > MAX_LIMIT {
            MAX_LIMIT
        } else if l < 1 {
            1
        } else {
            l
        }
    }

    pub fn offset(&self) -> (r: u64)
        ensures
            r == self.offset_spec(),
    {
        let page = self.page_number();
        let limit = self.page_size();
        assert((page - 1) * limit <= 0xffff_ffffu64 * 100) by (nonlinear_arith)
            requires
                1 <= page <= 0xffff_ffffu64,
                1 <= limit <= 100,
        ;
        (page as u64 - 1) * (limit as u64)
    }
}

} // verus!
