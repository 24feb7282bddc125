//! What is wrong with a payload, field by field.

use crate::json::text_before;
use crate::text::{chars, opt_str, opt_text};
use vstd::prelude::*;

verus! {

/// One thing that is wrong with a value.
#[derive(Debug, Clone, PartialEq)]
pub struct ValidationError {
    /// The rule that was broken (`length`, `range`, ...).
    pub code: String,
    pub message: Option<String>,
}

/// What an error says.
pub ghost struct ErrorView {
    pub code: Seq<char>,
    pub message: Option<Seq<char>>,
}

impl View for ValidationError {
    type V = ErrorView;

    open spec fn view(&self) -> ErrorView {
        ErrorView { code: self.code@, message: opt_text(self.message) }
    }
}

/// An error with its field.
pub ghost struct FieldView {
    pub field: Seq<char>,
    pub error: ErrorView,
}

/// An error with its field.
#[derive(Debug, Clone, PartialEq)]
pub struct FieldError {
    pub field: String,
    pub error: ValidationError,
}

impl View for FieldError {
    type V = FieldView;

    open spec fn view(&self) -> FieldView {
        FieldView { field: self.field@, error: self.error@ }
    }
}

pub open spec fn field_views(v: Seq<FieldError>) -> Seq<FieldView> {
    Seq::new(v.len(), |i: int| v[i]@)
}

/// Everything that is wrong with a payload: by field name, and for one field
/// in the order in which its rules stand.
#[derive(Debug, Clone, PartialEq)]
pub struct ValidationErrors {
    pub errors: Vec<FieldError>,
    /// A part of the payload is itself invalid.
    pub nested: bool,
}

/// What is wrong with a payload.
pub ghost struct Wrong {
    pub fields: Seq<FieldView>,
    /// A part of the payload is itself invalid.
    pub nested: bool,
}

impl View for ValidationErrors {
    type V = Wrong;

    open spec fn view(&self) -> Wrong {
        Wrong { fields: field_views(self.errors@), nested: self.nested }
    }
}

impl ValidationError {
    /// The error of a broken rule.
    pub fn new(code: &str) -> (r: Self)
        ensures
            r@ == (ErrorView { code: code@, message: None }),
    {
        ValidationError { code: code.to_string(), message: None }
    }

    /// The error of a broken rule, with its own message.
    pub fn with_message(code: &str, message: &str) -> (r: Self)
        ensures
            r@ == (ErrorView { code: code@, message: Some(message@) }),
    {
        ValidationError { code: code.to_string(), message: Some(message.to_string()) }
    }
}

/// Where an error of `field` belongs: behind every error of that field and of
/// the fields before it.
pub open spec fn place_of(v: Seq<FieldView>, field: Seq<char>) -> int
    decreases v.len(),
{
    if v.len() == 0 {
        0
    } else if text_before(field, v.last().field) {
        place_of(v.drop_last(), field)
    } else {
        v.len() as int
    }
}

/// The errors with one more.
pub open spec fn added(w: Wrong, field: Seq<char>, error: ErrorView) -> Wrong {
    Wrong { fields: w.fields.insert(place_of(w.fields, field), FieldView { field, error }), ..w }
}

/// Nothing is wrong.
pub open spec fn no_errors() -> Wrong {
    Wrong { fields: seq![], nested: false }
}

/// Something is wrong.
pub open spec fn has_errors(w: Wrong) -> bool {
    w.fields.len() > 0 || w.nested
}

/// `str` order: by characters, a prefix first.
pub fn comes_before(a: &str, b: &str) -> (r: bool)
    ensures
        r == text_before(a@, b@),
{
    let x = chars(a);
    let y = chars(b);
    let mut i: usize = 0;
    assert(x@.skip(0) =~= x@);
    assert(y@.skip(0) =~= y@);
    while i < x.len() && i < y.len() && x[i] == y[i]
        invariant
            i <= x@.len(),
            i <= y@.len(),
            text_before(a@, b@) == text_before(x@.skip(i as int), y@.skip(i as int)),
        decreases x@.len() - i,
    {
        assert(x@.skip(i as int).skip(1) =~= x@.skip(i + 1));
        assert(y@.skip(i as int).skip(1) =~= y@.skip(i + 1));
        i = i + 1;
    }
    if i >= y.len() {
        false
    } else if i >= x.len() {
        true
    } else {
        x[i] < y[i]
    }
}

impl ValidationErrors {
    pub fn new() -> (r: Self)
        ensures
            r@ == no_errors(),
    {
        let r = ValidationErrors { errors: Vec::new(), nested: false };
        assert(r@.fields =~= no_errors().fields);
        r
    }

    pub fn is_empty(&self) -> (r: bool)
        ensures
            r == !has_errors(self@),
    {
        self.errors.len() == 0 && !self.nested
    }

    /// Notes an error of `field`.
    pub fn add_error(&mut self, field: &str, error: ValidationError)
        ensures
            final(self)@ == added(old(self)@, field@, error@),
    {
        let ghost all = self@.fields;
        let mut i: usize = self.errors.len();
        assert(all.take(i as int) =~= all);
        while i > 0 && comes_before(field, self.errors[i - 1].field.as_str())
            invariant
                i <= self.errors@.len(),
                all == self@.fields,
                *self == *old(self),
                place_of(all, field@) == place_of(all.take(i as int), field@),
            decreases i,
        {
            assert(all.take(i as int).drop_last() =~= all.take(i - 1));
            i = i - 1;
        }
        assert(place_of(all, field@) == i) by {
            if i > 0 {
                assert(all.take(i as int).last() == self.errors@[i - 1]@);
            }
        }
        let e = FieldError { field: field.to_string(), error };
        self.errors.insert(i, e);
        assert(self@.fields =~= all.insert(i as int, e@));
    }

    /// The outcome of a check that noted these errors.
    pub fn into_result(self) -> (r: Result<(), ValidationErrors>)
        ensures
            judged(r, self@),
    {
        if self.is_empty() {
            assert(self@.fields =~= no_errors().fields);
            Ok(())
        } else {
            Err(self)
        }
    }
}

/// What is wrong, by the outcome of a check: nothing when it succeeded.
pub open spec fn outcome(r: Result<(), ValidationErrors>) -> Wrong {
    match r {
        Ok(_) => no_errors(),
        Err(e) => e@,
    }
}

/// The outcome of a check tells what is wrong, and is an error exactly when
/// something is.
pub open spec fn judged(r: Result<(), ValidationErrors>, w: Wrong) -> bool {
    outcome(r) == w && (r is Err <==> has_errors(w))
}

/// The errors, with one more when a rule is broken.
pub open spec fn unless(
    w: Wrong,
    kept: bool,
    field: Seq<char>,
    code: Seq<char>,
    message: Option<Seq<char>>,
) -> Wrong {
    if kept {
        w
    } else {
        added(w, field, ErrorView { code, message })
    }
}

/// The errors, with what a rule of its own says of `field`.
pub open spec fn noted(w: Wrong, field: Seq<char>, error: Option<ErrorView>) -> Wrong {
    match error {
        Some(e) => added(w, field, e),
        None => w,
    }
}

/// The errors, when a part of the payload may itself be invalid.
pub open spec fn with_part(w: Wrong, valid: bool) -> Wrong {
    Wrong { nested: w.nested || !valid, ..w }
}

/// What a rule of its own says.
pub open spec fn verdict(r: Result<(), ValidationError>) -> Option<ErrorView> {
    match r {
        Ok(_) => None,
        Err(e) => Some(e@),
    }
}

impl ValidationErrors {
    /// Notes an error of `field` unless its rule is kept.
    pub fn check(&mut self, kept: bool, field: &str, code: &str, message: Option<&str>)
        ensures
            final(self)@ == unless(old(self)@, kept, field@, code@, opt_str(message)),
    {
        if !kept {
            let error = match message {
                Some(m) => ValidationError::with_message(code, m),
                None => ValidationError::new(code),
            };
            self.add_error(field, error);
        }
    }

    /// Notes what a rule of its own says of `field`.
    pub fn note(&mut self, field: &str, result: Result<(), ValidationError>)
        ensures
            final(self)@ == noted(old(self)@, field@, verdict(result)),
    {
        match result {
            Ok(_) => {},
            Err(e) => {
                self.add_error(field, e);
            },
        }
    }

    /// Notes whether a part of the payload is valid.
    pub fn part(&mut self, valid: bool)
        ensures
            final(self)@ == with_part(old(self)@, valid),
    {
        if !valid {
            self.nested = true;
        }
    }
}

// ---------------------------------------------------------------------
// Rules
// ---------------------------------------------------------------------

/// `s` has from `low` to `high` characters.
pub open spec fn length_within(s: Seq<char>, low: int, high: int) -> bool {
    low <= s.len() <= high
}

/// No text, or one of `low` to `high` characters.
pub open spec fn opt_length_within(s: Option<Seq<char>>, low: int, high: int) -> bool {
    s matches Some(t) ==> length_within(t, low, high)
}

pub fn has_length(s: &str, low: usize, high: usize) -> (r: bool)
    ensures
        r == length_within(s@, low as int, high as int),
{
    let n = chars(s).len();
    low <= n && n <= high
}

pub fn opt_has_length(s: &Option<String>, low: usize, high: usize) -> (r: bool)
    ensures
        r == opt_length_within(opt_text(*s), low as int, high as int),
{
    match s {
        Some(t) => has_length(t.as_str(), low, high),
        None => true,
    }
}

} // verus!
