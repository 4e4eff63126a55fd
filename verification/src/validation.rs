//! What is asked of the fields of an input, and the list of what an input
//! fails.

use vstd::prelude::*;

verus! {

/// The fields that are checked.
#[derive(Clone, Copy, Debug, PartialEq, Eq, Structural)]
pub enum Field {
    RawPassword,
    Email,
    IdName,
    DisplayName,
    Description,
    Birthday,
    Website,
    Content,
}

/// The rules that a field can fail.
#[derive(Clone, Copy, Debug, PartialEq, Eq, Structural)]
pub enum Rule {
    /// The value is shorter or longer than allowed.
    Length,
    /// The value is no email address.
    Email,
    /// The value is no URL.
    Url,
    /// The date lies in the future.
    FutureBirthday,
    /// The value cannot be hashed.
    Hash,
}

/// One field of an input, and one rule that it fails.
#[derive(Clone, Copy, Debug, PartialEq, Eq, Structural)]
pub struct FieldError {
    pub field: Field,
    pub rule: Rule,
}

/// What an input fails, in the order of its fields.
#[derive(Debug, PartialEq, Eq)]
pub struct ValidationErrors {
    pub errors: Vec<FieldError>,
}

impl Field {
    /// The name of a field in an error's detail.
    pub open spec fn label(self) -> Seq<char> {
        match self {
            Field::RawPassword => "raw_password"@,
            Field::Email => "email"@,
            Field::IdName => "id_name"@,
            Field::DisplayName => "display_name"@,
            Field::Description => "description"@,
            Field::Birthday => "birthday"@,
            Field::Website => "website"@,
            Field::Content => "content"@,
        }
    }

    /// The name of this field in an error's detail.
    pub fn name(&self) -> (name: &'static str)
        ensures
            name@ == self.label(),
    {
        match self {
            Field::RawPassword => "raw_password",
            Field::Email => "email",
            Field::IdName => "id_name",
            Field::DisplayName => "display_name",
            Field::Description => "description",
            Field::Birthday => "birthday",
            Field::Website => "website",
            Field::Content => "content",
        }
    }
}

impl Rule {
    /// The code of a rule in an error's detail.
    pub open spec fn label(self) -> Seq<char> {
        match self {
            Rule::Length => "length"@,
            Rule::Email => "email"@,
            Rule::Url => "url"@,
            Rule::FutureBirthday => "future_birthday"@,
            Rule::Hash => "hash"@,
        }
    }

    /// The code of this rule in an error's detail.
    pub fn code(&self) -> (code: &'static str)
        ensures
            code@ == self.label(),
    {
        match self {
            Rule::Length => "length",
            Rule::Email => "email",
            Rule::Url => "url",
            Rule::FutureBirthday => "future_birthday",
            Rule::Hash => "hash",
        }
    }
}

/// The one failure of `rule` by `field` where `failed` holds, and nothing
/// where it does not.
pub open spec fn failure_if(failed: bool, field: Field, rule: Rule) -> Seq<FieldError> {
    if failed {
        seq![FieldError { field, rule }]
    } else {
        Seq::empty()
    }
}

impl ValidationErrors {
    /// An empty list.
    pub fn new() -> (list: ValidationErrors)
        ensures
            list.errors@ == Seq::<FieldError>::empty(),
    {
        ValidationErrors { errors: Vec::new() }
    }

    /// Tells whether nothing is listed.
    pub fn is_empty(&self) -> (empty: bool)
        ensures
            empty == (self.errors@.len() == 0),
    {
        self.errors.len() == 0
    }

    /// Lists the failure of `rule` by `field` if `failed` holds.
    pub fn add_if(&mut self, failed: bool, field: Field, rule: Rule)
        ensures
            final(self).errors@ == old(self).errors@ + failure_if(failed, field, rule),
    {
        if failed {
            self.errors.push(FieldError { field, rule });
        }
    }

    /// Tells whether the failure of `rule` by `field` is listed.
    pub fn has(&self, field: Field, rule: Rule) -> (listed: bool)
        ensures
            listed == self.errors@.contains(FieldError { field, rule }),
    {
        let mut i: usize = 0;
        while i < self.errors.len()
            invariant
                i <= self.errors@.len(),
                forall|j: int| 0 <= j < i ==> self.errors@[j] != (FieldError { field, rule }),
            decreases self.errors@.len() - i,
        {
            if self.errors[i].field == field && self.errors[i].rule == rule {
                return true;
            }
            i += 1;
        }
        false
    }

    /// `Ok` for an empty list, the list itself as the error otherwise.
    pub fn into_result(self) -> (checked: Result<(), ValidationErrors>)
        ensures
            match checked {
                Ok(_) => self.errors@.len() == 0,
                Err(list) => self.errors@.len() > 0 && list.errors@ == self.errors@,
            },
    {
        if self.errors.len() == 0 {
            Ok(())
        } else {
            Err(self)
        }
    }
}

/// Whether a length lies within the bounds that are given.
pub open spec fn length_is_within(length: nat, min: Option<u64>, max: Option<u64>) -> bool {
    &&& min matches Some(least) ==> length >= least
    &&& max matches Some(most) ==> length <= most
}

/// What `validator::validate_email` says of a text.
pub uninterp spec fn email_is_valid(text: Seq<char>) -> bool;

/// What `validator::validate_url` says of a text.
pub uninterp spec fn url_is_valid(text: Seq<char>) -> bool;

/// Calls `validator::validate_length` on a string, with no exact length
/// asked for. The crate counts the characters of the string and holds the
/// count against each bound that is given; the contract says the same.
#[verifier::external_body]
pub(crate) fn validate_length(value: &str, min: Option<u64>, max: Option<u64>) -> (ok: bool)
    ensures
        ok == length_is_within(value@.len(), min, max),
{
    validator::validate_length(value, min, max, None)
}

/// Calls `validator::validate_email`, which decides by the text alone whether
/// it is an email address in the sense of the HTML5 specification. The
/// contract gives the answer a name and claims nothing else of it.
#[verifier::external_body]
pub(crate) fn validate_email(value: &str) -> (ok: bool)
    ensures
        ok == email_is_valid(value@),
{
    validator::validate_email(value)
}

/// Calls `validator::validate_url`, which decides by the text alone whether
/// it parses as a URL. The contract gives the answer a name and claims
/// nothing else of it.
#[verifier::external_body]
pub(crate) fn validate_url(value: &str) -> (ok: bool)
    ensures
        ok == url_is_valid(value@),
{
    validator::validate_url(value)
}

} // verus!
