//! Documents a consent can be given to (`legal_acceptances.document`).

use vstd::prelude::*;

verus! {

pub const TERMS_OF_USE: &'static str = "terms_of_use";

pub const PRIVACY_POLICY: &'static str = "privacy_policy";

pub const AGE_DECLARATION: &'static str = "age_declaration";

pub const MARKETING_EMAIL: &'static str = "marketing_email";

} // verus!
