use vstd::prelude::*;

verus! {

/// One email hand-off to the email collaborator: the destination address,
/// the subject line, and the HTML body of the digest.
pub struct Email {
    pub email: String,
    pub subject: String,
    pub body: String,
}

} // verus!
