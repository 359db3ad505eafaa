//! The password digest of the login step.

use vstd::prelude::*;

verus! {

/// The digest that the server expects for `password` under the challenge
/// `nonce`: the value of `shvrpc::util::sha1_password_hash` on the UTF-8
/// bytes of the two strings.
pub uninterp spec fn password_digest(password: Seq<char>, nonce: Seq<char>) -> Seq<char>;

/// Calls `shvrpc::util::sha1_password_hash` on the bytes of `password` and
/// `nonce`. The result depends on the two arguments alone; the contract
/// gives it the name `password_digest` and claims nothing else of it.
#[verifier::external_body]
pub(crate) fn hash_password(password: &str, nonce: &str) -> (digest: String)
    ensures
        digest@ == password_digest(password@, nonce@),
{
    shvrpc::util::sha1_password_hash(password.as_bytes(), nonce.as_bytes())
}

} // verus!
