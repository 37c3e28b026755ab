use vstd::prelude::*;

use sha2::{Digest, Sha256};

use crate::edit::{batch_verdict, change_of, plan_edits, FormEditAllScores, RoundChange};
use crate::error::ApiError;
use vstd::utf8::encode_utf8;

verus! {

/// The SHA-256 digest of `data`.
pub uninterp spec fn sha256_digest(data: Seq<u8>) -> Seq<u8>;

/// Relies on sha2's `Sha256::digest`: the SHA-256 digest of `data`, which depends on the
/// bytes alone and is 32 bytes long.
#[verifier::external_body]
fn sha256(data: &[u8]) -> (r: Vec<u8>)
    ensures
        r@ == sha256_digest(data@),
        r@.len() == 32,
{
    Sha256::digest(data).to_vec()
}

/// The password check's answer on two password digests.
pub open spec fn digest_verdict(configured: Seq<u8>, submitted: Seq<u8>) -> Result<(), ApiError> {
    if configured == submitted {
        Ok(())
    } else {
        Err(ApiError::InvalidPassword)
    }
}

/// The password check's answer on a submitted password, where `configured` is the administrator
/// password the server was started with, if any.
pub open spec fn password_verdict(configured: Option<Seq<u8>>, submitted: Seq<u8>) -> Result<
    (),
    ApiError,
> {
    match configured {
        None => Err(ApiError::NoConfiguredPassword),
        Some(p) => digest_verdict(sha256_digest(p), sha256_digest(submitted)),
    }
}

/// The SHA-256 digest of a password's UTF-8 bytes.
pub fn password_digest(password: &str) -> (r: Vec<u8>)
    ensures
        r@ == sha256_digest(encode_utf8(password@)),
{
    sha256(password.as_bytes())
}

/// Compares two byte strings in time that depends on their lengths only.
pub fn bytes_match(a: &[u8], b: &[u8]) -> (r: bool)
    ensures
        r == (a@ == b@),
{
    if a.len() != b.len() {
        return false;
    }
    let mut difference: u8 = 0;
    let mut i: usize = 0;
    while i < a.len()
        invariant
            a@.len() == b@.len(),
            0 <= i <= a@.len(),
            (difference == 0) <==> (forall|j: int| 0 <= j < i ==> a@[j] == b@[j]),
        decreases a@.len() - i,
    {
        let x = a[i];
        let y = b[i];
        let next = difference | (x ^ y);
        assert((next == 0) <==> (difference == 0 && x == y)) by (bit_vector)
            requires
                next == difference | (x ^ y),
        ;
        proof {
            if difference == 0 && x == y {
                assert forall|j: int| 0 <= j < i + 1 implies a@[j] == b@[j] by {
                    if j < i {
                    }
                }
            }
        }
        difference = next;
        i = i + 1;
    }
    proof {
        if difference == 0 {
            assert(a@ =~= b@);
        }
    }
    difference == 0
}

/// The password check's answer on the digests of the configured and the submitted password.
pub fn check_password_digests(configured: &[u8], submitted: &[u8]) -> (r: Result<(), ApiError>)
    ensures
        r == digest_verdict(configured@, submitted@),
{
    if bytes_match(configured, submitted) {
        Ok(())
    } else {
        Err(ApiError::InvalidPassword)
    }
}

/// Lets an edit through only when a password is configured and the submitted one has
/// the same digest.
pub fn check_admin_password(configured: Option<&str>, submitted: &str) -> (r: Result<(), ApiError>)
    ensures
        r == password_verdict(
            match configured {
                Some(p) => Some(encode_utf8(p@)),
                None => None,
            },
            encode_utf8(submitted@),
        ),
{
    match configured {
        None => Err(ApiError::NoConfiguredPassword),
        Some(password) => {
            let expected = password_digest(password);
            let given = password_digest(submitted);
            check_password_digests(expected.as_slice(), given.as_slice())
        },
    }
}

impl FormEditAllScores {
    /// Checks the password, then the whole edit, and only when both pass hands back the
    /// storage operations, one per entry and in order.
    pub fn plan(&self, configured_password: Option<&str>) -> (r: Result<Vec<RoundChange>, ApiError>)
        ensures
            ({
                let access = password_verdict(
                    match configured_password {
                        Some(p) => Some(encode_utf8(p@)),
                        None => None,
                    },
                    encode_utf8(self.password@),
                );
                let edits = self.all_scores@;
                match r {
                    Ok(changes) => access is Ok && batch_verdict(edits, edits.len() as int) is Ok
                        && changes@ == edits.map_values(|e| change_of(e)),
                    Err(e) => access == Err::<(), ApiError>(e) || (access is Ok && batch_verdict(
                        edits,
                        edits.len() as int,
                    ) == Err::<(), ApiError>(e)),
                }
            }),
    {
        check_admin_password(configured_password, self.password.as_str())?;
        plan_edits(self.all_scores.as_slice())
    }
}

} // verus!
