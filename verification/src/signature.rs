//! The request signature: the MD5 digest, in lowercase hexadecimal, of the
//! signed fields in ascending order of their names, followed by the shared
//! secret.

use crypto::digest::Digest;
use vstd::prelude::*;
use vstd::string::StringExecFns;
use crate::params::{ascending_pairs, pairs_of, Pair, Param, Params};

verus! {

/// Names and values written one after the other, with nothing between them.
pub open spec fn concatenated(pairs: Seq<Pair>) -> Seq<char>
    decreases pairs.len(),
{
    if pairs.len() == 0 {
        Seq::empty()
    } else {
        concatenated(pairs.drop_last()) + pairs.last().0 + pairs.last().1
    }
}

/// The fields that are signed: the parameters without the signature and the
/// response format, and with the remote method's name under `method`.
pub open spec fn signed_fields(params: Map<Seq<char>, Seq<char>>, method: Seq<char>) -> Map<
    Seq<char>,
    Seq<char>,
> {
    params.remove("api_sig"@).remove("format"@).insert("method"@, method)
}

/// The text that is hashed: the signed fields in ascending byte-wise order of
/// their names, then the secret.
pub open spec fn signature_base(
    params: Map<Seq<char>, Seq<char>>,
    method: Seq<char>,
    secret: Seq<char>,
) -> Seq<char> {
    concatenated(ascending_pairs(signed_fields(params, method))) + secret
}

/// The MD5 digest of the UTF-8 encoding of `text`, as 32 lowercase
/// hexadecimal digits.
pub uninterp spec fn md5_hex(text: Seq<char>) -> Seq<char>;

/// A digit of lowercase hexadecimal.
pub open spec fn is_lower_hex(c: char) -> bool {
    ('0' <= c && c <= '9') || ('a' <= c && c <= 'f')
}

/// The signature of a request.
pub open spec fn signature(
    params: Map<Seq<char>, Seq<char>>,
    method: Seq<char>,
    secret: Seq<char>,
) -> Seq<char> {
    md5_hex(signature_base(params, method, secret))
}

/// Calls `crypto::md5::Md5` (`new`, `input_str`, `result_str`) on `text`.
/// Trusted: the result is the digest that `md5_hex` names, which depends on
/// the text alone, and `result_str` writes its 16 bytes as 32 digits out of
/// `0123456789abcdef`.
#[verifier::external_body]
fn md5_hex_digest(text: &str) -> (digest: String)
    ensures
        digest@ == md5_hex(text@),
        digest@.len() == 32,
        forall|i: int| 0 <= i < digest@.len() ==> is_lower_hex(#[trigger] digest@[i]),
{
    let mut hasher = crypto::md5::Md5::new();
    hasher.input_str(text);
    hasher.result_str()
}

/// Writes the entries one after the other.
fn concatenate(entries: &Vec<Param>) -> (text: String)
    ensures
        text@ == concatenated(pairs_of(entries@)),
{
    let ghost pairs = pairs_of(entries@);
    let mut text = String::new();
    let mut i: usize = 0;
    assert(pairs.take(0) =~= Seq::<Pair>::empty());
    while i < entries.len()
        invariant
            i <= entries@.len(),
            pairs == pairs_of(entries@),
            text@ == concatenated(pairs.take(i as int)),
        decreases entries@.len() - i,
    {
        proof {
            let next = pairs.take(i + 1);
            assert(next.drop_last() =~= pairs.take(i as int));
            assert(next.last() == pairs[i as int]);
        }
        text.append(entries[i].key.as_str());
        text.append(entries[i].value.as_str());
        i += 1;
    }
    assert(pairs.take(i as int) =~= pairs);
    text
}

/// The text that is hashed for a request: see `signature_base`.
pub fn signature_text(params: &Params, method: &str, secret: &str) -> (text: String)
    ensures
        text@ == signature_base(params@, method@, secret@),
{
    let mut fields = params.clone();
    fields.remove("api_sig");
    fields.remove("format");
    fields.insert("method".to_owned(), method.to_owned());
    let mut text = concatenate(fields.entries());
    text.append(secret);
    text
}

/// Signs a request: the digest of `signature_text`.
pub fn sign(params: &Params, method: &str, secret: &str) -> (sig: String)
    ensures
        sig@ == signature(params@, method@, secret@),
        sig@.len() == 32,
        forall|i: int| 0 <= i < sig@.len() ==> is_lower_hex(#[trigger] sig@[i]),
{
    let text = signature_text(params, method, secret);
    md5_hex_digest(text.as_str())
}

/// Signing is a function of the parameter set as a mapping, of the method
/// and of the secret: whatever the order in which two sets were filled, if
/// they hold the same parameters they get the same signature.
pub proof fn lemma_signature_deterministic(
    first: Map<Seq<char>, Seq<char>>,
    second: Map<Seq<char>, Seq<char>>,
    method: Seq<char>,
    secret: Seq<char>,
)
    requires
        first =~= second,
    ensures
        signature_base(first, method, secret) == signature_base(second, method, secret),
        signature(first, method, secret) == signature(second, method, secret),
{
}

/// The signature field is no part of what is signed: it is not among the
/// signed fields, and the signature is the same whatever value the
/// parameters give it, or whether they name it at all.
pub proof fn lemma_signature_excludes_itself(
    params: Map<Seq<char>, Seq<char>>,
    method: Seq<char>,
    secret: Seq<char>,
    value: Seq<char>,
)
    ensures
        !signed_fields(params, method).contains_key("api_sig"@),
        signed_fields(params.insert("api_sig"@, value), method) == signed_fields(params, method),
        signed_fields(params.remove("api_sig"@), method) == signed_fields(params, method),
        signature(params.insert("api_sig"@, value), method, secret) == signature(
            params,
            method,
            secret,
        ),
        signature(params.remove("api_sig"@), method, secret) == signature(params, method, secret),
{
    reveal_strlit("api_sig");
    reveal_strlit("method");
    assert("api_sig"@ != "method"@) by {
        assert("api_sig"@.len() == 7);
        assert("method"@.len() == 6);
    }
    assert(signed_fields(params.insert("api_sig"@, value), method) =~= signed_fields(
        params,
        method,
    ));
    assert(signed_fields(params.remove("api_sig"@), method) =~= signed_fields(params, method));
}

} // verus!
