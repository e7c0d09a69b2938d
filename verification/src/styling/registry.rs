//! The npm registry: where a tool's document is fetched from, and checking a fetched tarball
//! against the registry's Subresource Integrity string.
use vstd::prelude::*;
use base64::Engine;
use sha2::Digest;
use crate::compositor::hex::hex_char;
use crate::launcher::service::{whitespace_words, ws_words};
use crate::launcher::types::views;
use crate::styling::error::StyleError;
use crate::text::{chars_of, concat, has_prefix, owned, starts_with, string_from_chars};

verus! {

/// The SHA-512 digest of `data`, as `sha2::Sha512::digest` computes it.
pub uninterp spec fn sha512_of(data: Seq<u8>) -> Seq<u8>;

/// `sha2::Sha512::digest(data)`: the SHA-512 digest of `data`, 64 bytes.
#[verifier::external_body]
fn sha512(data: &[u8]) -> (r: Vec<u8>)
    ensures
        r@ == sha512_of(data@),
        r@.len() == 64,
{
    sha2::Sha512::digest(data).to_vec()
}

/// What `base64::engine::general_purpose::STANDARD.decode` gives for `s`: the bytes, or
/// the text of its `DecodeError`.
pub uninterp spec fn base64_decoding(s: Seq<char>) -> Result<Seq<u8>, Seq<char>>;

/// `STANDARD.decode(s)`, its error turned into its message.
#[verifier::external_body]
fn base64_decode(s: &str) -> (r: Result<Vec<u8>, String>)
    ensures
        match r {
            Ok(v) => base64_decoding(s@) == Ok::<Seq<u8>, Seq<char>>(v@),
            Err(e) => base64_decoding(s@) == Err::<Seq<u8>, Seq<char>>(e@),
        },
{
    match base64::engine::general_purpose::STANDARD.decode(s) {
        Ok(v) => Ok(v),
        Err(e) => Err(e.to_string()),
    }
}

/// Lower-case hexadecimal, two digits per byte.
pub open spec fn hex_of(b: Seq<u8>) -> Seq<char>
    decreases b.len(),
{
    if b.len() == 0 {
        Seq::empty()
    } else {
        hex_of(b.drop_last()) + seq![hex_char(b.last() as nat / 16), hex_char(b.last() as nat % 16)]
    }
}

/// `hex::encode`: lower-case hexadecimal, two digits per byte.
#[verifier::external_body]
fn hex_encode(bytes: &[u8]) -> (r: String)
    ensures
        r@ == hex_of(bytes@),
{
    hex::encode(bytes)
}

/// The first of `words` that starts with `sha512-`.
pub open spec fn first_sha512(words: Seq<Seq<char>>) -> Option<Seq<char>>
    decreases words.len(),
{
    if words.len() == 0 {
        None
    } else {
        match first_sha512(words.drop_last()) {
            Some(w) => Some(w),
            None => if has_prefix(words.last(), "sha512-"@) {
                Some(words.last())
            } else {
                None
            },
        }
    }
}

proof fn lemma_first_sha512_prefix(words: Seq<Seq<char>>, k: int)
    requires
        0 <= k <= words.len(),
        first_sha512(words.take(k)) is Some,
    ensures
        first_sha512(words) == first_sha512(words.take(k)),
    decreases words.len(),
{
    if k < words.len() {
        assert(words.drop_last().take(k) =~= words.take(k));
        lemma_first_sha512_prefix(words.drop_last(), k);
    } else {
        assert(words.take(k) =~= words);
    }
}

proof fn lemma_first_sha512_prefixed(words: Seq<Seq<char>>)
    ensures
        first_sha512(words) matches Some(w) ==> has_prefix(w, "sha512-"@),
    decreases words.len(),
{
    if words.len() > 0 {
        lemma_first_sha512_prefixed(words.drop_last());
    }
}

fn find_sha512(words: &Vec<String>) -> (r: Option<usize>)
    ensures
        match r {
            Some(i) => i < words.len() && first_sha512(views(words@)) == Some(words@[i as int]@),
            None => first_sha512(views(words@)) is None,
        },
{
    let ghost ws = views(words@);
    let mut i: usize = 0;
    while i < words.len()
        invariant
            i <= words.len(),
            ws == views(words@),
            first_sha512(ws.take(i as int)) is None,
        decreases words.len() - i,
    {
        proof {
            assert(ws.take(i + 1).drop_last() =~= ws.take(i as int));
            reveal_strlit("sha512-");
        }
        if starts_with(&words[i], "sha512-") {
            proof {
                lemma_first_sha512_prefix(ws, i + 1);
            }
            return Some(i);
        }
        i += 1;
    }
    proof {
        assert(ws.take(words.len() as int) =~= ws);
    }
    None
}

/// Checks `data` against an SRI integrity string, which may list several hashes separated
/// by whitespace (as the npm registry sometimes does): its first `sha512-` entry must
/// decode from base64 to the SHA-512 digest of `data`. Without such an entry the string is
/// unsupported; a mismatch reports both digests in hexadecimal.
pub fn verify_sha512(integrity: &str, data: &[u8]) -> (r: Result<(), StyleError>)
    ensures
        match first_sha512(ws_words(integrity@)) {
            None => r matches Err(StyleError::UnsupportedIntegrity(s)) && s@ == integrity@,
            Some(entry) => match base64_decoding(entry.skip(7)) {
                Err(msg) => r matches Err(StyleError::Base64(m)) && m@ == msg,
                Ok(expected) => if sha512_of(data@) == expected {
                    r is Ok
                } else {
                    r matches Err(StyleError::IntegrityMismatch { expected: e, actual: a }) && e@
                        == hex_of(expected) && a@ == hex_of(sha512_of(data@))
                },
            },
        },
{
    let chars = chars_of(integrity);
    let words = whitespace_words(chars.as_slice());
    let ghost ws = views(words@);
    let idx = match find_sha512(&words) {
        Some(k) => k,
        None => return Err(StyleError::UnsupportedIntegrity(owned(integrity))),
    };
    let entry = chars_of(&words[idx]);
    proof {
        reveal_strlit("sha512-");
        assert("sha512-"@.len() == 7);
        lemma_first_sha512_prefixed(ws);
    }
    let tail = entry.as_slice().split_at(7).1;
    proof {
        assert(tail@ =~= ws[idx as int].skip(7));
    }
    let b64 = string_from_chars(tail);
    let expected = match base64_decode(&b64) {
        Ok(v) => v,
        Err(e) => return Err(StyleError::Base64(e)),
    };
    let actual = sha512(data);
    digest_verdict(expected.as_slice(), actual.as_slice())
}

/// The verdict on a tarball whose expected digest is `expected` and actual digest
/// `actual`: accepted when they are equal, else a mismatch that shows both in hexadecimal.
pub fn digest_verdict(expected: &[u8], actual: &[u8]) -> (r: Result<(), StyleError>)
    ensures
        if actual@ == expected@ {
            r is Ok
        } else {
            r matches Err(StyleError::IntegrityMismatch { expected: e, actual: a }) && e@ == hex_of(
                expected@,
            ) && a@ == hex_of(actual@)
        },
{
    let mut same = actual.len() == expected.len();
    let mut k: usize = 0;
    while same && k < actual.len()
        invariant
            k <= actual.len(),
            same ==> actual.len() == expected.len(),
            same ==> forall|j: int| 0 <= j < k ==> actual@[j] == expected@[j],
            !same ==> actual@ != expected@,
        decreases actual.len() - k,
    {
        if actual[k] != expected[k] {
            same = false;
        }
        k += 1;
    }
    if same {
        proof {
            assert(actual@ =~= expected@);
        }
        Ok(())
    } else {
        Err(StyleError::IntegrityMismatch { expected: hex_encode(expected), actual: hex_encode(actual) })
    }
}

/// The registry document of `pkg@version`: `https://registry.npmjs.org/<pkg>/<version>`.
pub open spec fn registry_url_for(pkg: Seq<char>, version: Seq<char>) -> Seq<char> {
    "https://registry.npmjs.org/"@ + pkg + "/"@ + version
}

/// The URL of the npm registry's document for `pkg@version`; tools are fetched from
/// nowhere else.
pub fn registry_url(pkg: &str, version: &str) -> (r: String)
    ensures
        r@ == registry_url_for(pkg@, version@),
        has_prefix(r@, "https://registry.npmjs.org/"@),
{
    let a = concat("https://registry.npmjs.org/", pkg);
    let b = concat(&a, "/");
    let r = concat(&b, version);
    proof {
        assert(r@.take("https://registry.npmjs.org/"@.len() as int) =~= "https://registry.npmjs.org/"@);
    }
    r
}

/// The integrity string a registry document gives for its tarball; a document without
/// one is unsupported (`no integrity field for <pkg>@<version>`).
pub fn dist_integrity(integrity: Option<String>, pkg: &str, version: &str) -> (r: Result<String, StyleError>)
    ensures
        match integrity {
            Some(s) => r == Ok::<String, StyleError>(s),
            None => r matches Err(StyleError::UnsupportedIntegrity(m)) && m@
                == "no integrity field for "@ + pkg@ + "@"@ + version@,
        },
{
    match integrity {
        Some(s) => Ok(s),
        None => {
            let a = concat("no integrity field for ", pkg);
            let b = concat(&a, "@");
            Err(StyleError::UnsupportedIntegrity(concat(&b, version)))
        },
    }
}

} // verus!
