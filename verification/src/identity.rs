//! Identity derivation: mapping a canonical workspace path to the stable
//! name of its sandbox container and of the container's data volume.

use sha2::Digest;
use vstd::prelude::*;
use vstd::slice::slice_subrange;
use vstd::string::*;

verus! {

/// Digest of a byte sequence under SHA-256. The computation itself lives in
/// the `sha2` crate; contracts only name its result, which depends on the
/// input bytes alone.
pub uninterp spec fn sha256_of(bytes: Seq<u8>) -> Seq<u8>;

/// Lowercase hexadecimal digit for a nibble value (values 16 and above all
/// map to the last digit; callers only use values below 16).
pub open spec fn hex_digit(n: u8) -> char {
    if n == 0 {
        '0'
    } else if n == 1 {
        '1'
    } else if n == 2 {
        '2'
    } else if n == 3 {
        '3'
    } else if n == 4 {
        '4'
    } else if n == 5 {
        '5'
    } else if n == 6 {
        '6'
    } else if n == 7 {
        '7'
    } else if n == 8 {
        '8'
    } else if n == 9 {
        '9'
    } else if n == 10 {
        'a'
    } else if n == 11 {
        'b'
    } else if n == 12 {
        'c'
    } else if n == 13 {
        'd'
    } else if n == 14 {
        'e'
    } else {
        'f'
    }
}

/// Lowercase hexadecimal rendering of a byte sequence: two digits per byte,
/// high nibble first.
pub open spec fn hex_of(bytes: Seq<u8>) -> Seq<char>
    decreases bytes.len(),
{
    if bytes.len() == 0 {
        Seq::empty()
    } else {
        hex_of(bytes.drop_last()) + seq![
            hex_digit(bytes.last() / 16),
            hex_digit(bytes.last() % 16),
        ]
    }
}

/// Relies on `sha2::Sha256::digest`: the digest is a function of the input
/// bytes alone and is always 32 bytes long.
#[verifier::external_body]
pub(crate) fn sha256(data: &[u8]) -> (r: Vec<u8>)
    ensures
        r@ == sha256_of(data@),
        r@.len() == 32,
{
    sha2::Sha256::digest(data).as_slice().to_vec()
}

/// Relies on `hex::encode`: lowercase hexadecimal, two digits per byte,
/// high nibble first.
#[verifier::external_body]
pub(crate) fn hex_lower(bytes: &[u8]) -> (r: String)
    ensures
        r@ == hex_of(bytes@),
{
    hex::encode(bytes)
}

/// The identity of the sandbox container for a workspace path: a fixed
/// prefix followed by the first six digest bytes of the path, in hex.
pub open spec fn spec_container_name(path: Seq<char>) -> Seq<char> {
    "aipod-"@ + hex_of(sha256_of(vstd::utf8::encode_utf8(path)).take(6))
}

/// The name of the persistent data volume attached to a container.
pub open spec fn spec_volume_name(container: Seq<char>) -> Seq<char> {
    container + "-data"@
}

/// Derives the container identity for a canonical workspace path.
/// Total and deterministic: the result depends on the path alone.
pub fn container_name(workspace: &str) -> (r: String)
    ensures
        r@ == spec_container_name(workspace@),
{
    let bytes = workspace.as_bytes();
    let digest = sha256(bytes);
    let prefix = slice_subrange(digest.as_slice(), 0, 6);
    let tail = hex_lower(prefix);
    let name = "aipod-".to_owned();
    let r = name.concat(tail.as_str());
    r
}

/// Derives the data-volume name for a container identity.
pub fn volume_name(container: &str) -> (r: String)
    ensures
        r@ == spec_volume_name(container@),
{
    container.to_owned().concat("-data")
}

/// Equal canonical workspace paths always derive equal identities.
pub proof fn lemma_identity_deterministic(a: Seq<char>, b: Seq<char>)
    requires
        a == b,
    ensures
        spec_container_name(a) == spec_container_name(b),
{
}

proof fn lemma_hex_digit_injective(a: u8, b: u8)
    requires
        a < 16,
        b < 16,
        hex_digit(a) == hex_digit(b),
    ensures
        a == b,
{
}

/// The hex rendering is twice as long as its input.
pub proof fn lemma_hex_of_len(bytes: Seq<u8>)
    ensures
        hex_of(bytes).len() == 2 * bytes.len(),
    decreases bytes.len(),
{
    if bytes.len() > 0 {
        lemma_hex_of_len(bytes.drop_last());
    }
}

/// Distinct byte sequences render to distinct hex strings.
pub proof fn lemma_hex_of_injective(a: Seq<u8>, b: Seq<u8>)
    requires
        hex_of(a) == hex_of(b),
    ensures
        a == b,
    decreases a.len(),
{
    lemma_hex_of_len(a);
    lemma_hex_of_len(b);
    if a.len() == 0 {
        assert(a =~= b);
    } else {
        let ha = hex_of(a);
        let hb = hex_of(b);
        let n = ha.len();
        assert(ha[n - 2] == hex_digit(a.last() / 16) && ha[n - 1] == hex_digit(a.last() % 16));
        assert(hb[n - 2] == hex_digit(b.last() / 16) && hb[n - 1] == hex_digit(b.last() % 16));
        lemma_hex_digit_injective(a.last() / 16, b.last() / 16);
        lemma_hex_digit_injective(a.last() % 16, b.last() % 16);
        assert(a.last() == b.last());
        assert(hex_of(a.drop_last()) =~= ha.subrange(0, n - 2));
        assert(hex_of(b.drop_last()) =~= hb.subrange(0, n - 2));
        lemma_hex_of_injective(a.drop_last(), b.drop_last());
        assert forall|i: int| 0 <= i < a.len() implies a[i] == b[i] by {
            if i < a.len() - 1 {
                assert(a.drop_last()[i] == a[i]);
                assert(b.drop_last()[i] == b[i]);
            }
        }
        assert(a =~= b);
    }
}

/// Workspace paths whose digests differ in the first six bytes derive
/// distinct identities. (That two distinct paths collide in those bytes is
/// only ruled out by the collision resistance of the digest, which is
/// outside what can be proved here.)
pub proof fn lemma_identity_injective(a: Seq<char>, b: Seq<char>)
    requires
        sha256_of(vstd::utf8::encode_utf8(a)).take(6) != sha256_of(
            vstd::utf8::encode_utf8(b),
        ).take(6),
    ensures
        spec_container_name(a) != spec_container_name(b),
{
    let pa = sha256_of(vstd::utf8::encode_utf8(a)).take(6);
    let pb = sha256_of(vstd::utf8::encode_utf8(b)).take(6);
    if spec_container_name(a) == spec_container_name(b) {
        let p = "aipod-"@;
        assert((p + hex_of(pa)).skip(p.len() as int) =~= hex_of(pa));
        assert((p + hex_of(pb)).skip(p.len() as int) =~= hex_of(pb));
        lemma_hex_of_injective(pa, pb);
    }
}

} // verus!
