//! Credential-file detection: the pure classification of a path as a likely
//! credential file, by file name, by extension, or by a directory pattern in
//! the path. Walking the workspace tree and prompting the user happen
//! outside; each candidate path comes in as a plain string.

use crate::text::rfind_char;
use crate::text::spec_contains;
use crate::text::spec_rfind;
use crate::text::str_contains;
use crate::text::str_eq;
use vstd::prelude::*;
use vstd::string::*;

verus! {

/// The file-name part of a path: everything after the last separator.
pub open spec fn spec_file_name(path: Seq<char>) -> Seq<char> {
    match spec_rfind(path, '/') {
        Some(i) => path.subrange(i + 1, path.len() as int),
        None => path,
    }
}

/// The extension of a file name: everything after the last dot, unless the
/// only dot is the leading character of a hidden file.
pub open spec fn spec_extension(name: Seq<char>) -> Option<Seq<char>> {
    match spec_rfind(name, '.') {
        Some(i) => if i > 0 {
            Some(name.subrange(i + 1, name.len() as int))
        } else {
            None
        },
        None => None,
    }
}

/// File names that typically hold credentials.
pub open spec fn spec_name_matches(name: Seq<char>) -> bool {
    ||| name == ".env"@
    ||| name == ".env.local"@
    ||| name == ".env.production"@
    ||| name == ".env.staging"@
    ||| name == "id_rsa"@
    ||| name == "id_ed25519"@
    ||| name == "id_ecdsa"@
    ||| name == "id_dsa"@
    ||| name == ".npmrc"@
    ||| name == ".pypirc"@
    ||| name == ".netrc"@
    ||| name == "credentials.json"@
    ||| name == "service-account.json"@
    ||| name == "terraform.tfstate"@
}

/// Extensions that typically mark key material.
pub open spec fn spec_ext_matches(ext: Seq<char>) -> bool {
    ||| ext == "pem"@
    ||| ext == "key"@
    ||| ext == "p12"@
    ||| ext == "pfx"@
    ||| ext == "jks"@
    ||| ext == "keystore"@
    ||| ext == "tfvars"@
}

/// Directory patterns that typically hold credentials anywhere in a path.
pub open spec fn spec_dir_matches(path: Seq<char>) -> bool {
    ||| spec_contains(path, ".aws/credentials"@)
    ||| spec_contains(path, ".aws/config"@)
    ||| spec_contains(path, ".ssh/"@)
    ||| spec_contains(path, ".gnupg/"@)
}

/// Whether a path looks like a credential file.
pub open spec fn spec_is_credential(path: Seq<char>) -> bool {
    ||| spec_name_matches(spec_file_name(path))
    ||| (spec_extension(spec_file_name(path)) matches Some(e) && spec_ext_matches(e))
    ||| spec_dir_matches(path)
}

fn file_name<'a>(path: &'a str) -> (r: &'a str)
    ensures
        r@ == spec_file_name(path@),
{
    let len = path.unicode_len();
    match rfind_char(path, '/') {
        Some(i) => path.substring_char(i + 1, len),
        None => path,
    }
}

fn extension<'a>(name: &'a str) -> (r: Option<&'a str>)
    ensures
        match r {
            Some(e) => spec_extension(name@) == Some(e@),
            None => spec_extension(name@) is None,
        },
{
    let len = name.unicode_len();
    match rfind_char(name, '.') {
        Some(i) => if i > 0 {
            Some(name.substring_char(i + 1, len))
        } else {
            None
        },
        None => None,
    }
}

fn name_matches(name: &str) -> (r: bool)
    ensures
        r == spec_name_matches(name@),
{
    str_eq(name, ".env") || str_eq(name, ".env.local") || str_eq(name, ".env.production")
        || str_eq(name, ".env.staging") || str_eq(name, "id_rsa") || str_eq(name, "id_ed25519")
        || str_eq(name, "id_ecdsa") || str_eq(name, "id_dsa") || str_eq(name, ".npmrc") || str_eq(
        name,
        ".pypirc",
    ) || str_eq(name, ".netrc") || str_eq(name, "credentials.json") || str_eq(
        name,
        "service-account.json",
    ) || str_eq(name, "terraform.tfstate")
}

fn ext_matches(ext: &str) -> (r: bool)
    ensures
        r == spec_ext_matches(ext@),
{
    str_eq(ext, "pem") || str_eq(ext, "key") || str_eq(ext, "p12") || str_eq(ext, "pfx") || str_eq(
        ext,
        "jks",
    ) || str_eq(ext, "keystore") || str_eq(ext, "tfvars")
}

fn dir_matches(path: &str) -> (r: bool)
    ensures
        r == spec_dir_matches(path@),
{
    str_contains(path, ".aws/credentials") || str_contains(path, ".aws/config") || str_contains(
        path,
        ".ssh/",
    ) || str_contains(path, ".gnupg/")
}

/// Classifies one path: credential-looking by its file name, its extension,
/// or a credential directory anywhere in it.
pub fn is_credential_file(path: &str) -> (r: bool)
    ensures
        r == spec_is_credential(path@),
{
    let name = file_name(path);
    if name_matches(name) {
        return true;
    }
    match extension(name) {
        Some(e) => {
            if ext_matches(e) {
                return true;
            }
        },
        None => {},
    }
    dir_matches(path)
}

} // verus!
