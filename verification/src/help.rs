//! Helper functions.

use vstd::prelude::*;

use crate::text::{chars_of, string_of};

verus! {

/// The crate's name.
pub const NAME: &'static str = "skimmer";

/// The crate's version.
pub const VERSION: &'static str = "0.1.0";

/// Returns the crate's name and version, as `"<name> <version>"`.
pub fn version() -> (res: String)
    ensures
        res@ == NAME@ + " "@ + VERSION@,
{
    let mut out = String::from_str(NAME);
    out.append(" ");
    out.append(VERSION);
    out
}

/// A secret as read from its file, without the one trailing newline (`\n`
/// or `\r\n`) editors add; anything else, white space included, stays.
pub open spec fn secret_text(raw: Seq<char>) -> Seq<char> {
    if raw.len() >= 2 && raw[raw.len() - 2] == '\r' && raw.last() == '\n' {
        raw.take(raw.len() - 2)
    } else if raw.len() >= 1 && raw.last() == '\n' {
        raw.drop_last()
    } else {
        raw
    }
}

/// A secret file's text loses exactly its last line ending: the secret
/// written before a `\n` or a `\r\n` comes back as it was written, white
/// space and all, and a text without a final newline comes back whole.
pub proof fn law_secret_drops_one_newline(secret: Seq<char>)
    ensures
        secret_text(secret + seq!['\r', '\n']) == secret,
        (secret.len() == 0 || secret.last() != '\r') ==> secret_text(secret + seq!['\n']) == secret,
        (secret.len() == 0 || secret.last() != '\n') ==> secret_text(secret) == secret,
{
    let crlf = secret + seq!['\r', '\n'];
    assert(crlf[crlf.len() - 2] == '\r');
    assert(crlf.take(crlf.len() - 2) =~= secret);
    let lf = secret + seq!['\n'];
    assert(lf.drop_last() =~= secret);
}

/// Drops the trailing newline most editors add to a secret file.
pub fn trim_secret(raw: &str) -> (res: String)
    ensures
        res@ == secret_text(raw@),
{
    let v = chars_of(raw);
    let n = v.len();
    let e: usize = if n >= 2 && v[n - 2] == '\r' && v[n - 1] == '\n' {
        n - 2
    } else if n >= 1 && v[n - 1] == '\n' {
        n - 1
    } else {
        n
    };
    let out = string_of(&v, 0, e);
    assert(v@.subrange(0, e as int) =~= secret_text(raw@));
    out
}

} // verus!
