//! Names under which uploaded images are stored: a random token, a dot and
//! an extension taken from the client's file name.
use vstd::prelude::*;

verus! {

/// Number of characters in a token.
pub const TOKEN_LEN: usize = 10;

/// Extension given to a stored image whose client file name has none.
pub const FALLBACK_EXT: &'static str = "bin";

/// A character of the URL-safe alphabet that tokens are drawn from.
pub open spec fn is_token_char(c: char) -> bool {
    c == '_' || c == '-' || ('0' <= c && c <= '9') || ('a' <= c && c <= 'z') || ('A' <= c
        && c <= 'Z')
}

/// A well-formed token: `TOKEN_LEN` characters of the URL-safe alphabet.
pub open spec fn is_token(t: Seq<char>) -> bool {
    &&& t.len() == TOKEN_LEN
    &&& forall|i: int| 0 <= i < t.len() ==> is_token_char(#[trigger] t[i])
}

/// The extension component of a file name, as `std::path::Path::extension`
/// reads it.
pub uninterp spec fn path_extension_of(name: Seq<char>) -> Option<Seq<char>>;

/// The extension to store an upload under, given what was read from the
/// client's file name: that extension when there is one, else `"bin"`.
pub open spec fn resolved_extension(name: Option<Seq<char>>) -> Seq<char> {
    match name {
        Some(n) => match path_extension_of(n) {
            Some(e) => e,
            None => FALLBACK_EXT@,
        },
        None => FALLBACK_EXT@,
    }
}

/// The stored file name for a token and an extension.
pub open spec fn stored_name_of(token: Seq<char>, ext: Seq<char>) -> Seq<char> {
    token + seq!['.'] + ext
}

/// An optional string, as an optional sequence of characters.
pub open spec fn option_view(name: &Option<String>) -> Option<Seq<char>> {
    match name {
        Some(s) => Some(s@),
        None => None,
    }
}

/// Relies on `nanoid::format` with the `SAFE` alphabet and the default random
/// source: it returns exactly `size` characters, each one taken from the
/// alphabet (the 64 characters `_`, `-`, digits and ASCII letters).
#[verifier::external_body]
fn random_token() -> (r: String)
    ensures
        is_token(r@),
{
    nanoid::format(nanoid::rngs::default, &nanoid::alphabet::SAFE, TOKEN_LEN)
}

/// Relies on `std::path::Path::extension`: the part of the final component
/// of the path after its last `.`, when there is one. Being part of a single
/// component, it holds no `/`. Read from a `&str`, it is valid UTF-8.
#[verifier::external_body]
fn path_extension(name: &str) -> (r: Option<String>)
    ensures
        match r {
            Some(e) => path_extension_of(name@) == Some(e@) && !e@.contains('/'),
            None => path_extension_of(name@) is None,
        },
{
    std::path::Path::new(name).extension().and_then(|e| e.to_str()).map(String::from)
}

/// The extension under which an upload is stored: the extension of the
/// client's file name, or `"bin"` when the name is absent or has none.
pub fn get_extension(filename: &Option<String>) -> (r: String)
    ensures
        r@ == resolved_extension(option_view(filename)),
        !r@.contains('/'),
{
    proof {
        lemma_fallback_plain();
    }
    match filename {
        Some(s) => match path_extension(s.as_str()) {
            Some(e) => e,
            None => String::from_str(FALLBACK_EXT),
        },
        None => String::from_str(FALLBACK_EXT),
    }
}

/// The fallback extension holds no `/` and no `.`.
proof fn lemma_fallback_plain()
    ensures
        FALLBACK_EXT@ =~= seq!['b', 'i', 'n'],
        !FALLBACK_EXT@.contains('/'),
        !FALLBACK_EXT@.contains('.'),
{
    reveal_strlit("bin");
    assert(FALLBACK_EXT@ =~= seq!['b', 'i', 'n']);
}

/// `token.ext`.
pub fn stored_name(token: &str, ext: &str) -> (r: String)
    ensures
        r@ == stored_name_of(token@, ext@),
{
    let mut r = String::from_str(token);
    r.append(".");
    r.append(ext);
    proof {
        reveal_strlit(".");
    }
    r
}

/// A fresh stored file name for an upload whose client file name is
/// `filename`: a random token, a dot and the resolved extension.
pub fn generate_stored_name(filename: &Option<String>) -> (r: String)
    ensures
        exists|t: Seq<char>|
            is_token(t) && r@ == stored_name_of(t, resolved_extension(option_view(filename))),
{
    let token = random_token();
    let ext = get_extension(filename);
    stored_name(token.as_str(), ext.as_str())
}

} // verus!
