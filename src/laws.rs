//! Properties that relate the library's functions to each other.
use vstd::prelude::*;
use crate::config::{AppConfig, scheme_of};
use crate::errors::{ServiceError, is_client_error, status_of};
use crate::naming::{FALLBACK_EXT, is_token, is_token_char, path_extension_of, resolved_extension, stored_name_of};
use crate::retrieval::{is_safe_segment, retrieval_path_of};
use crate::upload::{
    MAX_UPLOAD_BYTES,
    ParseFailure,
    UploadPlan,
    UploadedField,
    is_image_type,
    is_plan_of,
    public_url_of,
    selection_error,
};

verus! {

/// A stored name made of a token and an extension without `/` is a single
/// safe path segment.
pub proof fn lemma_stored_name_safe(t: Seq<char>, ext: Seq<char>)
    requires
        is_token(t),
        !ext.contains('/'),
    ensures
        is_safe_segment(stored_name_of(t, ext)),
{
    let name = stored_name_of(t, ext);
    assert(name.len() > 2);
    if name.contains('/') {
        let k = choose|k: int| 0 <= k < name.len() && name[k] == '/';
        if k < t.len() {
            assert(name[k] == t[k]);
            assert(is_token_char(t[k]));
        } else if k == t.len() {
            assert(name[k] == '.');
        } else {
            assert(name[k] == ext[k - t.len() - 1]);
            assert(ext.contains('/'));
        }
    }
    assert(name != seq!['.']) by {
        assert(name.len() != seq!['.'].len());
    }
    assert(name != seq!['.', '.']) by {
        assert(name.len() != seq!['.', '.'].len());
    }
}

/// Round trip: the image an upload stores is found again under the name in
/// its public URL, at the very file the upload writes, and what is written is
/// exactly the uploaded bytes.
pub proof fn lemma_round_trip(
    config: &AppConfig,
    host: Seq<char>,
    t: Seq<char>,
    ext: Seq<char>,
    bytes: Seq<u8>,
    plan: UploadPlan,
)
    requires
        is_token(t),
        !ext.contains('/'),
        is_plan_of(config, host, stored_name_of(t, ext), bytes, plan),
    ensures
        plan.url@ == public_url_of(scheme_of(config.tls), host, plan.file_name@),
        retrieval_path_of(config.storage_path@, plan.file_name@) == Some(plan.path@),
        plan.bytes@ == bytes,
{
    lemma_stored_name_safe(t, ext);
}

/// A successful upload answers with a URL whose path is `/i/` followed by a
/// token of `TOKEN_LEN` URL-safe characters, a dot and the extension.
pub proof fn lemma_upload_url_shape(
    config: &AppConfig,
    host: Seq<char>,
    t: Seq<char>,
    ext: Seq<char>,
    bytes: Seq<u8>,
    plan: UploadPlan,
)
    requires
        is_token(t),
        is_plan_of(config, host, stored_name_of(t, ext), bytes, plan),
    ensures
        plan.url@ == scheme_of(config.tls) + seq![':', '/', '/'] + host + seq!['/', 'i', '/'] + t
            + seq!['.'] + ext,
        plan.file_name@.subrange(0, t.len() as int) == t,
        plan.file_name@[t.len() as int] == '.',
        plan.file_name@.subrange(t.len() as int + 1, plan.file_name@.len() as int) == ext,
{
    let name = stored_name_of(t, ext);
    assert(plan.url@ =~= scheme_of(config.tls) + seq![':', '/', '/'] + host + seq!['/', 'i', '/']
        + t + seq!['.'] + ext);
    assert(name.subrange(0, t.len() as int) =~= t);
    assert(name.subrange(t.len() as int + 1, name.len() as int) =~= ext);
}

/// An upload without a client file name, or whose file name has no
/// extension, is stored under a name that ends in `.bin`.
pub proof fn lemma_fallback_name(name: Option<Seq<char>>, t: Seq<char>)
    requires
        is_token(t),
        name is None || path_extension_of(name.unwrap()) is None,
    ensures
        resolved_extension(name) == FALLBACK_EXT@,
        stored_name_of(t, resolved_extension(name)) == t + seq!['.', 'b', 'i', 'n'],
{
    reveal_strlit("bin");
    assert(FALLBACK_EXT@ =~= seq!['b', 'i', 'n']);
    assert(stored_name_of(t, resolved_extension(name)) =~= t + seq!['.', 'b', 'i', 'n']);
}

/// An upload whose image field is over `MAX_UPLOAD_BYTES` is refused with a
/// client error, so nothing is stored.
pub proof fn lemma_oversized_refused(parsed: Result<Vec<UploadedField>, ParseFailure>)
    requires
        parsed == Err::<Vec<UploadedField>, ParseFailure>(ParseFailure::TooLarge) || (parsed is Ok
            && parsed.unwrap()@.len() > 0 && parsed.unwrap()@[0].raw@.len() > MAX_UPLOAD_BYTES),
    ensures
        selection_error(parsed) is Some,
        is_client_error(selection_error(parsed).unwrap()),
{
}

/// An upload whose image field is not of an `image/*` type is refused as an
/// unsupported media type, a client error, so nothing is stored.
pub proof fn lemma_non_image_refused(parsed: Result<Vec<UploadedField>, ParseFailure>)
    requires
        parsed == Err::<Vec<UploadedField>, ParseFailure>(ParseFailure::NotImage) || (parsed is Ok
            && parsed.unwrap()@.len() > 0 && !is_image_type(
            crate::naming::option_view(&parsed.unwrap()@[0].content_type),
        )),
    ensures
        selection_error(parsed) == Some(ServiceError::UnsupportedMediaType),
        status_of(ServiceError::UnsupportedMediaType) == 400,
{
}

} // verus!
