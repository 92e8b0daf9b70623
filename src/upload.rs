//! Admission of an uploaded image field and the plan for storing it: the
//! stored name, the file to write, the bytes, and the public URL.
use vstd::prelude::*;
use crate::config::{AppConfig, scheme_of, url_scheme};
use crate::errors::ServiceError;
use crate::naming::{option_view, generate_stored_name, is_token, resolved_extension, stored_name_of};
use crate::retrieval::{join_path, join_path_of};

verus! {

/// Name of the form field that carries the image.
pub const FIELD_NAME: &'static str = "img";

/// Largest accepted image, in bytes (64 MiB).
pub const MAX_UPLOAD_BYTES: u64 = 64 * 1024 * 1024;

/// Why the multipart parser gave up on a request body.
#[derive(Clone, Copy, Debug, PartialEq, Eq, Structural)]
pub enum ParseFailure {
    /// The image field went over its size limit.
    TooLarge,
    /// The image field's content type is not an image type.
    NotImage,
    /// Any other failure: not a multipart form, no boundary, a read error.
    Malformed,
}

/// One occurrence of the image field in a parsed form.
pub struct UploadedField {
    /// The field's content.
    pub raw: Vec<u8>,
    /// File name given by the client, if any.
    pub file_name: Option<String>,
    /// Content type of the field (`type/subtype`), if any.
    pub content_type: Option<String>,
}

/// What a successful upload writes and answers with.
pub struct UploadPlan {
    /// Name of the stored image.
    pub file_name: String,
    /// File the image is written to.
    pub path: String,
    /// Bytes to write.
    pub bytes: Vec<u8>,
    /// Public URL of the stored image.
    pub url: String,
}

/// The six characters `image/`.
pub open spec fn image_prefix() -> Seq<char> {
    seq!['i', 'm', 'a', 'g', 'e', '/']
}

/// A content type matched by `image/*`.
pub open spec fn is_image_type(ct: Option<Seq<char>>) -> bool {
    match ct {
        Some(t) => t.len() > 6 && t.subrange(0, 6) == image_prefix(),
        None => false,
    }
}

/// Why a single image field is refused, if it is.
pub open spec fn admission_error(f: UploadedField) -> Option<ServiceError> {
    if !is_image_type(option_view(&f.content_type)) {
        Some(ServiceError::UnsupportedMediaType)
    } else if f.raw@.len() > MAX_UPLOAD_BYTES {
        Some(ServiceError::PayloadTooLarge)
    } else {
        None
    }
}

/// Why an upload is refused, given what the parser returned: its failure, or
/// the occurrences of the image field that it found.
pub open spec fn selection_error(parsed: Result<Vec<UploadedField>, ParseFailure>) -> Option<
    ServiceError,
> {
    match parsed {
        Err(ParseFailure::TooLarge) => Some(ServiceError::PayloadTooLarge),
        Err(ParseFailure::NotImage) => Some(ServiceError::UnsupportedMediaType),
        Err(ParseFailure::Malformed) => Some(ServiceError::BadRequest),
        Ok(v) => if v@.len() == 0 {
            Some(ServiceError::MissingField)
        } else {
            admission_error(v@[0])
        },
    }
}

/// `scheme://host/i/name`.
pub open spec fn public_url_of(scheme: Seq<char>, host: Seq<char>, name: Seq<char>) -> Seq<char> {
    scheme + seq![':', '/', '/'] + host + seq!['/', 'i', '/'] + name
}

/// `plan` stores `bytes` under `name` in the configured directory and answers
/// with the public URL of `name` on `host`.
pub open spec fn is_plan_of(
    config: &AppConfig,
    host: Seq<char>,
    name: Seq<char>,
    bytes: Seq<u8>,
    plan: UploadPlan,
) -> bool {
    &&& plan.file_name@ == name
    &&& plan.path@ == join_path_of(config.storage_path@, name)
    &&& plan.bytes@ == bytes
    &&& plan.url@ == public_url_of(scheme_of(config.tls), host, name)
}

/// Whether a content type is matched by `image/*`.
pub fn image_type(ct: &Option<String>) -> (r: bool)
    ensures
        r == is_image_type(option_view(ct)),
{
    match ct {
        None => false,
        Some(t) => {
            let s = t.as_str();
            let n = s.unicode_len();
            if n <= 6 {
                return false;
            }
            let prefix = "image/";
            proof {
                reveal_strlit("image/");
                assert(prefix@ =~= image_prefix());
            }
            let mut i: usize = 0;
            while i < 6
                invariant
                    n == s@.len(),
                    n > 6,
                    option_view(ct) == Some(s@),
                    i <= 6,
                    prefix@ == image_prefix(),
                    forall|j: int| 0 <= j < i ==> s@[j] == image_prefix()[j],
                decreases 6 - i,
            {
                if s.get_char(i) != prefix.get_char(i) {
                    assert(s@.subrange(0, 6)[i as int] != image_prefix()[i as int]);
                    assert(s@.subrange(0, 6) != image_prefix());
                    return false;
                }
                i = i + 1;
            }
            assert(s@.subrange(0, 6) =~= image_prefix());
            true
        },
    }
}

/// Admits one image field: its content type must be an image type and its
/// size at most `MAX_UPLOAD_BYTES`.
pub fn admit_field(field: UploadedField) -> (r: Result<UploadedField, ServiceError>)
    ensures
        match admission_error(field) {
            Some(e) => r == Err::<UploadedField, ServiceError>(e),
            None => r == Ok::<UploadedField, ServiceError>(field),
        },
{
    if !image_type(&field.content_type) {
        Err(ServiceError::UnsupportedMediaType)
    } else if field.raw.len() as u64 > MAX_UPLOAD_BYTES {
        Err(ServiceError::PayloadTooLarge)
    } else {
        Ok(field)
    }
}

/// The image field of a parsed form, or the condition the upload ends in.
pub fn select_field(parsed: Result<Vec<UploadedField>, ParseFailure>) -> (r: Result<
    UploadedField,
    ServiceError,
>)
    ensures
        match selection_error(parsed) {
            Some(e) => r == Err::<UploadedField, ServiceError>(e),
            None => r == Ok::<UploadedField, ServiceError>(parsed.unwrap()@[0]),
        },
{
    match parsed {
        Err(ParseFailure::TooLarge) => Err(ServiceError::PayloadTooLarge),
        Err(ParseFailure::NotImage) => Err(ServiceError::UnsupportedMediaType),
        Err(ParseFailure::Malformed) => Err(ServiceError::BadRequest),
        Ok(mut fields) => {
            if fields.len() == 0 {
                Err(ServiceError::MissingField)
            } else {
                let first = fields.remove(0);
                admit_field(first)
            }
        },
    }
}

/// `scheme://host/i/name`.
pub fn public_url(scheme: &str, host: &str, name: &str) -> (r: String)
    ensures
        r@ == public_url_of(scheme@, host@, name@),
{
    let mut r = String::from_str(scheme);
    r.append("://");
    r.append(host);
    r.append("/i/");
    r.append(name);
    proof {
        reveal_strlit("://");
        reveal_strlit("/i/");
        assert(r@ =~= public_url_of(scheme@, host@, name@));
    }
    r
}

/// The plan for storing `bytes` under the stored name `name`.
pub fn prepare_upload(config: &AppConfig, host: &str, name: String, bytes: Vec<u8>) -> (r:
    UploadPlan)
    ensures
        is_plan_of(config, host@, name@, bytes@, r),
{
    let scheme = url_scheme(config.tls);
    let path = join_path(config.storage_path.as_str(), name.as_str());
    let url = public_url(scheme, host, name.as_str());
    UploadPlan { file_name: name, path, bytes, url }
}

/// Handles an upload to `host`, given what the multipart parser returned:
/// either the condition the upload ends in, or a plan that stores the image
/// field's bytes under a fresh random token and the extension of the client's
/// file name.
pub fn handle_upload(
    config: &AppConfig,
    host: &str,
    parsed: Result<Vec<UploadedField>, ParseFailure>,
) -> (r: Result<UploadPlan, ServiceError>)
    ensures
        match selection_error(parsed) {
            Some(e) => r == Err::<UploadPlan, ServiceError>(e),
            None => r is Ok && exists|t: Seq<char>|
                is_token(t) && is_plan_of(
                    config,
                    host@,
                    stored_name_of(
                        t,
                        resolved_extension(option_view(&parsed.unwrap()@[0].file_name)),
                    ),
                    parsed.unwrap()@[0].raw@,
                    r.unwrap(),
                ),
        },
{
    let field = match select_field(parsed) {
        Ok(f) => f,
        Err(e) => return Err(e),
    };
    let name = generate_stored_name(&field.file_name);
    Ok(prepare_upload(config, host, name, field.raw))
}

} // verus!
