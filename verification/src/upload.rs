use vstd::prelude::*;

use crate::strutil::{rfind_char, spec_rfind, str_eq_str};

verus! {

/// Why an upload request was refused.
#[derive(Clone, Copy, PartialEq, Eq, Structural, Debug)]
pub enum UploadError {
    /// The multipart body held no file field at all.
    NoUpload,
    /// The first file field carried no content disposition.
    NoContentDisposition,
    /// The first file field carried no filename.
    MissingFilename,
}

/// The body of a successful upload answer.
#[derive(Debug)]
pub struct UploadResponse {
    pub status: String,
    pub path: String,
}

/// What a multipart file field said about its name.
pub enum FieldName {
    /// The field carried no content disposition at all.
    NoDisposition,
    /// A content disposition was present but held no filename.
    NoFilename,
    /// The filename the field carried.
    Named(String),
}

/// The first file field of a multipart body, reduced to plain values:
/// what it said about its name, and its bytes.
pub struct UploadField {
    pub name: FieldName,
    pub bytes: Vec<u8>,
}

/// `s` with every trailing `c` removed.
pub open spec fn spec_strip_trailing(s: Seq<char>, c: char) -> Seq<char>
    decreases s.len(),
{
    if s.len() > 0 && s.last() == c {
        spec_strip_trailing(s.drop_last(), c)
    } else {
        s
    }
}

/// The final `'/'`-separated component of an uploaded filename, with
/// trailing separators ignored — the part a path-aware reading takes
/// the extension from.
pub open spec fn spec_file_component(name: Seq<char>) -> Seq<char> {
    let t = spec_strip_trailing(name, '/');
    t.subrange(spec_rfind(t, '/') + 1, t.len() as int)
}

/// The extension a stored blob takes from an uploaded filename: the part
/// of the filename's final component after its last `'.'`, unless the
/// component has no `'.'`, opens with its only `'.'`, or is the parent
/// marker `..`; then the fixed fallback `jpg`.
pub open spec fn spec_extension_for(name: Seq<char>) -> Seq<char> {
    let c = spec_file_component(name);
    let d = spec_rfind(c, '.');
    if c != ".."@ && d > 0 {
        c.subrange(d + 1, c.len() as int)
    } else {
        "jpg"@
    }
}

/// Derives the stored extension from an uploaded filename.
pub fn extension_for(filename: &str) -> (e: String)
    ensures
        e@ == spec_extension_for(filename@),
{
    let len = filename.unicode_len();
    let mut end: usize = len;
    proof {
        assert(filename@.take(len as int) =~= filename@);
    }
    while end > 0 && filename.get_char(end - 1) == '/'
        invariant
            end <= len,
            len == filename@.len(),
            spec_strip_trailing(filename@, '/') == spec_strip_trailing(
                filename@.take(end as int),
                '/',
            ),
        decreases end,
    {
        proof {
            assert(filename@.take(end as int).drop_last() =~= filename@.take(end - 1));
        }
        end = end - 1;
    }
    let stem = filename.substring_char(0, end);
    proof {
        assert(stem@ =~= spec_strip_trailing(filename@, '/'));
    }
    let slen = stem.unicode_len();
    let start: usize = match rfind_char(stem, '/') {
        Some(s) => s + 1,
        None => 0,
    };
    let comp = stem.substring_char(start, slen);
    proof {
        assert(comp@ =~= spec_file_component(filename@));
    }
    if str_eq_str(comp, "..") {
        let e = String::from_str("jpg");
        return e;
    }
    match rfind_char(comp, '.') {
        Some(d) if d > 0 => {
            let clen = comp.unicode_len();
            let sub = comp.substring_char(d + 1, clen);
            sub.to_owned()
        },
        _ => {
            let e = String::from_str("jpg");
            e
        },
    }
}

/// A well-formed blob identifier: the 36 characters of a hyphenated
/// 128-bit identifier, lower-case hex digits and hyphens, so it can hold
/// neither a `'.'` nor a path separator.
pub open spec fn spec_valid_blob_id(id: Seq<char>) -> bool {
    &&& id.len() == 36
    &&& forall|i: int|
        0 <= i < id.len() ==> ((48 <= #[trigger] id[i] as u32 && id[i] as u32 <= 57) || (97
            <= id[i] as u32 && id[i] as u32 <= 102) || id[i] as u32 == 45)
}

/// Relies on uuid::Uuid::new_v4 and its display form: a freshly drawn
/// random 128-bit identifier, rendered as the 36-character lower-case
/// hyphenated hex string. The draw is random, so nothing relates two
/// calls; of every outcome only the shape of the text is promised.
#[verifier::external_body]
pub(crate) fn fresh_blob_id() -> (id: String)
    ensures
        spec_valid_blob_id(id@),
{
    uuid::Uuid::new_v4().to_string()
}

/// The file name a blob is stored under: `<id>.<ext>`.
pub open spec fn spec_blob_file_name(id: Seq<char>, ext: Seq<char>) -> Seq<char> {
    id + "."@ + ext
}

/// Builds the stored file name `<id>.<ext>` for a blob.
pub fn blob_file_name(id: &str, ext: &str) -> (n: String)
    ensures
        n@ == spec_blob_file_name(id@, ext@),
{
    let mut n = id.to_owned();
    n.append(".");
    n.append(ext);
    n
}

/// The public path under which a user's current avatar is served.
pub open spec fn spec_avatar_url(user_id: Seq<char>) -> Seq<char> {
    "/avatars/"@ + user_id
}

/// Builds the public avatar path `/avatars/<userId>`.
pub fn avatar_url(user_id: &str) -> (p: String)
    ensures
        p@ == spec_avatar_url(user_id@),
{
    let mut p = String::from_str("/avatars/");
    p.append(user_id);
    p
}

/// The refusal a file field's name report earns, if any: a field
/// without a content disposition and one without a filename are each
/// refused with their own error, and a named field passes.
pub fn classify_field_name(name: &FieldName) -> (r: Option<UploadError>)
    ensures
        name is NoDisposition ==> r == Some(UploadError::NoContentDisposition),
        name is NoFilename ==> r == Some(UploadError::MissingFilename),
        name is Named ==> r is None,
{
    match name {
        FieldName::NoDisposition => Some(UploadError::NoContentDisposition),
        FieldName::NoFilename => Some(UploadError::MissingFilename),
        FieldName::Named(_) => None,
    }
}

/// Builds the answer owed for a successful upload: status `success` and
/// the user's avatar path.
pub fn success_response(user_id: &str) -> (r: UploadResponse)
    ensures
        r.status@ == "success"@,
        r.path@ == spec_avatar_url(user_id@),
{
    let status = String::from_str("success");
    UploadResponse { status, path: avatar_url(user_id) }
}

} // verus!
