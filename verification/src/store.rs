use vstd::prelude::*;

use crate::stats::{is_image_file, spec_is_image};
use crate::strutil::str_eq_str;
use crate::upload::{
    blob_file_name, extension_for, fresh_blob_id, spec_avatar_url, spec_blob_file_name,
    spec_extension_for, spec_valid_blob_id, success_response, FieldName, UploadError, UploadField,
    UploadResponse,
};

verus! {

/// Why a retrieval failed.
#[derive(Clone, Copy, PartialEq, Eq, Structural, Debug)]
pub enum RetrieveError {
    /// No pointer record exists for the user: nothing was ever uploaded.
    AvatarNotFound,
    /// A pointer record exists but names a blob that is gone.
    AvatarFileMissing,
}

/// The last value stored under key `k`, if any.
spec fn lookup_blob(s: Seq<(String, Vec<u8>)>, k: Seq<char>) -> Option<Seq<u8>>
    decreases s.len(),
{
    if s.len() == 0 {
        None
    } else if s.last().0@ == k {
        Some(s.last().1@)
    } else {
        lookup_blob(s.drop_last(), k)
    }
}

/// The last pointer stored under key `k`, if any.
spec fn lookup_ptr(s: Seq<(String, String)>, k: Seq<char>) -> Option<Seq<char>>
    decreases s.len(),
{
    if s.len() == 0 {
        None
    } else if s.last().0@ == k {
        Some(s.last().1@)
    } else {
        lookup_ptr(s.drop_last(), k)
    }
}

/// How many stored blobs carry a recognized image extension.
spec fn count_images(s: Seq<(String, Vec<u8>)>) -> nat
    decreases s.len(),
{
    if s.len() == 0 {
        0
    } else {
        count_images(s.drop_last()) + if spec_is_image(s.last().0@) {
            1nat
        } else {
            0nat
        }
    }
}

proof fn lemma_count_le_len(s: Seq<(String, Vec<u8>)>)
    ensures
        count_images(s) <= s.len(),
    decreases s.len(),
{
    if s.len() > 0 {
        lemma_count_le_len(s.drop_last());
    }
}

/// The avatar storage subsystem: immutable blobs under generated file
/// names, and a mutable per-user pointer naming the blob that is the
/// user's current avatar. Writes only ever add a blob and move a
/// pointer; blobs are never mutated or deleted.
pub struct AvatarStore {
    blobs: Vec<(String, Vec<u8>)>,
    pointers: Vec<(String, String)>,
}

impl AvatarStore {
    /// The bytes of the blob stored under file name `name`, if any.
    pub closed spec fn blob_at(&self, name: Seq<char>) -> Option<Seq<u8>> {
        lookup_blob(self.blobs@, name)
    }

    /// The blob file name the user's pointer names, if a pointer exists.
    pub closed spec fn pointer_at(&self, user: Seq<char>) -> Option<Seq<char>> {
        lookup_ptr(self.pointers@, user)
    }

    /// How many stored blobs are images, by their extension.
    pub closed spec fn spec_image_count(&self) -> nat {
        count_images(self.blobs@)
    }

    /// Pointer consistency: every pointer names a blob that exists.
    pub open spec fn wf(&self) -> bool {
        forall|u: Seq<char>|
            match #[trigger] self.pointer_at(u) {
                Some(n) => self.blob_at(n) is Some,
                None => true,
            }
    }

    /// What retrieval owes for `user`: the bytes of the blob the user's
    /// pointer names; `AvatarNotFound` without a pointer, and
    /// `AvatarFileMissing` for a pointer whose blob is gone.
    pub open spec fn spec_retrieve(&self, user: Seq<char>) -> Result<Seq<u8>, RetrieveError> {
        match self.pointer_at(user) {
            None => Err(RetrieveError::AvatarNotFound),
            Some(n) => match self.blob_at(n) {
                None => Err(RetrieveError::AvatarFileMissing),
                Some(b) => Ok(b),
            },
        }
    }

    /// An empty store: no blobs, no pointers.
    pub fn new() -> (s: Self)
        ensures
            forall|n: Seq<char>| #[trigger] s.blob_at(n) is None,
            forall|u: Seq<char>| #[trigger] s.pointer_at(u) is None,
            s.spec_image_count() == 0,
            s.wf(),
    {
        AvatarStore { blobs: Vec::new(), pointers: Vec::new() }
    }

    /// How many stored blobs are images, by their extension.
    pub fn image_count(&self) -> (n: usize)
        ensures
            n == self.spec_image_count(),
    {
        let mut n: usize = 0;
        let len = self.blobs.len();
        let mut i: usize = 0;
        while i < len
            invariant
                i <= len,
                len == self.blobs@.len(),
                n == count_images(self.blobs@.take(i as int)),
            decreases len - i,
        {
            proof {
                lemma_count_le_len(self.blobs@.take(i as int));
                assert(self.blobs@.take(i + 1).drop_last() =~= self.blobs@.take(i as int));
                assert(self.blobs@.take(i + 1).last() == self.blobs@[i as int]);
            }
            if is_image_file(self.blobs[i].0.as_str()) {
                n = n + 1;
            }
            i = i + 1;
        }
        proof {
            assert(self.blobs@.take(len as int) =~= self.blobs@);
        }
        n
    }

    /// Stores the first file field of an upload for `user_id`: the field's
    /// bytes become a new immutable blob under a freshly drawn identifier
    /// with the extension taken from the filename, and the user's pointer
    /// moves to that blob. A body without a field, a field without a
    /// content disposition, and a field without a filename are each
    /// refused with their own error, and then nothing changes.
    ///
    /// On success the answer is status `success` with path
    /// `/avatars/<userId>`; retrieval for `user_id` then yields exactly
    /// the uploaded bytes, no other user's pointer moves, no other blob
    /// changes, the image count never drops, and pointer consistency is
    /// preserved.
    pub fn upload(&mut self, user_id: &str, field: Option<UploadField>) -> (r: Result<
        UploadResponse,
        UploadError,
    >)
        ensures
            match r {
                Ok(resp) => field matches Some(f) && f.name matches FieldName::Named(fname) && {
                    let ext = spec_extension_for(fname@);
                    &&& exists|id: Seq<char>|
                        #![auto]
                        spec_valid_blob_id(id) && spec_upload_step_named(
                            *old(self),
                            *final(self),
                            user_id@,
                            spec_blob_file_name(id, ext),
                            f.bytes@,
                        )
                    &&& resp.status@ == "success"@
                    &&& resp.path@ == spec_avatar_url(user_id@)
                    &&& final(self).spec_retrieve(user_id@) == Ok::<_, RetrieveError>(f.bytes@)
                    &&& spec_upload_step(*old(self), *final(self), user_id@, f.bytes@)
                    &&& final(self).spec_image_count() >= old(self).spec_image_count()
                    &&& final(self).spec_image_count() <= old(self).spec_image_count() + 1
                    &&& (old(self).wf() ==> final(self).wf())
                },
                Err(e) => {
                    &&& *final(self) == *old(self)
                    &&& (e == UploadError::NoUpload <==> field is None)
                    &&& (e == UploadError::NoContentDisposition <==> (field matches Some(f)
                        && f.name is NoDisposition))
                    &&& (e == UploadError::MissingFilename <==> (field matches Some(f)
                        && f.name is NoFilename))
                },
            },
    {
        match field {
            None => Err(UploadError::NoUpload),
            Some(f) => {
                match f.name {
                    FieldName::NoDisposition => Err(UploadError::NoContentDisposition),
                    FieldName::NoFilename => Err(UploadError::MissingFilename),
                    FieldName::Named(fname) => {
                        let ext = extension_for(fname.as_str());
                        let id = fresh_blob_id();
                        let name = blob_file_name(id.as_str(), ext.as_str());
                        let ghost gid = id@;
                        let ghost gname = name@;
                        let ghost gbytes = f.bytes@;
                        let ghost pre = *self;
                        let record = name.clone();
                        let user_key = user_id.to_owned();
                        self.blobs.push((name, f.bytes));
                        self.pointers.push((user_key, record));
                        proof {
                            assert(self.blobs@.drop_last() =~= pre.blobs@);
                            assert(self.pointers@.drop_last() =~= pre.pointers@);
                            assert(self.pointer_at(user_id@) == Some(gname));
                            assert(self.blob_at(gname) == Some(gbytes));
                            assert forall|n: Seq<char>| n != gname implies #[trigger] self.blob_at(
                                n,
                            ) == pre.blob_at(n) by {
                                assert(self.blobs@.last().0@ != n);
                            }
                            assert forall|u: Seq<char>| u != user_id@ implies #[trigger] self
                                .pointer_at(u) == pre.pointer_at(u) by {
                                assert(self.pointers@.last().0@ != u);
                            }
                            assert(self.spec_image_count() >= pre.spec_image_count());
                            assert(spec_upload_step_named(pre, *self, user_id@, gname, gbytes));
                            assert(gname == spec_blob_file_name(
                                gid,
                                spec_extension_for(fname@),
                            ));
                            assert(spec_valid_blob_id(gid));
                            assert(spec_upload_step(pre, *self, user_id@, gbytes));
                            lemma_count_le_len(pre.blobs@);
                            if pre.wf() {
                                assert forall|u: Seq<char>|
                                    match #[trigger] self.pointer_at(u) {
                                        Some(n) => self.blob_at(n) is Some,
                                        None => true,
                                    } by {
                                    if u != user_id@ {
                                        if self.pointer_at(u) is Some {
                                            let n = self.pointer_at(u)->0;
                                            assert(pre.blob_at(n) is Some);
                                            if n != self.blobs@.last().0@ {
                                                assert(self.blob_at(n) == pre.blob_at(n));
                                            }
                                        }
                                    }
                                }
                            }
                        }
                        Ok(success_response(user_id))
                    },
                }
            },
        }
    }

    /// Retrieves the bytes of the user's current avatar, or says why it
    /// cannot: no pointer record, or a pointer whose blob is gone.
    pub fn retrieve(&self, user_id: &str) -> (r: Result<&Vec<u8>, RetrieveError>)
        ensures
            match r {
                Ok(b) => self.spec_retrieve(user_id@) == Ok::<_, RetrieveError>(b@),
                Err(e) => self.spec_retrieve(user_id@) == Err::<Seq<u8>, _>(e),
            },
    {
        match self.find_pointer(user_id) {
            None => Err(RetrieveError::AvatarNotFound),
            Some(name) => {
                match self.find_blob_by_string(name) {
                    None => Err(RetrieveError::AvatarFileMissing),
                    Some(b) => Ok(b),
                }
            },
        }
    }

    /// The pointer record for `user_id`, if one exists.
    fn find_pointer(&self, user_id: &str) -> (r: Option<&String>)
        ensures
            match r {
                Some(name) => self.pointer_at(user_id@) == Some(name@),
                None => self.pointer_at(user_id@) is None,
            },
    {
        let len = self.pointers.len();
        let mut i: usize = len;
        proof {
            assert(self.pointers@.take(len as int) =~= self.pointers@);
        }
        while i > 0
            invariant
                i <= len,
                len == self.pointers@.len(),
                lookup_ptr(self.pointers@, user_id@) == lookup_ptr(
                    self.pointers@.take(i as int),
                    user_id@,
                ),
            decreases i,
        {
            proof {
                assert(self.pointers@.take(i as int).drop_last() =~= self.pointers@.take(i - 1));
                assert(self.pointers@.take(i as int).last() == self.pointers@[i - 1]);
            }
            if str_eq_str(self.pointers[i - 1].0.as_str(), user_id) {
                return Some(&self.pointers[i - 1].1);
            }
            i = i - 1;
        }
        None
    }

    /// The stored blob under file name `name`, if one exists.
    fn find_blob_by_string(&self, name: &String) -> (r: Option<&Vec<u8>>)
        ensures
            match r {
                Some(b) => self.blob_at(name@) == Some(b@),
                None => self.blob_at(name@) is None,
            },
    {
        let len = self.blobs.len();
        let mut i: usize = len;
        proof {
            assert(self.blobs@.take(len as int) =~= self.blobs@);
        }
        while i > 0
            invariant
                i <= len,
                len == self.blobs@.len(),
                lookup_blob(self.blobs@, name@) == lookup_blob(
                    self.blobs@.take(i as int),
                    name@,
                ),
            decreases i,
        {
            proof {
                assert(self.blobs@.take(i as int).drop_last() =~= self.blobs@.take(i - 1));
                assert(self.blobs@.take(i as int).last() == self.blobs@[i - 1]);
            }
            if str_eq_str(self.blobs[i - 1].0.as_str(), name.as_str()) {
                return Some(&self.blobs[i - 1].1);
            }
            i = i - 1;
        }
        None
    }
}

/// The retrieval decision over what the storage reported: no pointer
/// record means the avatar was never uploaded; a record naming an
/// absent blob is the distinct dangling-pointer failure; otherwise the
/// record names the blob to serve. This is the same three-way decision
/// `AvatarStore::retrieve` proves over the in-memory store, stated over
/// plain values so a caller holding only filesystem facts can take it.
pub fn resolve_retrieval(pointer_record: Option<String>, blob_present: bool) -> (r: Result<
    String,
    RetrieveError,
>)
    ensures
        match r {
            Ok(name) => pointer_record == Some(name) && blob_present,
            Err(e) => {
                &&& (e == RetrieveError::AvatarNotFound <==> pointer_record is None)
                &&& (e == RetrieveError::AvatarFileMissing <==> pointer_record is Some
                    && !blob_present)
            },
        },
{
    match pointer_record {
        None => Err(RetrieveError::AvatarNotFound),
        Some(name) => {
            if blob_present {
                Ok(name)
            } else {
                Err(RetrieveError::AvatarFileMissing)
            }
        },
    }
}

/// One successful upload for `user` with content `bytes`, seen as a
/// relation between the store before and the store after: some blob file
/// name now holds `bytes`, the user's pointer names it, and no other
/// pointer or blob changed.
pub open spec fn spec_upload_step(
    pre: AvatarStore,
    post: AvatarStore,
    user: Seq<char>,
    bytes: Seq<u8>,
) -> bool {
    exists|name: Seq<char>| #[trigger] spec_upload_step_named(pre, post, user, name, bytes)
}

/// As `spec_upload_step`, with the new blob's file name spelled out.
pub open spec fn spec_upload_step_named(
    pre: AvatarStore,
    post: AvatarStore,
    user: Seq<char>,
    name: Seq<char>,
    bytes: Seq<u8>,
) -> bool {
    &&& post.pointer_at(user) == Some(name)
    &&& post.blob_at(name) == Some(bytes)
    &&& forall|u: Seq<char>| u != user ==> #[trigger] post.pointer_at(u) == pre.pointer_at(u)
    &&& forall|n: Seq<char>| n != name ==> #[trigger] post.blob_at(n) == pre.blob_at(n)
    &&& post.spec_image_count() >= pre.spec_image_count()
}

/// Round trip and pointer currency: after a successful upload of `bytes`
/// for `user` — in particular after the last of any run of sequential
/// uploads for `user` — retrieval for `user` yields exactly `bytes`.
pub proof fn lemma_pointer_currency(
    pre: AvatarStore,
    post: AvatarStore,
    user: Seq<char>,
    bytes: Seq<u8>,
)
    requires
        spec_upload_step(pre, post, user, bytes),
    ensures
        post.spec_retrieve(user) == Ok::<_, RetrieveError>(bytes),
{
    let name = choose|name: Seq<char>| spec_upload_step_named(pre, post, user, name, bytes);
}

/// A run of sequential uploads for one user: `stores` walks from the
/// first state to the last, each step a successful upload of the next
/// element of `uploads`.
pub open spec fn spec_upload_trace(
    stores: Seq<AvatarStore>,
    user: Seq<char>,
    uploads: Seq<Seq<u8>>,
) -> bool {
    &&& stores.len() == uploads.len() + 1
    &&& forall|i: int|
        0 <= i < uploads.len() ==> #[trigger] spec_upload_step(
            stores[i],
            stores[i + 1],
            user,
            uploads[i],
        )
}

/// Pointer currency over a whole run: after N sequential successful
/// uploads for one user, retrieval returns the bytes of the Nth upload
/// only.
pub proof fn lemma_pointer_currency_trace(
    stores: Seq<AvatarStore>,
    user: Seq<char>,
    uploads: Seq<Seq<u8>>,
)
    requires
        spec_upload_trace(stores, user, uploads),
        uploads.len() > 0,
    ensures
        stores.last().spec_retrieve(user) == Ok::<_, RetrieveError>(uploads.last()),
{
    let n = uploads.len() as int;
    assert(spec_upload_step(stores[n - 1], stores[n - 1 + 1], user, uploads[n - 1]));
    lemma_pointer_currency(stores[n - 1], stores[n], user, uploads[n - 1]);
}

/// One successful upload, for whichever user and with whatever bytes,
/// seen as a relation between the store before and the store after.
pub open spec fn spec_some_upload_step(pre: AvatarStore, post: AvatarStore) -> bool {
    exists|user: Seq<char>, bytes: Seq<u8>| #[trigger] spec_upload_step(pre, post, user, bytes)
}

/// A run in which only uploads occur: `stores` walks from the first
/// state to the last, and each step is one successful upload.
pub open spec fn spec_uploads_only_run(stores: Seq<AvatarStore>) -> bool {
    forall|i: int|
        0 <= i < stores.len() - 1 ==> #[trigger] spec_some_upload_step(stores[i], stores[i + 1])
}

/// Stats monotonicity: within a run in which only uploads occur, the
/// count of stored images never decreases.
pub proof fn lemma_stats_monotone_run(stores: Seq<AvatarStore>)
    requires
        spec_uploads_only_run(stores),
        stores.len() >= 1,
    ensures
        stores.last().spec_image_count() >= stores.first().spec_image_count(),
    decreases stores.len(),
{
    if stores.len() >= 2 {
        let n = stores.len() as int;
        let pre_last = stores[n - 2];
        let last_store = stores[n - 1];
        assert(spec_some_upload_step(stores[n - 2], stores[n - 2 + 1]));
        let (user, bytes) = choose|user: Seq<char>, bytes: Seq<u8>|
            #[trigger] spec_upload_step(pre_last, last_store, user, bytes);
        let name = choose|name: Seq<char>|
            #[trigger] spec_upload_step_named(pre_last, last_store, user, name, bytes);
        assert(last_store.spec_image_count() >= pre_last.spec_image_count());
        let prefix = stores.drop_last();
        assert forall|i: int| 0 <= i < prefix.len() - 1 implies #[trigger] spec_some_upload_step(
            prefix[i],
            prefix[i + 1],
        ) by {
            assert(prefix[i] == stores[i]);
            assert(prefix[i + 1] == stores[i + 1]);
            assert(spec_some_upload_step(stores[i], stores[i + 1]));
        }
        lemma_stats_monotone_run(prefix);
        assert(prefix.last() == pre_last);
        assert(prefix.first() == stores.first());
    }
}

/// Pointer consistency rules out the dangling-pointer failure: in a
/// well-formed store a retrieval never reports a pointer whose blob is
/// missing.
pub proof fn lemma_wf_no_missing_file(s: AvatarStore, user: Seq<char>)
    requires
        s.wf(),
    ensures
        s.spec_retrieve(user) != Err::<Seq<u8>, _>(RetrieveError::AvatarFileMissing),
{
}

} // verus!
