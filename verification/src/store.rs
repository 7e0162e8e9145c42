//! An in-memory object store with put-object semantics: every write creates
//! or silently overwrites the object under its key.
//!
//! The store is the substitutable stand-in for the remote backend that the
//! gateway's design calls for: the upload pipeline can be exercised against
//! it end to end, and its view — a map from keys to objects — is exactly the
//! model the pipeline's contracts speak of.

use vstd::prelude::*;
use crate::response::ResponseMessage;
use crate::upload::{MultipartField, UploadPlan, UploadRequest};

verus! {

/// One stored object: its content type and its bytes.
pub struct StoredObject {
    pub content_type: String,
    pub payload: Vec<u8>,
}

/// The mathematical image of a stored object.
pub struct ObjectView {
    pub content_type: Seq<char>,
    pub payload: Seq<u8>,
}

impl StoredObject {
    /// What this object is, mathematically.
    pub open spec fn view(&self) -> ObjectView {
        ObjectView { content_type: self.content_type@, payload: self.payload@ }
    }
}

/// One write that reached the store: a key and the object put under it.
pub struct StoredEntry {
    pub key: String,
    pub object: StoredObject,
}

/// The map described by a sequence of writes, later writes winning.
pub open spec fn entries_map(s: Seq<StoredEntry>) -> Map<Seq<char>, ObjectView>
    decreases s.len(),
{
    if s.len() == 0 {
        Map::empty()
    } else {
        entries_map(s.drop_last()).insert(s.last().key@, s.last().object.view())
    }
}

/// An in-memory object store. Writes append to a log; the store's value is
/// the map the log describes, under which a second write to a key silently
/// replaces the first.
pub struct MemoryStore {
    entries: Vec<StoredEntry>,
}

impl MemoryStore {
    /// What this store holds, mathematically: the object under each key.
    pub closed spec fn view(&self) -> Map<Seq<char>, ObjectView> {
        entries_map(self.entries@)
    }

    /// An empty store.
    pub fn new() -> (s: MemoryStore)
        ensures
            s@ == Map::<Seq<char>, ObjectView>::empty(),
    {
        MemoryStore { entries: Vec::new() }
    }

    /// Performs one put-object call: the request's payload and content type
    /// are stored under its key, creating the object or silently
    /// overwriting whatever the key held. Never fails.
    pub fn put(&mut self, request: UploadRequest) -> (r: Result<(), crate::upload::StorageError>)
        ensures
            r is Ok,
            final(self)@ == old(self)@.insert(
                request.key@,
                ObjectView { content_type: request.content_type@, payload: request.payload@ },
            ),
    {
        let entry = StoredEntry {
            key: request.key,
            object: StoredObject {
                content_type: request.content_type,
                payload: request.payload,
            },
        };
        self.entries.push(entry);
        proof {
            assert(self.entries@.drop_last() =~= old(self).entries@);
        }
        Ok(())
    }

    /// Looks an object up by its key: the object the store holds there, or
    /// nothing exactly when the store holds no object under the key.
    pub fn get(&self, key: &String) -> (r: Option<&StoredObject>)
        ensures
            r matches Some(o) ==> self@.contains_key(key@) && self@[key@] == o.view(),
            r is None ==> !self@.contains_key(key@),
    {
        let mut i: usize = self.entries.len();
        proof {
            assert(self.entries@.take(i as int) =~= self.entries@);
        }
        while i > 0
            invariant
                i <= self.entries@.len(),
                entries_map(self.entries@).contains_key(key@) == entries_map(
                    self.entries@.take(i as int),
                ).contains_key(key@),
                entries_map(self.entries@).contains_key(key@) ==> entries_map(
                    self.entries@,
                )[key@] == entries_map(self.entries@.take(i as int))[key@],
            decreases i,
        {
            i = i - 1;
            proof {
                assert(self.entries@.take(i + 1).drop_last() == self.entries@.take(i as int));
                assert(self.entries@.take(i + 1).last() == self.entries@[i as int]);
            }
            let entry: &StoredEntry = &self.entries[i];
            if entry.key == *key {
                return Some(&entry.object);
            }
        }
        proof {
            assert(self.entries@.take(0) =~= Seq::<StoredEntry>::empty());
        }
        None
    }

}

/// The request is one the gateway accepts: the bucket is configured and the
/// first field is usable.
pub open spec fn upload_accepted(
    bucket_name: Option<String>,
    first_field: Option<MultipartField>,
) -> bool {
    crate::config::value_present(bucket_name) && match first_field {
        Some(f) => crate::upload::field_usable(f),
        None => false,
    }
}

/// The object that an accepted request stores: the field's own content type
/// and bytes.
pub open spec fn uploaded_object(first_field: Option<MultipartField>) -> ObjectView {
    ObjectView {
        content_type: first_field.unwrap().content_type.unwrap()@,
        payload: first_field.unwrap().data@,
    }
}

/// Handles one upload request end to end against an in-memory store:
/// decides the plan for the request, performs the put-object call exactly
/// when the plan issues one, and answers with the response the outcome
/// owes.
///
/// A usable first field is stored under its own file name with its own
/// content type and bytes, byte for byte, and answered with 201; every
/// request that is answered 400 or 500 leaves the store untouched.
pub fn handle_upload(
    store: &mut MemoryStore,
    bucket_name: Option<String>,
    first_field: Option<MultipartField>,
) -> (r: ResponseMessage)
    ensures
        upload_accepted(bucket_name, first_field) ==> r.status == 201 && r.message@
            == "File uploaded successfully"@ && final(store)@ == old(store)@.insert(
            first_field.unwrap().file_name.unwrap()@,
            uploaded_object(first_field),
        ),
        !crate::config::value_present(bucket_name) ==> r.status == 500 && r.message@
            == "Failed to upload file"@ && final(store)@ == old(store)@,
        crate::config::value_present(bucket_name) && !upload_accepted(bucket_name, first_field)
            ==> r.status == 400 && r.message@ == "No file found"@ && final(store)@ == old(store)@,
{
    match crate::upload::plan_upload(bucket_name, first_field) {
        UploadPlan::Store(request) => {
            let outcome = store.put(request);
            crate::upload::upload_response(outcome)
        },
        UploadPlan::Respond(message) => message,
    }
}

/// Law: overwrite on key collision. Storing twice under the same key in
/// sequence leaves the store exactly as a single write of the second object
/// would — the second write silently replaces the first, with no conflict.
pub proof fn lemma_same_key_overwrites(
    m: Map<Seq<char>, ObjectView>,
    key: Seq<char>,
    first: ObjectView,
    second: ObjectView,
)
    ensures
        m.insert(key, first).insert(key, second) =~= m.insert(key, second),
        m.insert(key, first).insert(key, second)[key] == second,
{
}

/// Law: independence of distinct keys. After storing two objects under
/// distinct keys, in either order of the two writes, each key holds exactly
/// its own object — neither upload contaminates the other's key, content
/// type or bytes.
pub proof fn lemma_distinct_keys_independent(
    m: Map<Seq<char>, ObjectView>,
    key1: Seq<char>,
    object1: ObjectView,
    key2: Seq<char>,
    object2: ObjectView,
)
    requires
        key1 != key2,
    ensures
        m.insert(key1, object1).insert(key2, object2)[key1] == object1,
        m.insert(key1, object1).insert(key2, object2)[key2] == object2,
        m.insert(key2, object2).insert(key1, object1)[key1] == object1,
        m.insert(key2, object2).insert(key1, object1)[key2] == object2,
{
}

} // verus!
