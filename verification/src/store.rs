//! The content-addressed blob store.
//!
//! A blob's destination path is a pure function of its digest: two one-byte
//! hex shard directories, then the full hex digest as the filename.  `put`
//! computes the descriptor for a buffered upload (digest, size, destination
//! path, media data), taking the outcome of the opaque transform capability
//! as an argument; the application performs the actual scratch-file write
//! and the copy to the destination.

use vstd::prelude::*;
use crate::hashing::{hash_chunks, sha256_of};
use crate::hexcodec::{hex_encode, hex_of, lemma_hex_of_ascii, lemma_hex_of_len};
use crate::settings::Settings;

verus! {

/// Descriptor of a stored blob.
#[derive(Clone)]
pub struct FileSystemResult {
    pub path: String,
    pub sha256: Vec<u8>,
    pub size: u64,
    pub mime_type: String,
    pub width: Option<usize>,
    pub height: Option<usize>,
    pub blur_hash: Option<String>,
}

/// What the opaque transform capability did with a scratch file.
pub enum TransformResult {
    /// The file was left as it was.
    Unchanged,
    /// The file was replaced; the new content and its media data.
    Replaced {
        content: Vec<u8>,
        mime_type: String,
        width: usize,
        height: usize,
        blur_hash: String,
    },
}

/// The destination path for a digest under a storage root: the first hex
/// byte is the first directory, the second hex byte the second, and the
/// full hex digest is the filename.
pub open spec fn shard_path(root: Seq<char>, id: Seq<u8>) -> Seq<char>
    recommends
        id.len() >= 2,
{
    root + seq!['/'] + hex_of(id).subrange(0, 2) + seq!['/'] + hex_of(id).subrange(2, 4)
        + seq!['/'] + hex_of(id)
}

/// The store owns the file tree under one root directory.
pub struct FileStore {
    pub path: String,
}

impl FileStore {
    pub fn new(settings: Settings) -> (s: Self)
        ensures
            s.path == settings.storage_dir,
    {
        Self { path: settings.storage_dir }
    }

    /// Get a file path by id.  A pure mapping: no existence check.
    pub fn get(&self, id: &Vec<u8>) -> (r: String)
        requires
            id@.len() >= 2,
        ensures
            r@ == shard_path(self.path@, id@),
    {
        self.map_path(id)
    }

    fn map_path(&self, id: &Vec<u8>) -> (r: String)
        requires
            id@.len() >= 2,
        ensures
            r@ == shard_path(self.path@, id@),
    {
        let hexid = hex_encode(id.as_slice());
        proof {
            lemma_hex_of_len(id@);
            lemma_hex_of_ascii(id@);
            reveal_strlit("/");
        }
        let hs = hexid.as_str();
        let mut r = self.path.clone();
        r.append("/");
        r.append(hs.substring_ascii(0, 2));
        r.append("/");
        r.append(hs.substring_ascii(2, 4));
        r.append("/");
        r.append(hs);
        proof {
            assert("/"@ =~= seq!['/']);
            assert(r@ =~= shard_path(self.path@, id@));
        }
        r
    }

    /// Compute the descriptor for a new upload: digest and size of the
    /// final content (post-transform when the transform replaced it),
    /// destination path derived from the digest, and the media data the
    /// transform reported.
    pub fn put(&self, content: &Vec<u8>, mime_type: &str, transform: TransformResult) -> (r:
        FileSystemResult)
        ensures
            transform is Unchanged ==> {
                &&& r.sha256@ == sha256_of(content@)
                &&& r.size == content@.len()
                &&& r.mime_type@ == mime_type@
                &&& r.width is None
                &&& r.height is None
                &&& r.blur_hash is None
                &&& r.path@ == shard_path(self.path@, sha256_of(content@))
            },
            transform matches TransformResult::Replaced {
                content: c,
                mime_type: m,
                width: w,
                height: h,
                blur_hash: bh,
            } ==> {
                &&& r.sha256@ == sha256_of(c@)
                &&& r.size == c@.len()
                &&& r.mime_type == m
                &&& r.width == Some(w)
                &&& r.height == Some(h)
                &&& r.blur_hash == Some(bh)
                &&& r.path@ == shard_path(self.path@, sha256_of(c@))
            },
    {
        match transform {
            TransformResult::Unchanged => {
                let sha = hash_chunks(content);
                let path = self.map_path(&sha);
                FileSystemResult {
                    path,
                    sha256: sha,
                    size: content.len() as u64,
                    mime_type: mime_type.to_owned(),
                    width: None,
                    height: None,
                    blur_hash: None,
                }
            },
            TransformResult::Replaced { content: c, mime_type: m, width: w, height: h, blur_hash: bh } => {
                let sha = hash_chunks(&c);
                let path = self.map_path(&sha);
                FileSystemResult {
                    path,
                    sha256: sha,
                    size: c.len() as u64,
                    mime_type: m,
                    width: Some(w),
                    height: Some(h),
                    blur_hash: Some(bh),
                }
            },
        }
    }
}

/// The disk after committing content `b` under root `root`: the shard path
/// of its digest maps to exactly those bytes.
pub open spec fn store_effect(disk: Map<Seq<char>, Seq<u8>>, root: Seq<char>, b: Seq<u8>) -> Map<
    Seq<char>,
    Seq<u8>,
> {
    disk.insert(shard_path(root, sha256_of(b)), b)
}

/// Storing the same content twice is a no-op: both stores resolve to the
/// identical destination path, and after either one the destination holds
/// exactly the stored bytes.
pub proof fn lemma_store_idempotent(disk: Map<Seq<char>, Seq<u8>>, root: Seq<char>, b: Seq<u8>)
    ensures
        store_effect(store_effect(disk, root, b), root, b) == store_effect(disk, root, b),
        store_effect(disk, root, b)[shard_path(root, sha256_of(b))] == b,
{
    assert(store_effect(store_effect(disk, root, b), root, b) =~= store_effect(disk, root, b));
}

} // verus!
