//! The record of a stored file.

use vstd::prelude::*;
use vstd::string::*;

verus! {

/// A struct that holds the data for a single file: where its chunks are.
#[derive(Debug)]
pub struct FileId {
    asset_ids: Vec<u32>,
    repo: String,
}

/// The view of a [`FileId`].
#[verifier::ext_equal]
pub struct FileIdView {
    /// The numbers of the chunks, in their order.
    pub asset_ids: Seq<u32>,
    /// The repository that holds them.
    pub repo: Seq<char>,
}

impl View for FileId {
    type V = FileIdView;

    closed spec fn view(&self) -> FileIdView {
        FileIdView { asset_ids: self.asset_ids@, repo: self.repo@ }
    }
}

impl Clone for FileId {
    fn clone(&self) -> (copy: Self)
        ensures
            copy@ == self@,
    {
        let copy = FileId { asset_ids: self.asset_ids.clone(), repo: self.repo.clone() };
        assert(copy.asset_ids@ =~= self.asset_ids@);
        copy
    }
}

impl FileId {
    /// Creates a new [`FileId`] from raw `asset_ids` and a `repo`.
    ///
    /// This usually isn't used, instead use [`FileId::upload`].
    pub fn from_raw(asset_ids: Vec<u32>, repo: String) -> (file_id: Self)
        ensures
            file_id@ == (FileIdView { asset_ids: asset_ids@, repo: repo@ }),
    {
        Self { asset_ids, repo }
    }

    /// The numbers of the chunks, in their order.
    pub fn asset_ids(&self) -> (asset_ids: &Vec<u32>)
        ensures
            asset_ids@ == self@.asset_ids,
    {
        &self.asset_ids
    }

    /// The repository that holds the chunks.
    pub fn repo(&self) -> (repo: &str)
        ensures
            repo@ == self@.repo,
    {
        self.repo.as_str()
    }
}

} // verus!
