//! Records that data backends hand out.

use vstd::prelude::*;

verus! {

/// A named folder of images.
#[derive(Debug)]
pub struct Collection {
    pub folder: String,
    pub name: String,
}

impl Clone for Collection {
    fn clone(&self) -> (r: Self)
        ensures
            r == *self,
    {
        Collection { folder: self.folder.clone(), name: self.name.clone() }
    }
}

/// An image known to a backend.
#[derive(Debug)]
pub struct Image {
    pub path: String,
    pub collection: String,
    pub size: (u32, u32),
    pub tags: Vec<String>,
    pub description: String,
}

impl Clone for Image {
    fn clone(&self) -> (r: Self)
        ensures
            r.path == self.path,
            r.collection == self.collection,
            r.size == self.size,
            r.tags@ == self.tags@,
            r.description == self.description,
    {
        let tags = self.tags.clone();
        assert(tags@ =~= self.tags@);
        Image {
            path: self.path.clone(),
            collection: self.collection.clone(),
            size: self.size,
            tags,
            description: self.description.clone(),
        }
    }
}

} // verus!
