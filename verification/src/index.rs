//! The index that holds one record for each image, as far as the library
//! has a say in it: its name, its key, and which fields it searches and
//! filters by.

use vstd::prelude::*;

verus! {

/// The name of the index.
pub const INDEX_UID: &'static str = "images";

/// The field of a record that is its key in the index.
pub const PRIMARY_KEY: &'static str = "id";

/// How the index is set up.
#[derive(Debug)]
pub struct IndexSchema {
    /// The name of the index.
    pub uid: String,
    /// The field that is the key of a record.
    pub primary_key: String,
    /// The fields that the full-text search reads.
    pub searchable: Vec<String>,
    /// The fields by which results can be filtered.
    pub filterable: Vec<String>,
}

/// A schema as mathematical values.
pub struct SchemaView {
    pub uid: Seq<char>,
    pub primary_key: Seq<char>,
    pub searchable: Seq<Seq<char>>,
    pub filterable: Seq<Seq<char>>,
}

impl View for IndexSchema {
    type V = SchemaView;

    open spec fn view(&self) -> SchemaView {
        SchemaView {
            uid: self.uid@,
            primary_key: self.primary_key@,
            searchable: self.searchable.deep_view(),
            filterable: self.filterable.deep_view(),
        }
    }
}

/// The schema of the index of images: records are keyed by `id`, searched
/// by name, description, text and tags, and filtered by tags and status.
pub open spec fn images_schema_view() -> SchemaView {
    SchemaView {
        uid: INDEX_UID@,
        primary_key: PRIMARY_KEY@,
        searchable: seq!["name"@, "description"@, "text"@, "tags"@],
        filterable: seq!["tags"@, "status"@],
    }
}

/// What was found when the index was looked up at startup.
#[derive(Clone, Copy, Debug, PartialEq, Eq, Structural)]
pub enum IndexLookup {
    /// The index is there.
    Found,
    /// The service answered that it has no such index.
    Missing,
    /// The service failed in another way or could not be reached.
    Failed,
}

/// Builds the schema of the index of images.
pub fn images_schema() -> (schema: IndexSchema)
    ensures
        schema@ == images_schema_view(),
{
    let mut searchable: Vec<String> = Vec::new();
    searchable.push("name".to_owned());
    searchable.push("description".to_owned());
    searchable.push("text".to_owned());
    searchable.push("tags".to_owned());
    let mut filterable: Vec<String> = Vec::new();
    filterable.push("tags".to_owned());
    filterable.push("status".to_owned());
    let schema = IndexSchema {
        uid: INDEX_UID.to_owned(),
        primary_key: PRIMARY_KEY.to_owned(),
        searchable,
        filterable,
    };
    assert(schema.searchable.deep_view() =~= images_schema_view().searchable);
    assert(schema.filterable.deep_view() =~= images_schema_view().filterable);
    schema
}

} // verus!
