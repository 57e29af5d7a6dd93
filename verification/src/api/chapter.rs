//! The chapter lookup response.

use vstd::prelude::*;

use crate::uuid_value::UuidValue;

verus! {

/// A chapter's own metadata.
#[derive(Debug, Clone)]
pub struct ChapterAttributes {
    pub title: Option<String>,
    pub chapter: Option<String>,
    pub pages: usize,
    pub translated_language: String,
}

/// One chapter record.
#[derive(Debug, Clone)]
pub struct ChapterData {
    pub id: UuidValue,
    pub data_type: String,
    pub attributes: ChapterAttributes,
    pub relationships: Vec<ChapterRelationShip>,
}

/// A link from a chapter to another record.
#[derive(Debug, Clone)]
pub struct ChapterRelationShip {
    pub id: String,
    pub relationship_type: String,
}

/// The whole response to a chapter lookup.
#[derive(Debug, Clone)]
pub struct ChapterResponse {
    pub result: String,
    pub response: String,
    pub data: ChapterData,
}

} // verus!
