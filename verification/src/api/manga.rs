//! The title (manga) responses: the chapter feed and the title record.

use vstd::prelude::*;

use crate::api::chapter::ChapterData;
use crate::uuid_value::UuidValue;

verus! {

/// A link from a title to another record.
#[derive(Debug, Clone)]
pub struct MangaRelationShip {}

/// One page of a title's chapter feed.
#[derive(Debug, Clone)]
pub struct MangaFeedResponse {
    pub result: String,
    pub response: String,
    pub limit: usize,
    pub offset: usize,
    pub total: usize,
    pub data: Vec<ChapterData>,
}

/// A title's own metadata.
#[derive(Debug, Clone)]
pub struct MangaAttributes {
    pub title: Option<String>,
    pub chapter: Option<String>,
    pub hash: String,
    pub data: Vec<String>,
    pub translated_language: String,
}

/// One title record.
#[derive(Debug, Clone)]
pub struct MangaData {
    pub id: UuidValue,
    pub data_type: String,
    pub attributes: MangaAttributes,
    pub relationships: Vec<MangaRelationShip>,
}

/// The whole response to a title lookup.
#[derive(Debug, Clone)]
pub struct MangaResponse {
    pub result: String,
    pub data: MangaData,
}

} // verus!
