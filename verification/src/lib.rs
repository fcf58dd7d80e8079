//! A safe, verified marshaling boundary for a content-extraction engine.
//!
//! The engine enumerates content sources, searches them, and fetches
//! chapter and page listings; this crate owns the boundary that hands
//! the engine's variable-length records to a foreign caller as flat
//! `{length, data}` arrays of null-terminated text buffers, together
//! with the paired release protocol, opaque handles for the stateful
//! objects, and a last-error channel.

pub mod calls;
pub mod error;
pub mod flat;
pub mod models;
pub mod pages;
pub mod registry;
pub mod release;
pub mod structs;
pub mod text;

pub use calls::chapters;
pub use calls::index;
pub use calls::search;
pub use error::BoundaryError;
pub use flat::CArray;
pub use models::ChapterModel;
pub use models::ComicModel;
pub use models::SourceModel;
pub use models::TagModel;
pub use pages::CreatedPageIter;
pub use pages::PageEvent;
pub use pages::PageIterModel;
pub use pages::create_chapter_ptr;
pub use pages::create_page_iter;
pub use pages::free_created_page_iter;
pub use pages::next_page;
pub use registry::ExtractorHandle;
pub use registry::Registry;
pub use release::free_chapter_array;
pub use release::free_comic;
pub use release::free_comic_array;
pub use release::free_headers;
pub use release::free_platform_array;
pub use release::free_tag_array;
pub use structs::Chapter;
pub use structs::Comic;
pub use structs::KV;
pub use structs::Platform;
pub use structs::Tag;
pub use structs::chapter_array_from_models;
pub use structs::comic_array_from_models;
pub use structs::create_headers_ptr;
pub use structs::create_tags_ptr;
pub use structs::platform_array_from_models;
pub use error::ErrorChannel;
pub use text::TextBuf;
pub use text::free_string;
pub use text::marshal_text;
pub use text::unmarshal_text;
pub use text::validate_text;
