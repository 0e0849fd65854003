//! Records shared between the catalog and the editor.

use vstd::prelude::*;

verus! {

/// One image of the library.
#[derive(Debug, Clone, PartialEq)]
pub struct Image {
    /// Identifier in the catalog.
    pub id: i64,
    /// File name only, such as `DSC_0001.NEF`.
    pub filename: String,
    /// Full path of the RAW file.
    pub path: String,
    /// Path of the 256-pixel thumbnail, once it is generated.
    pub cache_path_thumb: Option<String>,
    /// Path of the 384-pixel instant preview, once it is generated.
    pub cache_path_instant: Option<String>,
    /// Path of the 1280-pixel working preview, once it is generated.
    pub cache_path_working: Option<String>,
    /// `exists` or `deleted`.
    pub file_status: String,
}

} // verus!
