//! Typed groups of metadata, as ExifTool prints them with `-g2`.

use vstd::prelude::*;

verus! {

/// The file group.
#[derive(Debug, Clone)]
pub struct FileInfo {
    pub file_name: String,
    pub file_size: String,
    pub mime_type: String,
    pub modify_date: Option<String>,
    pub access_date: Option<String>,
    pub create_date: Option<String>,
}

/// The IPTC group.
#[derive(Debug, Clone)]
pub struct IptcInfo {
    pub object_name: Option<String>,
    pub keywords: Option<Vec<String>>,
    pub caption: Option<String>,
    pub by_line: Option<String>,
    pub copyright: Option<String>,
    pub city: Option<String>,
    pub state: Option<String>,
    pub country: Option<String>,
}

/// The XMP group.
#[derive(Debug, Clone)]
pub struct XmpInfo {
    pub create_date: Option<String>,
    pub modify_date: Option<String>,
    pub metadata_date: Option<String>,
    pub creator_tool: Option<String>,
    pub rating: Option<i32>,
    pub label: Option<String>,
}

} // verus!
