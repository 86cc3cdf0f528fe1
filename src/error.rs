use vstd::prelude::*;

verus! {

/// Why an asset could not be loaded.
#[derive(Debug, Clone, Copy, PartialEq, Eq, Structural)]
pub enum LoadError {
    /// The named asset does not exist.
    NotFound,
    /// Reading the asset failed.
    IoError,
    /// The transport failed or the server answered with a non-success status.
    NetworkError,
    /// The OBJ, MTL or glTF text is malformed.
    ParseError,
    /// A glTF primitive has no indices accessor.
    MissingIndices,
    /// A mesh lacks a vertex attribute that it must have.
    MissingAttribute,
    /// The asset contradicts itself (references out of range, unequal counts).
    MalformedAsset,
    /// The asset uses a feature outside what this loader reads.
    UnsupportedFormat,
    /// A fetched buffer is shorter than the view that slices it.
    BufferSliceError,
    /// Decoding a texture or creating its binding failed.
    MaterialBuildError,
    /// Attribute streams of one mesh describe different vertex counts.
    AttributeLengthMismatch,
}

/// The description of each error.
pub open spec fn message_of(e: LoadError) -> Seq<char> {
    match e {
        LoadError::NotFound => "asset not found"@,
        LoadError::IoError => "failed to read asset"@,
        LoadError::NetworkError => "failed to fetch asset"@,
        LoadError::ParseError => "malformed asset text"@,
        LoadError::MissingIndices => "primitive has no indices"@,
        LoadError::MissingAttribute => "mesh lacks a required attribute"@,
        LoadError::MalformedAsset => "asset is internally inconsistent"@,
        LoadError::UnsupportedFormat => "unsupported asset format"@,
        LoadError::BufferSliceError => "buffer shorter than its view"@,
        LoadError::MaterialBuildError => "failed to build material"@,
        LoadError::AttributeLengthMismatch => "attribute lengths differ"@,
    }
}

impl LoadError {
    /// A short human-readable description of the error.
    pub fn message(&self) -> (r: &'static str)
        ensures
            r@ == message_of(*self),
    {
        match self {
            LoadError::NotFound => "asset not found",
            LoadError::IoError => "failed to read asset",
            LoadError::NetworkError => "failed to fetch asset",
            LoadError::ParseError => "malformed asset text",
            LoadError::MissingIndices => "primitive has no indices",
            LoadError::MissingAttribute => "mesh lacks a required attribute",
            LoadError::MalformedAsset => "asset is internally inconsistent",
            LoadError::UnsupportedFormat => "unsupported asset format",
            LoadError::BufferSliceError => "buffer shorter than its view",
            LoadError::MaterialBuildError => "failed to build material",
            LoadError::AttributeLengthMismatch => "attribute lengths differ",
        }
    }
}

} // verus!
