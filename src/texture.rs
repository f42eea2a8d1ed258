use vstd::prelude::*;
use vstd::string::StringExecFns;

verus! {

/// Why a texture could not be loaded from a file.
#[derive(Debug, PartialEq, Eq)]
pub enum LoadTextureError {
    /// The file could not be read or decoded.
    LoadError(String),
    /// The decoded image could not become a texture.
    ValueError(String),
}

impl LoadTextureError {
    /// The error as a sentence for people.
    pub fn message(&self) -> (r: String)
        ensures
            r@ == (match self {
                LoadTextureError::LoadError(s) => "Error loading texture: "@ + s@,
                LoadTextureError::ValueError(e) => "Value error: "@ + e@,
            }),
    {
        match self {
            LoadTextureError::LoadError(s) => String::from_str("Error loading texture: ").concat(
                s.as_str(),
            ),
            LoadTextureError::ValueError(e) => String::from_str("Value error: ").concat(e.as_str()),
        }
    }
}

} // verus!
