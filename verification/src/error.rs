use vstd::prelude::*;

verus! {

/// The error kinds this library reports.
///
/// - `QueryFailed`: a native info/geometry/DPI query returned an error.
/// - `NotFound`: no surface matches the requested point or handle.
/// - `CaptureFailed`: the native capture primitive produced no image.
/// - `DecodeFailed`: raw buffer geometry is inconsistent with its declared
///   length.
/// - `ResourceAcquisitionFailed`: a required native drawing resource could
///   not be created.
#[derive(Debug, Clone, Copy, PartialEq, Eq, Structural)]
pub enum XCapError {
    QueryFailed,
    NotFound,
    CaptureFailed,
    DecodeFailed,
    ResourceAcquisitionFailed,
}

impl XCapError {
    /// A short human-readable description of the error.
    pub fn message(&self) -> (r: &'static str)
        ensures
            r@.len() > 0,
    {
        proof {
            reveal_strlit("native query failed");
            reveal_strlit("not found");
            reveal_strlit("capture failed");
            reveal_strlit("decode failed");
            reveal_strlit("resource acquisition failed");
        }
        match self {
            XCapError::QueryFailed => "native query failed",
            XCapError::NotFound => "not found",
            XCapError::CaptureFailed => "capture failed",
            XCapError::DecodeFailed => "decode failed",
            XCapError::ResourceAcquisitionFailed => "resource acquisition failed",
        }
    }
}

} // verus!
