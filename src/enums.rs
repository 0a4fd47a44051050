use vstd::prelude::*;

verus! {

/// Compression formats that the engine can be asked to encode with.
#[derive(Debug, Clone, Copy, PartialEq, Eq, Structural)]
pub enum CompressionFormat {
    Undefined,
    Hevc,
    Avc,
    Jpeg,
    Av1,
    Vvc,
    Evc,
    Jpeg2000,
    Uncompressed,
    Mask,
    Htj2k,
}

/// The engine's numeric code for each format.
pub open spec fn format_code(f: CompressionFormat) -> u32 {
    match f {
        CompressionFormat::Undefined => 0,
        CompressionFormat::Hevc => 1,
        CompressionFormat::Avc => 2,
        CompressionFormat::Jpeg => 3,
        CompressionFormat::Av1 => 4,
        CompressionFormat::Vvc => 5,
        CompressionFormat::Evc => 6,
        CompressionFormat::Jpeg2000 => 7,
        CompressionFormat::Uncompressed => 8,
        CompressionFormat::Mask => 9,
        CompressionFormat::Htj2k => 10,
    }
}

impl CompressionFormat {
    /// The engine's numeric code for this format.
    pub fn native_code(self) -> (r: u32)
        ensures
            r == format_code(self),
    {
        match self {
            CompressionFormat::Undefined => 0,
            CompressionFormat::Hevc => 1,
            CompressionFormat::Avc => 2,
            CompressionFormat::Jpeg => 3,
            CompressionFormat::Av1 => 4,
            CompressionFormat::Vvc => 5,
            CompressionFormat::Evc => 6,
            CompressionFormat::Jpeg2000 => 7,
            CompressionFormat::Uncompressed => 8,
            CompressionFormat::Mask => 9,
            CompressionFormat::Htj2k => 10,
        }
    }
}

} // verus!
