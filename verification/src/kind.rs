use vstd::prelude::*;

verus! {

/// The closed set of stream encodings the transcoder understands.
///
/// `Uncompressed` stands for a plain stream, and is also the verdict for a
/// stream whose prefix matches no known signature. The derived ordering
/// carries no meaning beyond allowing values to be compared and sorted.
#[derive(Debug, Clone, PartialEq, Eq, PartialOrd, Ord, Copy, Structural)]
pub enum CompressionType {
    Bzip,
    Deflate,
    Gzip,
    Xz,
    Zlib,
    Zstd,
    Uncompressed,
}

} // verus!
