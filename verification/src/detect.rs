use vstd::prelude::*;

use crate::kind::CompressionType;

verus! {

/// How many bytes the detector examines at the head of a stream. Every
/// signature in the table fits inside this window.
pub const DETECTION_WINDOW: usize = 6;

/// Zstandard frame magic: `28 B5 2F FD`.
pub open spec fn matches_zstd(s: Seq<u8>) -> bool {
    s.len() >= 4 && s[0] == 0x28 && s[1] == 0xb5 && s[2] == 0x2f && s[3] == 0xfd
}

/// Gzip member header: `1F 8B`.
pub open spec fn matches_gzip(s: Seq<u8>) -> bool {
    s.len() >= 2 && s[0] == 0x1f && s[1] == 0x8b
}

/// Zlib header with no compression preset: `78 01`, taken as raw deflate.
pub open spec fn matches_deflate(s: Seq<u8>) -> bool {
    s.len() >= 2 && s[0] == 0x78 && s[1] == 0x01
}

/// Zlib header with the default compression level: `78 9C`.
pub open spec fn matches_zlib(s: Seq<u8>) -> bool {
    s.len() >= 2 && s[0] == 0x78 && s[1] == 0x9c
}

/// Xz stream header, all six bytes fixed: `FD 37 7A 58 5A 00`.
pub open spec fn matches_xz(s: Seq<u8>) -> bool {
    s.len() >= 6 && s[0] == 0xfd && s[1] == 0x37 && s[2] == 0x7a && s[3] == 0x58 && s[4] == 0x5a
        && s[5] == 0x00
}

/// Bzip2 stream header: `42 5A 68` (ASCII `BZh`).
pub open spec fn matches_bzip(s: Seq<u8>) -> bool {
    s.len() >= 3 && s[0] == 0x42 && s[1] == 0x5a && s[2] == 0x68
}

/// The verdict of the detector on a window: the kind whose signature the
/// window carries, or `Uncompressed` when it carries none. A signature that needs
/// more bytes than the window holds cannot match, so a short read is never
/// an error, only a narrower table.
pub open spec fn detected_kind(s: Seq<u8>) -> CompressionType {
    if matches_zstd(s) {
        CompressionType::Zstd
    } else if matches_gzip(s) {
        CompressionType::Gzip
    } else if matches_deflate(s) {
        CompressionType::Deflate
    } else if matches_zlib(s) {
        CompressionType::Zlib
    } else if matches_xz(s) {
        CompressionType::Xz
    } else if matches_bzip(s) {
        CompressionType::Bzip
    } else {
        CompressionType::Uncompressed
    }
}

/// The part of a stream the detector looks at: the whole stream when it is
/// shorter than the window, its first `DETECTION_WINDOW` bytes otherwise.
pub open spec fn window_of(s: Seq<u8>) -> Seq<u8> {
    if s.len() <= DETECTION_WINDOW {
        s
    } else {
        s.take(DETECTION_WINDOW as int)
    }
}

/// Classifies a full detection window by its magic bytes.
pub fn detect_compression_type(buffer: &[u8; 6]) -> (kind: CompressionType)
    ensures
        kind == detected_kind(buffer@),
{
    detect_prefix(buffer.as_slice())
}

/// Classifies however many window bytes a short read produced. Positions
/// past the end of the slice match no signature.
pub fn detect_prefix(window: &[u8]) -> (kind: CompressionType)
    ensures
        kind == detected_kind(window@),
{
    let n = window.len();
    if n >= 4 && window[0] == 0x28 && window[1] == 0xb5 && window[2] == 0x2f && window[3] == 0xfd {
        CompressionType::Zstd
    } else if n >= 2 && window[0] == 0x1f && window[1] == 0x8b {
        CompressionType::Gzip
    } else if n >= 2 && window[0] == 0x78 && window[1] == 0x01 {
        CompressionType::Deflate
    } else if n >= 2 && window[0] == 0x78 && window[1] == 0x9c {
        CompressionType::Zlib
    } else if n >= 6 && window[0] == 0xfd && window[1] == 0x37 && window[2] == 0x7a
        && window[3] == 0x58 && window[4] == 0x5a && window[5] == 0x00 {
        CompressionType::Xz
    } else if n >= 3 && window[0] == 0x42 && window[1] == 0x5a && window[2] == 0x68 {
        CompressionType::Bzip
    } else {
        CompressionType::Uncompressed
    }
}

/// Detection correctness: a window that carries one of the six signatures
/// classifies as that signature's kind, whatever the bytes past the
/// signature hold, and a window that carries none of them classifies as
/// `Uncompressed`. The six signatures exclude one another, so the verdict is
/// unambiguous.
pub proof fn lemma_detection_correctness(s: Seq<u8>)
    ensures
        matches_zstd(s) ==> detected_kind(s) == CompressionType::Zstd,
        matches_gzip(s) ==> detected_kind(s) == CompressionType::Gzip,
        matches_deflate(s) ==> detected_kind(s) == CompressionType::Deflate,
        matches_zlib(s) ==> detected_kind(s) == CompressionType::Zlib,
        matches_xz(s) ==> detected_kind(s) == CompressionType::Xz,
        matches_bzip(s) ==> detected_kind(s) == CompressionType::Bzip,
        detected_kind(s) == CompressionType::Uncompressed <==> !matches_zstd(s) && !matches_gzip(s)
            && !matches_deflate(s) && !matches_zlib(s) && !matches_xz(s) && !matches_bzip(s),
{
}

/// Short-input safety: fewer than two bytes satisfy no signature, so such a
/// window always classifies as `Uncompressed`.
pub proof fn lemma_short_window_none(s: Seq<u8>)
    requires
        s.len() < 2,
    ensures
        detected_kind(s) == CompressionType::Uncompressed,
{
}

/// Only the window matters: detection on the first bytes and on the whole
/// stream give the same kind, since no signature reaches past the window.
pub proof fn lemma_window_determines_detection(s: Seq<u8>)
    ensures
        detected_kind(window_of(s)) == detected_kind(s),
{
    if s.len() > DETECTION_WINDOW {
        let w = s.take(DETECTION_WINDOW as int);
        assert(w.len() == DETECTION_WINDOW);
        assert(forall|i: int| 0 <= i < DETECTION_WINDOW ==> w[i] == s[i]);
    }
}

} // verus!
