//! Compressing the tar archive of a bundle into the gzip stream that is
//! uploaded. The compression itself is flate2's; this module fixes how it is
//! driven (default level, default header, one write of the whole archive).

use flate2::write::GzEncoder;
use std::io::Write;
use vstd::prelude::*;

verus! {

#[verifier::external_type_specification]
#[verifier::external_body]
pub struct ExIoError(std::io::Error);

/// A flate2 gzip encoder that writes into a byte vector, held opaquely and
/// described by [`gzip_input`].
#[verifier::external_body]
pub struct GzipWriter {
    encoder: GzEncoder<Vec<u8>>,
}

/// The bytes written so far into a gzip writer.
pub uninterp spec fn gzip_input(writer: GzipWriter) -> Seq<u8>;

/// The complete gzip stream that flate2 produces for `data` at the default
/// compression level with the default header.
pub uninterp spec fn gzip_stream(data: Seq<u8>) -> Seq<u8>;

/// The ten-byte header that flate2 writes with a default header at the
/// default level: magic `1f 8b`, method deflate, no flags, no mtime, no
/// extra flags, operating system 255 (unknown).
pub open spec fn default_gzip_header() -> Seq<u8> {
    seq![0x1fu8, 0x8bu8, 8u8, 0u8, 0u8, 0u8, 0u8, 0u8, 0u8, 255u8]
}

/// Calls `flate2::write::GzEncoder::new` over an empty `Vec<u8>` at
/// `flate2::Compression::default()`. Claimed: nothing has been written into
/// the new encoder.
#[verifier::external_body]
fn gz_encoder_new() -> (writer: GzipWriter)
    ensures
        gzip_input(writer) == Seq::<u8>::empty(),
{
    GzipWriter { encoder: GzEncoder::new(Vec::new(), flate2::Compression::default()) }
}

/// Calls `std::io::Write::write_all` on a flate2 gzip encoder over a byte
/// vector. Claimed: it returns `Ok`, and all of `data` has then been written,
/// after what was written before. It cannot fail: writes into a `Vec` never
/// fail, and the deflate compressor fails only on bad parameters or a failing
/// output callback, neither of which arises here.
#[verifier::external_body]
fn gz_write_all(writer: &mut GzipWriter, data: &[u8]) -> (res: Result<(), std::io::Error>)
    ensures
        res is Ok,
        gzip_input(*final(writer)) == gzip_input(*old(writer)) + data@,
{
    writer.encoder.write_all(data)
}

/// Calls `flate2::write::GzEncoder::finish` on an encoder over a byte
/// vector. Claimed: it returns `Ok` (for the reasons given at
/// [`gz_write_all`]), and the bytes are the gzip stream of everything
/// written into the encoder, which begins with the default ten-byte header
/// and is at least 18 bytes long (header and the eight-byte CRC/length
/// trailer).
#[verifier::external_body]
fn gz_finish(writer: GzipWriter) -> (res: Result<Vec<u8>, std::io::Error>)
    ensures
        res is Ok,
        res matches Ok(v) ==> {
            &&& v@ == gzip_stream(gzip_input(writer))
            &&& v@.len() >= 18
            &&& v@.subrange(0, 10) == default_gzip_header()
        },
{
    writer.encoder.finish()
}

/// Compresses the tar archive `tar` into the gzip stream that is uploaded:
/// flate2's default gzip stream of `tar`.
pub fn gzip_bundle(tar: &[u8]) -> (res: Vec<u8>)
    ensures
        res@ == gzip_stream(tar@),
        res@.len() >= 18,
        res@.subrange(0, 10) == default_gzip_header(),
{
    let mut writer = gz_encoder_new();
    let written = gz_write_all(&mut writer, tar);
    assert(written is Ok);
    assert(gzip_input(writer) =~= tar@);
    gz_finish(writer).unwrap()
}

} // verus!
