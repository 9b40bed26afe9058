//! Codec identities and the keyframe classification.
//!
//! A codec is either "key-framed" (inter-frame coded: only packets from the
//! first sync point on are decodable) or decodable from any packet. A codec
//! the pipeline does not recognize is unsupported and fatal for the session.

use vstd::prelude::*;

verus! {

/// Identity of the video codec discovered on the active stream.
///
/// `Other` stands for every codec the pipeline does not recognize; a session
/// on such a stream fails with an unsupported-codec error.
#[derive(Clone, Copy, Debug, PartialEq, Eq, Structural)]
pub enum CodecId {
    H264,
    H265,
    Hevc,
    Vp9,
    Vp8,
    Av1,
    Mpeg1Video,
    Mpeg2Video,
    Mpeg4,
    MsMpeg4V1,
    MsMpeg4V2,
    MsMpeg4V3,
    Theora,
    Flv1,
    Mjpeg,
    Tiff,
    Png,
    Jpeg2000,
    RawVideo,
    Other,
}

/// A codec the pipeline knows how to gate.
pub open spec fn codec_recognized(id: CodecId) -> bool {
    !(id is Other)
}

/// True for inter-frame codecs, whose streams are decodable only from a
/// sync point on; false for codecs whose every packet stands alone.
pub open spec fn codec_key_framed(id: CodecId) -> bool {
    match id {
        CodecId::H264 => true,
        CodecId::H265 => true,
        CodecId::Hevc => true,
        CodecId::Vp9 => true,
        CodecId::Vp8 => true,
        CodecId::Av1 => true,
        CodecId::Mpeg1Video => true,
        CodecId::Mpeg2Video => true,
        CodecId::Mpeg4 => true,
        CodecId::MsMpeg4V1 => true,
        CodecId::MsMpeg4V2 => true,
        CodecId::MsMpeg4V3 => true,
        CodecId::Theora => true,
        CodecId::Flv1 => true,
        CodecId::Mjpeg => false,
        CodecId::Tiff => false,
        CodecId::Png => false,
        CodecId::Jpeg2000 => false,
        CodecId::RawVideo => false,
        CodecId::Other => false,
    }
}

/// The codec's conventional lower-case name.
pub open spec fn spec_codec_name(id: CodecId) -> Seq<char> {
    match id {
        CodecId::H264 => "h264"@,
        CodecId::H265 => "hevc"@,
        CodecId::Hevc => "hevc"@,
        CodecId::Vp9 => "vp9"@,
        CodecId::Vp8 => "vp8"@,
        CodecId::Av1 => "av1"@,
        CodecId::Mpeg1Video => "mpeg1video"@,
        CodecId::Mpeg2Video => "mpeg2video"@,
        CodecId::Mpeg4 => "mpeg4"@,
        CodecId::MsMpeg4V1 => "msmpeg4v1"@,
        CodecId::MsMpeg4V2 => "msmpeg4v2"@,
        CodecId::MsMpeg4V3 => "msmpeg4v3"@,
        CodecId::Theora => "theora"@,
        CodecId::Flv1 => "flv1"@,
        CodecId::Mjpeg => "mjpeg"@,
        CodecId::Tiff => "tiff"@,
        CodecId::Png => "png"@,
        CodecId::Jpeg2000 => "jpeg2000"@,
        CodecId::RawVideo => "rawvideo"@,
        CodecId::Other => "unknown"@,
    }
}

/// The codec's conventional lower-case name, as an owned string.
pub fn codec_name(id: CodecId) -> (r: String)
    ensures
        r@ == spec_codec_name(id),
{
    match id {
        CodecId::H264 => "h264".to_owned(),
        CodecId::H265 => "hevc".to_owned(),
        CodecId::Hevc => "hevc".to_owned(),
        CodecId::Vp9 => "vp9".to_owned(),
        CodecId::Vp8 => "vp8".to_owned(),
        CodecId::Av1 => "av1".to_owned(),
        CodecId::Mpeg1Video => "mpeg1video".to_owned(),
        CodecId::Mpeg2Video => "mpeg2video".to_owned(),
        CodecId::Mpeg4 => "mpeg4".to_owned(),
        CodecId::MsMpeg4V1 => "msmpeg4v1".to_owned(),
        CodecId::MsMpeg4V2 => "msmpeg4v2".to_owned(),
        CodecId::MsMpeg4V3 => "msmpeg4v3".to_owned(),
        CodecId::Theora => "theora".to_owned(),
        CodecId::Flv1 => "flv1".to_owned(),
        CodecId::Mjpeg => "mjpeg".to_owned(),
        CodecId::Tiff => "tiff".to_owned(),
        CodecId::Png => "png".to_owned(),
        CodecId::Jpeg2000 => "jpeg2000".to_owned(),
        CodecId::RawVideo => "rawvideo".to_owned(),
        CodecId::Other => "unknown".to_owned(),
    }
}

/// Classifies the stream's codec: `Ok(true)` for a key-framed codec,
/// `Ok(false)` for one decodable from any packet, and `Err` carrying the
/// codec's name when the codec is not recognized.
pub fn is_stream_key_framed(id: CodecId) -> (r: Result<bool, String>)
    ensures
        codec_recognized(id) ==> r == Ok::<bool, String>(codec_key_framed(id)),
        !codec_recognized(id) ==> (r matches Err(s) && s@ == spec_codec_name(id)),
{
    match id {
        CodecId::Other => Err(codec_name(id)),
        _ => Ok(match id {
            CodecId::Mjpeg => false,
            CodecId::Tiff => false,
            CodecId::Png => false,
            CodecId::Jpeg2000 => false,
            CodecId::RawVideo => false,
            _ => true,
        }),
    }
}

} // verus!
