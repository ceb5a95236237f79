//! The catalogue of profiles and entrypoints: pure translation between the host's
//! enumerations and the (codec, operation) pairs that a device supports.

use vstd::prelude::*;
use crate::codecs::{Codec, Operation, SupportedCodecs};
use crate::status::VaError;

verus! {

// Profile values of the host contract.
pub const VA_PROFILE_NONE: i32 = -1;
pub const VA_PROFILE_MPEG2_SIMPLE: i32 = 0;
pub const VA_PROFILE_MPEG2_MAIN: i32 = 1;
pub const VA_PROFILE_MPEG4_SIMPLE: i32 = 2;
pub const VA_PROFILE_MPEG4_ADVANCED_SIMPLE: i32 = 3;
pub const VA_PROFILE_MPEG4_MAIN: i32 = 4;
pub const VA_PROFILE_H264_BASELINE: i32 = 5;
pub const VA_PROFILE_H264_MAIN: i32 = 6;
pub const VA_PROFILE_H264_HIGH: i32 = 7;
pub const VA_PROFILE_VC1_SIMPLE: i32 = 8;
pub const VA_PROFILE_VC1_MAIN: i32 = 9;
pub const VA_PROFILE_VC1_ADVANCED: i32 = 10;
pub const VA_PROFILE_H263_BASELINE: i32 = 11;
pub const VA_PROFILE_JPEG_BASELINE: i32 = 12;
pub const VA_PROFILE_H264_CONSTRAINED_BASELINE: i32 = 13;
pub const VA_PROFILE_VP8_VERSION0_3: i32 = 14;
pub const VA_PROFILE_H264_MULTIVIEW_HIGH: i32 = 15;
pub const VA_PROFILE_H264_STEREO_HIGH: i32 = 16;
pub const VA_PROFILE_HEVC_MAIN: i32 = 17;
pub const VA_PROFILE_HEVC_MAIN10: i32 = 18;
pub const VA_PROFILE_VP9_PROFILE0: i32 = 19;
pub const VA_PROFILE_VP9_PROFILE1: i32 = 20;
pub const VA_PROFILE_VP9_PROFILE2: i32 = 21;
pub const VA_PROFILE_VP9_PROFILE3: i32 = 22;
pub const VA_PROFILE_HEVC_MAIN12: i32 = 23;
pub const VA_PROFILE_HEVC_MAIN422_10: i32 = 24;
pub const VA_PROFILE_HEVC_MAIN422_12: i32 = 25;
pub const VA_PROFILE_HEVC_MAIN444: i32 = 26;
pub const VA_PROFILE_HEVC_MAIN444_10: i32 = 27;
pub const VA_PROFILE_HEVC_MAIN444_12: i32 = 28;
pub const VA_PROFILE_HEVC_SCC_MAIN: i32 = 29;
pub const VA_PROFILE_HEVC_SCC_MAIN10: i32 = 30;
pub const VA_PROFILE_HEVC_SCC_MAIN444: i32 = 31;
pub const VA_PROFILE_AV1_PROFILE0: i32 = 32;
pub const VA_PROFILE_AV1_PROFILE1: i32 = 33;
pub const VA_PROFILE_HEVC_SCC_MAIN444_10: i32 = 34;
pub const VA_PROFILE_PROTECTED: i32 = 35;
pub const VA_PROFILE_H264_HIGH10: i32 = 36;
pub const VA_PROFILE_VVC_MAIN10: i32 = 37;
pub const VA_PROFILE_VVC_MULTILAYER_MAIN10: i32 = 38;

// Entrypoint values of the host contract.
pub const VA_ENTRYPOINT_VLD: u32 = 1;
pub const VA_ENTRYPOINT_ENC_SLICE: u32 = 6;

/// Number of profiles that the host contract defines, the deprecated H.264 Baseline left
/// out: the profile capacity that the driver advertises.
pub const MAX_PROFILES: i32 = 39;

/// Most entrypoints a profile can have: one to decode and one to encode.
pub const MAX_ENTRYPOINTS: i32 = 2;

/// The codec that a profile belongs to, for the profiles the driver knows.
pub open spec fn spec_codec_of_profile(profile: i32) -> Option<Codec> {
    if profile == VA_PROFILE_H264_BASELINE || profile == VA_PROFILE_H264_CONSTRAINED_BASELINE
        || profile == VA_PROFILE_H264_MAIN || profile == VA_PROFILE_H264_HIGH {
        Some(Codec::H264)
    } else if profile == VA_PROFILE_HEVC_MAIN || profile == VA_PROFILE_HEVC_MAIN10 {
        Some(Codec::H265)
    } else if profile == VA_PROFILE_AV1_PROFILE0 || profile == VA_PROFILE_AV1_PROFILE1 {
        Some(Codec::Av1)
    } else if VA_PROFILE_VP9_PROFILE0 <= profile <= VA_PROFILE_VP9_PROFILE3 {
        Some(Codec::Vp9)
    } else {
        None
    }
}

/// The codec that a profile belongs to, for the profiles the driver knows.
pub fn codec_of_profile(profile: i32) -> (r: Option<Codec>)
    ensures
        r == spec_codec_of_profile(profile),
{
    match profile {
        VA_PROFILE_H264_BASELINE | VA_PROFILE_H264_CONSTRAINED_BASELINE | VA_PROFILE_H264_MAIN
        | VA_PROFILE_H264_HIGH => Some(Codec::H264),
        VA_PROFILE_HEVC_MAIN | VA_PROFILE_HEVC_MAIN10 => Some(Codec::H265),
        VA_PROFILE_AV1_PROFILE0 | VA_PROFILE_AV1_PROFILE1 => Some(Codec::Av1),
        VA_PROFILE_VP9_PROFILE0 | VA_PROFILE_VP9_PROFILE1 | VA_PROFILE_VP9_PROFILE2
        | VA_PROFILE_VP9_PROFILE3 => Some(Codec::Vp9),
        _ => None,
    }
}

/// The profiles that the driver reports for a codec it supports, in reporting order.
pub open spec fn spec_codec_profiles(codec: Codec) -> Seq<i32> {
    match codec {
        Codec::H264 => seq![VA_PROFILE_H264_CONSTRAINED_BASELINE, VA_PROFILE_H264_MAIN, VA_PROFILE_H264_HIGH],
        Codec::H265 => seq![VA_PROFILE_HEVC_MAIN, VA_PROFILE_HEVC_MAIN10],
        Codec::Av1 => seq![VA_PROFILE_AV1_PROFILE0, VA_PROFILE_AV1_PROFILE1],
        Codec::Vp9 => seq![
            VA_PROFILE_VP9_PROFILE0,
            VA_PROFILE_VP9_PROFILE1,
            VA_PROFILE_VP9_PROFILE2,
            VA_PROFILE_VP9_PROFILE3,
        ],
    }
}

/// The profiles of a codec if it is supported for decoding or for encoding, else none.
pub open spec fn spec_group(codecs: SupportedCodecs, codec: Codec) -> Seq<i32> {
    if codecs.spec_any(codec) {
        spec_codec_profiles(codec)
    } else {
        Seq::empty()
    }
}

/// The profiles that the driver reports: codec group by codec group in the order H.264,
/// H.265, AV1, VP9, each group present when its codec is supported for decoding or encoding.
pub open spec fn spec_profiles_for(codecs: SupportedCodecs) -> Seq<i32> {
    spec_group(codecs, Codec::H264) + spec_group(codecs, Codec::H265) + spec_group(codecs, Codec::Av1)
        + spec_group(codecs, Codec::Vp9)
}

/// Appends the profiles of `codec` to `list`.
fn push_codec_profiles(list: &mut Vec<i32>, codec: Codec)
    ensures
        final(list)@ == old(list)@ + spec_codec_profiles(codec),
{
    match codec {
        Codec::H264 => {
            // Baseline is deprecated and equivalent to Constrained Baseline.
            list.push(VA_PROFILE_H264_CONSTRAINED_BASELINE);
            list.push(VA_PROFILE_H264_MAIN);
            list.push(VA_PROFILE_H264_HIGH);
        },
        Codec::H265 => {
            list.push(VA_PROFILE_HEVC_MAIN);
            list.push(VA_PROFILE_HEVC_MAIN10);
        },
        Codec::Av1 => {
            list.push(VA_PROFILE_AV1_PROFILE0);
            list.push(VA_PROFILE_AV1_PROFILE1);
        },
        Codec::Vp9 => {
            list.push(VA_PROFILE_VP9_PROFILE0);
            list.push(VA_PROFILE_VP9_PROFILE1);
            list.push(VA_PROFILE_VP9_PROFILE2);
            list.push(VA_PROFILE_VP9_PROFILE3);
        },
    }
    assert(final(list)@ =~= old(list)@ + spec_codec_profiles(codec));
}

/// The profiles that the driver reports for the supported codecs.
pub fn profiles_for(codecs: &SupportedCodecs) -> (r: Vec<i32>)
    ensures
        r@ == spec_profiles_for(*codecs),
{
    let mut list: Vec<i32> = Vec::new();
    proof {
        assert(list@ =~= Seq::<i32>::empty());
    }
    if codecs.any(Codec::H264) {
        push_codec_profiles(&mut list, Codec::H264);
    }
    assert(list@ =~= spec_group(*codecs, Codec::H264));
    if codecs.any(Codec::H265) {
        push_codec_profiles(&mut list, Codec::H265);
    }
    assert(list@ =~= spec_group(*codecs, Codec::H264) + spec_group(*codecs, Codec::H265));
    if codecs.any(Codec::Av1) {
        push_codec_profiles(&mut list, Codec::Av1);
    }
    assert(list@ =~= spec_group(*codecs, Codec::H264) + spec_group(*codecs, Codec::H265)
        + spec_group(*codecs, Codec::Av1));
    if codecs.any(Codec::Vp9) {
        push_codec_profiles(&mut list, Codec::Vp9);
    }
    assert(list@ =~= spec_profiles_for(*codecs));
    list
}

/// The answer to a host query for the supported profiles, given the profile capacity that
/// the host advertises: the list when it fits, else an operation failure. A list that does
/// not fit is never cut short.
pub open spec fn spec_query_config_profiles(codecs: SupportedCodecs, max_profiles: i32) -> Result<
    Seq<i32>,
    VaError,
> {
    if spec_profiles_for(codecs).len() > max_profiles {
        Err(VaError::OperationFailed)
    } else {
        Ok(spec_profiles_for(codecs))
    }
}

/// Answers a host query for the supported profiles.
pub fn query_config_profiles(codecs: &SupportedCodecs, max_profiles: i32) -> (r: Result<
    Vec<i32>,
    VaError,
>)
    ensures
        match spec_query_config_profiles(*codecs, max_profiles) {
            Ok(s) => r matches Ok(v) && v@ == s,
            Err(e) => r == Err::<Vec<i32>, VaError>(e),
        },
{
    let list = profiles_for(codecs);
    if list.len() as i64 > max_profiles as i64 {
        return Err(VaError::OperationFailed);
    }
    Ok(list)
}

/// The entrypoints of a profile: decode when decoding is supported, then encode when
/// encoding is supported. A profile the driver does not know, or one of a codec that is
/// supported neither way, is an unsupported profile.
pub open spec fn spec_entrypoints_for(profile: i32, codecs: SupportedCodecs) -> Result<Seq<u32>, VaError> {
    match spec_codec_of_profile(profile) {
        None => Err(VaError::UnsupportedProfile),
        Some(codec) => {
            let decode = codecs.supports(codec, Operation::Decode);
            let encode = codecs.supports(codec, Operation::Encode);
            if decode && encode {
                Ok(seq![VA_ENTRYPOINT_VLD, VA_ENTRYPOINT_ENC_SLICE])
            } else if decode {
                Ok(seq![VA_ENTRYPOINT_VLD])
            } else if encode {
                Ok(seq![VA_ENTRYPOINT_ENC_SLICE])
            } else {
                Err(VaError::UnsupportedProfile)
            }
        },
    }
}

/// The entrypoints of a profile given the supported codecs.
pub fn entrypoints_for(profile: i32, codecs: &SupportedCodecs) -> (r: Result<Vec<u32>, VaError>)
    ensures
        match spec_entrypoints_for(profile, *codecs) {
            Ok(s) => r matches Ok(v) && v@ == s,
            Err(e) => r == Err::<Vec<u32>, VaError>(e),
        },
{
    let codec = match codec_of_profile(profile) {
        Some(c) => c,
        None => return Err(VaError::UnsupportedProfile),
    };
    let (decode, encode) = codecs.decode_encode(codec);
    if !decode && !encode {
        // The profile would not have been listed in the first place.
        return Err(VaError::UnsupportedProfile);
    }
    let mut list: Vec<u32> = Vec::new();
    if decode {
        list.push(VA_ENTRYPOINT_VLD);
    }
    if encode {
        list.push(VA_ENTRYPOINT_ENC_SLICE);
    }
    proof {
        let expected = spec_entrypoints_for(profile, *codecs);
        assert(expected matches Ok(s) && list@ =~= s);
    }
    Ok(list)
}

/// The answer to a host query for the entrypoints of a profile, given the entrypoint
/// capacity that the host advertises. An unknown profile is reported first; then a capacity
/// below the most entrypoints a profile can have is an operation failure.
pub open spec fn spec_query_config_entrypoints(
    profile: i32,
    codecs: SupportedCodecs,
    max_entrypoints: i32,
) -> Result<Seq<u32>, VaError> {
    if spec_codec_of_profile(profile) is None {
        Err(VaError::UnsupportedProfile)
    } else if MAX_ENTRYPOINTS > max_entrypoints {
        Err(VaError::OperationFailed)
    } else {
        spec_entrypoints_for(profile, codecs)
    }
}

/// Answers a host query for the entrypoints of a profile.
pub fn query_config_entrypoints(profile: i32, codecs: &SupportedCodecs, max_entrypoints: i32) -> (r:
    Result<Vec<u32>, VaError>)
    ensures
        match spec_query_config_entrypoints(profile, *codecs, max_entrypoints) {
            Ok(s) => r matches Ok(v) && v@ == s,
            Err(e) => r == Err::<Vec<u32>, VaError>(e),
        },
{
    if codec_of_profile(profile).is_none() {
        return Err(VaError::UnsupportedProfile);
    }
    if MAX_ENTRYPOINTS > max_entrypoints {
        // The capacity is set by the driver itself at init; this does not happen.
        return Err(VaError::OperationFailed);
    }
    entrypoints_for(profile, codecs)
}

/// Repeated queries with equal codec support give equal answers: the catalogue reads
/// nothing but its arguments.
pub proof fn lemma_catalog_deterministic(
    a: SupportedCodecs,
    b: SupportedCodecs,
    profile: i32,
    max_profiles: i32,
    max_entrypoints: i32,
)
    requires
        a == b,
    ensures
        spec_profiles_for(a) == spec_profiles_for(b),
        spec_query_config_profiles(a, max_profiles) == spec_query_config_profiles(b, max_profiles),
        spec_entrypoints_for(profile, a) == spec_entrypoints_for(profile, b),
        spec_query_config_entrypoints(profile, a, max_entrypoints) == spec_query_config_entrypoints(
            profile,
            b,
            max_entrypoints,
        ),
{
}

/// A profile capacity below the length of the profile list fails the query, and one at or
/// above it returns the whole list.
pub proof fn lemma_profile_capacity(codecs: SupportedCodecs, max_profiles: i32)
    ensures
        spec_profiles_for(codecs).len() > max_profiles ==> spec_query_config_profiles(codecs, max_profiles)
            == Err::<Seq<i32>, VaError>(VaError::OperationFailed),
        spec_profiles_for(codecs).len() <= max_profiles ==> spec_query_config_profiles(codecs, max_profiles)
            == Ok::<Seq<i32>, VaError>(spec_profiles_for(codecs)),
{
}

/// The capacities that the driver advertises at init always suffice: with them, no
/// profile or entrypoint query fails for want of room.
pub proof fn lemma_advertised_capacities_suffice(codecs: SupportedCodecs, profile: i32)
    ensures
        spec_profiles_for(codecs).len() <= MAX_PROFILES,
        spec_query_config_profiles(codecs, MAX_PROFILES) == Ok::<Seq<i32>, VaError>(spec_profiles_for(codecs)),
        spec_query_config_entrypoints(profile, codecs, MAX_ENTRYPOINTS) != Err::<Seq<u32>, VaError>(
            VaError::OperationFailed,
        ),
{
}

/// A VP9 profile never has the encode entrypoint.
pub proof fn lemma_vp9_never_encodes(profile: i32, codecs: SupportedCodecs)
    requires
        spec_codec_of_profile(profile) == Some(Codec::Vp9),
    ensures
        spec_entrypoints_for(profile, codecs) matches Ok(s) ==> !s.contains(VA_ENTRYPOINT_ENC_SLICE),
{
    match spec_entrypoints_for(profile, codecs) {
        Ok(s) => {
            assert(s =~= seq![VA_ENTRYPOINT_VLD]);
            assert(s[0] != VA_ENTRYPOINT_ENC_SLICE);
        },
        Err(_) => {},
    }
}

/// The output capacities that the driver advertises to the host at init.
#[derive(Debug, Clone, Copy, PartialEq, Eq, Structural)]
pub struct Capacities {
    pub max_profiles: i32,
    pub max_entrypoints: i32,
    pub max_attributes: i32,
    pub max_image_formats: i32,
    pub max_subpic_formats: i32,
}

/// The output capacities that the driver advertises to the host at init.
pub fn driver_capacities() -> (r: Capacities)
    ensures
        r.max_profiles == MAX_PROFILES,
        r.max_entrypoints == MAX_ENTRYPOINTS,
        r.max_attributes == 1,
        r.max_image_formats == 1,
        r.max_subpic_formats == 1,
{
    Capacities {
        max_profiles: MAX_PROFILES,
        max_entrypoints: MAX_ENTRYPOINTS,
        max_attributes: 1,
        max_image_formats: 1,
        max_subpic_formats: 1,
    }
}

// Codec profile values of the GPU API's video standard headers.
pub const STD_VIDEO_H264_PROFILE_IDC_BASELINE: u32 = 66;
pub const STD_VIDEO_H264_PROFILE_IDC_MAIN: u32 = 77;
pub const STD_VIDEO_H264_PROFILE_IDC_HIGH: u32 = 100;
pub const STD_VIDEO_H265_PROFILE_IDC_MAIN: u32 = 1;
pub const STD_VIDEO_H265_PROFILE_IDC_MAIN_10: u32 = 2;
pub const STD_VIDEO_AV1_PROFILE_MAIN: u32 = 0;
pub const STD_VIDEO_AV1_PROFILE_HIGH: u32 = 1;

/// The codec-specific part of a GPU API video profile, for decoding.
#[derive(Debug, Clone, Copy, PartialEq, Eq, Structural)]
pub enum PartialVideoProfileInfo {
    H264Decode { std_profile_idc: u32 },
    H265Decode { std_profile_idc: u32 },
    Av1Decode { std_profile: u32 },
}

/// The GPU API video profile for a host profile, for the decode profiles that have one.
pub open spec fn spec_vk_video_profile_info(profile: i32) -> Option<PartialVideoProfileInfo> {
    if profile == VA_PROFILE_H264_BASELINE || profile == VA_PROFILE_H264_CONSTRAINED_BASELINE {
        Some(PartialVideoProfileInfo::H264Decode { std_profile_idc: STD_VIDEO_H264_PROFILE_IDC_BASELINE })
    } else if profile == VA_PROFILE_H264_MAIN {
        Some(PartialVideoProfileInfo::H264Decode { std_profile_idc: STD_VIDEO_H264_PROFILE_IDC_MAIN })
    } else if profile == VA_PROFILE_H264_HIGH {
        Some(PartialVideoProfileInfo::H264Decode { std_profile_idc: STD_VIDEO_H264_PROFILE_IDC_HIGH })
    } else if profile == VA_PROFILE_HEVC_MAIN {
        Some(PartialVideoProfileInfo::H265Decode { std_profile_idc: STD_VIDEO_H265_PROFILE_IDC_MAIN })
    } else if profile == VA_PROFILE_HEVC_MAIN10 {
        Some(PartialVideoProfileInfo::H265Decode { std_profile_idc: STD_VIDEO_H265_PROFILE_IDC_MAIN_10 })
    } else if profile == VA_PROFILE_AV1_PROFILE0 {
        Some(PartialVideoProfileInfo::Av1Decode { std_profile: STD_VIDEO_AV1_PROFILE_MAIN })
    } else if profile == VA_PROFILE_AV1_PROFILE1 {
        Some(PartialVideoProfileInfo::Av1Decode { std_profile: STD_VIDEO_AV1_PROFILE_HIGH })
    } else {
        None
    }
}

/// The GPU API video profile for a host profile; `None` where creating one on the GPU side
/// is not supported for that profile.
pub fn vk_video_profile_info_for_va_profile(profile: i32) -> (r: Option<PartialVideoProfileInfo>)
    ensures
        r == spec_vk_video_profile_info(profile),
{
    match profile {
        VA_PROFILE_H264_BASELINE | VA_PROFILE_H264_CONSTRAINED_BASELINE => Some(
            PartialVideoProfileInfo::H264Decode { std_profile_idc: STD_VIDEO_H264_PROFILE_IDC_BASELINE },
        ),
        VA_PROFILE_H264_MAIN => Some(
            PartialVideoProfileInfo::H264Decode { std_profile_idc: STD_VIDEO_H264_PROFILE_IDC_MAIN },
        ),
        VA_PROFILE_H264_HIGH => Some(
            PartialVideoProfileInfo::H264Decode { std_profile_idc: STD_VIDEO_H264_PROFILE_IDC_HIGH },
        ),
        VA_PROFILE_HEVC_MAIN => Some(
            PartialVideoProfileInfo::H265Decode { std_profile_idc: STD_VIDEO_H265_PROFILE_IDC_MAIN },
        ),
        VA_PROFILE_HEVC_MAIN10 => Some(
            PartialVideoProfileInfo::H265Decode { std_profile_idc: STD_VIDEO_H265_PROFILE_IDC_MAIN_10 },
        ),
        VA_PROFILE_AV1_PROFILE0 => Some(
            PartialVideoProfileInfo::Av1Decode { std_profile: STD_VIDEO_AV1_PROFILE_MAIN },
        ),
        VA_PROFILE_AV1_PROFILE1 => Some(
            PartialVideoProfileInfo::Av1Decode { std_profile: STD_VIDEO_AV1_PROFILE_HIGH },
        ),
        _ => None,
    }
}

} // verus!
