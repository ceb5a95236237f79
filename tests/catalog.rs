use ash::vk::native;
use va_vulkanvideo::catalog::{
    codec_of_profile, driver_capacities, entrypoints_for, profiles_for, query_config_entrypoints,
    query_config_profiles, vk_video_profile_info_for_va_profile, PartialVideoProfileInfo, MAX_ENTRYPOINTS,
    MAX_PROFILES, STD_VIDEO_AV1_PROFILE_HIGH, STD_VIDEO_AV1_PROFILE_MAIN, STD_VIDEO_H264_PROFILE_IDC_BASELINE,
    STD_VIDEO_H264_PROFILE_IDC_HIGH, STD_VIDEO_H264_PROFILE_IDC_MAIN, STD_VIDEO_H265_PROFILE_IDC_MAIN,
    STD_VIDEO_H265_PROFILE_IDC_MAIN_10, VA_ENTRYPOINT_ENC_SLICE, VA_ENTRYPOINT_VLD, VA_PROFILE_AV1_PROFILE0,
    VA_PROFILE_AV1_PROFILE1, VA_PROFILE_H264_BASELINE, VA_PROFILE_H264_CONSTRAINED_BASELINE,
    VA_PROFILE_H264_HIGH, VA_PROFILE_H264_MAIN, VA_PROFILE_HEVC_MAIN, VA_PROFILE_HEVC_MAIN10,
    VA_PROFILE_MPEG2_SIMPLE, VA_PROFILE_NONE, VA_PROFILE_VP9_PROFILE0, VA_PROFILE_VP9_PROFILE1,
    VA_PROFILE_VP9_PROFILE2, VA_PROFILE_VP9_PROFILE3, VA_PROFILE_VVC_MULTILAYER_MAIN10,
};
use va_vulkanvideo::codecs::{Codec, SupportedCodecs};
use va_vulkanvideo::status::VaError;

fn only(f: impl FnOnce(&mut SupportedCodecs)) -> SupportedCodecs {
    let mut c = SupportedCodecs::none();
    f(&mut c);
    c
}

fn all() -> SupportedCodecs {
    SupportedCodecs {
        h264_decode: true,
        h265_decode: true,
        vp9_decode: true,
        av1_decode: true,
        h264_encode: true,
        h265_encode: true,
        av1_encode: true,
    }
}

#[test]
fn h264_decode_only_main_has_decode_entrypoint() {
    let c = only(|c| c.h264_decode = true);
    assert_eq!(entrypoints_for(VA_PROFILE_H264_MAIN, &c), Ok(vec![VA_ENTRYPOINT_VLD]));
    assert_eq!(query_config_entrypoints(VA_PROFILE_H264_MAIN, &c, MAX_ENTRYPOINTS), Ok(vec![VA_ENTRYPOINT_VLD]));
}

#[test]
fn vp9_profile2_never_encodes() {
    let c = only(|c| c.vp9_decode = true);
    assert_eq!(entrypoints_for(VA_PROFILE_VP9_PROFILE2, &c), Ok(vec![VA_ENTRYPOINT_VLD]));
    assert_eq!(entrypoints_for(VA_PROFILE_VP9_PROFILE2, &all()), Ok(vec![VA_ENTRYPOINT_VLD]));
}

#[test]
fn unknown_profile_is_unsupported() {
    assert_eq!(entrypoints_for(VA_PROFILE_MPEG2_SIMPLE, &all()), Err(VaError::UnsupportedProfile));
    assert_eq!(entrypoints_for(VA_PROFILE_NONE, &all()), Err(VaError::UnsupportedProfile));
    assert_eq!(entrypoints_for(VA_PROFILE_VVC_MULTILAYER_MAIN10, &all()), Err(VaError::UnsupportedProfile));
    assert_eq!(
        query_config_entrypoints(VA_PROFILE_MPEG2_SIMPLE, &all(), 0),
        Err(VaError::UnsupportedProfile)
    );
}

#[test]
fn profile_of_unsupported_codec_is_unsupported() {
    let c = only(|c| c.h264_decode = true);
    assert_eq!(entrypoints_for(VA_PROFILE_HEVC_MAIN, &c), Err(VaError::UnsupportedProfile));
    assert_eq!(query_config_entrypoints(VA_PROFILE_HEVC_MAIN, &c, 2), Err(VaError::UnsupportedProfile));
}

#[test]
fn entrypoints_both_and_encode_only() {
    assert_eq!(
        entrypoints_for(VA_PROFILE_HEVC_MAIN10, &all()),
        Ok(vec![VA_ENTRYPOINT_VLD, VA_ENTRYPOINT_ENC_SLICE])
    );
    let c = only(|c| c.av1_encode = true);
    assert_eq!(entrypoints_for(VA_PROFILE_AV1_PROFILE1, &c), Ok(vec![VA_ENTRYPOINT_ENC_SLICE]));
    assert_eq!(entrypoints_for(VA_PROFILE_H264_BASELINE, &only(|c| c.h264_encode = true)), Ok(vec![VA_ENTRYPOINT_ENC_SLICE]));
}

#[test]
fn entrypoint_capacity_below_two_fails() {
    let c = all();
    assert_eq!(query_config_entrypoints(VA_PROFILE_H264_HIGH, &c, 1), Err(VaError::OperationFailed));
    assert_eq!(query_config_entrypoints(VA_PROFILE_H264_HIGH, &c, -5), Err(VaError::OperationFailed));
    assert_eq!(
        query_config_entrypoints(VA_PROFILE_H264_HIGH, &c, 2),
        Ok(vec![VA_ENTRYPOINT_VLD, VA_ENTRYPOINT_ENC_SLICE])
    );
}

#[test]
fn profiles_in_group_order() {
    assert_eq!(
        profiles_for(&all()),
        vec![
            VA_PROFILE_H264_CONSTRAINED_BASELINE,
            VA_PROFILE_H264_MAIN,
            VA_PROFILE_H264_HIGH,
            VA_PROFILE_HEVC_MAIN,
            VA_PROFILE_HEVC_MAIN10,
            VA_PROFILE_AV1_PROFILE0,
            VA_PROFILE_AV1_PROFILE1,
            VA_PROFILE_VP9_PROFILE0,
            VA_PROFILE_VP9_PROFILE1,
            VA_PROFILE_VP9_PROFILE2,
            VA_PROFILE_VP9_PROFILE3,
        ]
    );
}

#[test]
fn profiles_do_not_tell_decode_from_encode() {
    let enc = only(|c| c.h265_encode = true);
    let dec = only(|c| c.h265_decode = true);
    assert_eq!(profiles_for(&enc), vec![VA_PROFILE_HEVC_MAIN, VA_PROFILE_HEVC_MAIN10]);
    assert_eq!(profiles_for(&enc), profiles_for(&dec));
    assert_eq!(profiles_for(&SupportedCodecs::none()), Vec::<i32>::new());
}

#[test]
fn repeated_queries_agree() {
    let c = only(|c| {
        c.h264_decode = true;
        c.av1_decode = true;
    });
    let first = profiles_for(&c);
    let second = profiles_for(&c);
    assert_eq!(first, second);
    assert_eq!(first.len(), second.len());
    assert_eq!(entrypoints_for(VA_PROFILE_AV1_PROFILE0, &c), entrypoints_for(VA_PROFILE_AV1_PROFILE0, &c));
}

#[test]
fn profile_capacity_below_length_fails() {
    let c = all();
    assert_eq!(query_config_profiles(&c, 10), Err(VaError::OperationFailed));
    assert_eq!(query_config_profiles(&c, 0), Err(VaError::OperationFailed));
    assert_eq!(query_config_profiles(&c, -1), Err(VaError::OperationFailed));
    assert_eq!(query_config_profiles(&c, 11).map(|v| v.len()), Ok(11));
    assert_eq!(query_config_profiles(&c, MAX_PROFILES), Ok(profiles_for(&c)));
    assert_eq!(query_config_profiles(&SupportedCodecs::none(), 0), Ok(vec![]));
}

#[test]
fn capacities_advertised_at_init() {
    let caps = driver_capacities();
    assert_eq!(caps.max_profiles, 39);
    assert_eq!(caps.max_entrypoints, 2);
    assert_eq!(caps.max_attributes, 1);
    assert_eq!(caps.max_image_formats, 1);
    assert_eq!(caps.max_subpic_formats, 1);
}

#[test]
fn codec_of_each_profile() {
    assert_eq!(codec_of_profile(VA_PROFILE_H264_BASELINE), Some(Codec::H264));
    assert_eq!(codec_of_profile(VA_PROFILE_HEVC_MAIN10), Some(Codec::H265));
    assert_eq!(codec_of_profile(VA_PROFILE_VP9_PROFILE1), Some(Codec::Vp9));
    assert_eq!(codec_of_profile(VA_PROFILE_VP9_PROFILE3), Some(Codec::Vp9));
    assert_eq!(codec_of_profile(VA_PROFILE_AV1_PROFILE1), Some(Codec::Av1));
    assert_eq!(codec_of_profile(VA_PROFILE_VP9_PROFILE0 - 3), None);
    assert_eq!(codec_of_profile(VA_PROFILE_VP9_PROFILE3 + 1), None);
}

#[test]
fn profile_values_match_host_contract() {
    assert_eq!(VA_PROFILE_NONE, -1);
    assert_eq!(VA_PROFILE_H264_MAIN, 6);
    assert_eq!(VA_PROFILE_H264_CONSTRAINED_BASELINE, 13);
    assert_eq!(VA_PROFILE_HEVC_MAIN, 17);
    assert_eq!(VA_PROFILE_VP9_PROFILE0, 19);
    assert_eq!(VA_PROFILE_AV1_PROFILE0, 32);
    assert_eq!(VA_ENTRYPOINT_VLD, 1);
    assert_eq!(VA_ENTRYPOINT_ENC_SLICE, 6);
}

#[test]
fn gpu_profile_info_table() {
    assert_eq!(
        vk_video_profile_info_for_va_profile(VA_PROFILE_H264_BASELINE),
        Some(PartialVideoProfileInfo::H264Decode {
            std_profile_idc: native::StdVideoH264ProfileIdc_STD_VIDEO_H264_PROFILE_IDC_BASELINE
        })
    );
    assert_eq!(
        vk_video_profile_info_for_va_profile(VA_PROFILE_H264_CONSTRAINED_BASELINE),
        Some(PartialVideoProfileInfo::H264Decode { std_profile_idc: STD_VIDEO_H264_PROFILE_IDC_BASELINE })
    );
    assert_eq!(
        vk_video_profile_info_for_va_profile(VA_PROFILE_H264_MAIN),
        Some(PartialVideoProfileInfo::H264Decode {
            std_profile_idc: native::StdVideoH264ProfileIdc_STD_VIDEO_H264_PROFILE_IDC_MAIN
        })
    );
    assert_eq!(
        vk_video_profile_info_for_va_profile(VA_PROFILE_H264_HIGH),
        Some(PartialVideoProfileInfo::H264Decode {
            std_profile_idc: native::StdVideoH264ProfileIdc_STD_VIDEO_H264_PROFILE_IDC_HIGH
        })
    );
    assert_eq!(
        vk_video_profile_info_for_va_profile(VA_PROFILE_HEVC_MAIN),
        Some(PartialVideoProfileInfo::H265Decode {
            std_profile_idc: native::StdVideoH265ProfileIdc_STD_VIDEO_H265_PROFILE_IDC_MAIN
        })
    );
    assert_eq!(
        vk_video_profile_info_for_va_profile(VA_PROFILE_HEVC_MAIN10),
        Some(PartialVideoProfileInfo::H265Decode {
            std_profile_idc: native::StdVideoH265ProfileIdc_STD_VIDEO_H265_PROFILE_IDC_MAIN_10
        })
    );
    assert_eq!(
        vk_video_profile_info_for_va_profile(VA_PROFILE_AV1_PROFILE0),
        Some(PartialVideoProfileInfo::Av1Decode { std_profile: native::StdVideoAV1Profile_STD_VIDEO_AV1_PROFILE_MAIN })
    );
    assert_eq!(
        vk_video_profile_info_for_va_profile(VA_PROFILE_AV1_PROFILE1),
        Some(PartialVideoProfileInfo::Av1Decode { std_profile: native::StdVideoAV1Profile_STD_VIDEO_AV1_PROFILE_HIGH })
    );
    assert_eq!(vk_video_profile_info_for_va_profile(VA_PROFILE_VP9_PROFILE0), None);
    assert_eq!(vk_video_profile_info_for_va_profile(VA_PROFILE_MPEG2_SIMPLE), None);
    assert_eq!(STD_VIDEO_H264_PROFILE_IDC_MAIN, 77);
    assert_eq!(STD_VIDEO_H264_PROFILE_IDC_HIGH, 100);
    assert_eq!(STD_VIDEO_H265_PROFILE_IDC_MAIN, 1);
    assert_eq!(STD_VIDEO_H265_PROFILE_IDC_MAIN_10, 2);
    assert_eq!(STD_VIDEO_AV1_PROFILE_MAIN, 0);
    assert_eq!(STD_VIDEO_AV1_PROFILE_HIGH, 1);
}
