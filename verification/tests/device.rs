use app_surface::device::{
    adapter_request, device_request, required_features, AdapterReport, AdapterRequest,
    DeviceNegotiation, DeviceRequest, FeatureSet, MemoryHints, NegotiationPhase, PowerPreference,
};
use app_surface::error::{Stage, SurfaceError};
use app_surface::platform::Platform;
use wgpu::Features;

fn set_of(features: Features) -> FeatureSet {
    let bits = features.bits();
    FeatureSet { native: bits.0[0], web: bits.0[1] }
}

fn everything() -> FeatureSet {
    set_of(Features::all())
}

#[test]
fn adapter_of_highest_performance_is_the_default() {
    assert_eq!(
        adapter_request(None),
        AdapterRequest {
            power_preference: PowerPreference::HighPerformance,
            force_fallback_adapter: false,
        }
    );
    assert_eq!(
        adapter_request(Some(PowerPreference::LowPower)),
        AdapterRequest { power_preference: PowerPreference::LowPower, force_fallback_adapter: false }
    );
    assert_eq!(
        adapter_request(Some(PowerPreference::NoPreference)).power_preference,
        PowerPreference::NoPreference
    );
}

#[test]
fn full_feature_set_is_requested_where_nothing_is_excluded() {
    let all = everything();
    assert_eq!(required_features(Platform::DesktopUnix, "AMD Radeon RX 6800", all), all);
    assert_eq!(required_features(Platform::DesktopWindows, "NVIDIA GeForce RTX 4090", all), all);
    assert_eq!(required_features(Platform::BrowserWebGpu, "NVIDIA", all), all);
    assert_eq!(required_features(Platform::BrowserWebGl, "", all), all);
}

#[test]
fn ray_tracing_is_not_requested_of_nvidia_on_unix() {
    let all = everything();
    let ray_tracing = set_of(
        Features::EXPERIMENTAL_RAY_TRACING_ACCELERATION_STRUCTURE | Features::EXPERIMENTAL_RAY_QUERY,
    );
    assert_ne!(ray_tracing, FeatureSet { native: 0, web: 0 });
    let kept = required_features(Platform::DesktopUnix, "NVIDIA GeForce RTX 3080", all);
    assert_eq!(
        kept,
        FeatureSet { native: all.native & !ray_tracing.native, web: all.web & !ray_tracing.web }
    );
    assert_eq!(kept, set_of(Features::all().difference(
        Features::EXPERIMENTAL_RAY_TRACING_ACCELERATION_STRUCTURE | Features::EXPERIMENTAL_RAY_QUERY,
    )));
    assert_ne!(kept, all);
    let lower_case = required_features(Platform::DesktopUnix, "nvidia geforce", all);
    assert_eq!(lower_case, all);
    let inside = required_features(Platform::DesktopUnix, "Tesla (NVIDIA Corporation)", all);
    assert_eq!(inside, kept);
}

#[test]
fn line_and_storage_write_features_are_not_requested_on_mobile() {
    let all = everything();
    let excluded = set_of(Features::POLYGON_MODE_LINE | Features::VERTEX_WRITABLE_STORAGE);
    assert_ne!(excluded, FeatureSet { native: 0, web: 0 });
    for platform in [Platform::Ios, Platform::Android] {
        let kept = required_features(platform, "Apple A15 GPU", all);
        assert_eq!(
            kept,
            FeatureSet { native: all.native & !excluded.native, web: all.web & !excluded.web }
        );
    }
    let both = required_features(Platform::Android, "NVIDIA Tegra X1", all);
    let ray_tracing = set_of(
        Features::EXPERIMENTAL_RAY_TRACING_ACCELERATION_STRUCTURE | Features::EXPERIMENTAL_RAY_QUERY,
    );
    assert_eq!(
        both,
        FeatureSet {
            native: all.native & !excluded.native & !ray_tracing.native,
            web: all.web & !excluded.web & !ray_tracing.web,
        }
    );
}

#[test]
fn nothing_is_requested_that_the_adapter_does_not_report() {
    let reported = set_of(Features::TEXTURE_COMPRESSION_BC | Features::EXPERIMENTAL_RAY_QUERY);
    for platform in [
        Platform::DesktopUnix,
        Platform::DesktopWindows,
        Platform::Ios,
        Platform::Android,
        Platform::BrowserWebGpu,
        Platform::BrowserWebGl,
    ] {
        let kept = required_features(platform, "NVIDIA", reported);
        assert_eq!(kept.native & reported.native, kept.native);
        assert_eq!(kept.web & reported.web, kept.web);
    }
    let none = FeatureSet { native: 0, web: 0 };
    assert_eq!(required_features(Platform::Android, "NVIDIA", none), none);
}

#[test]
fn features_are_removed_bit_by_bit() {
    let from = FeatureSet { native: 0b1111, web: 0b1010 };
    let other = FeatureSet { native: 0b0101, web: 0b0110 };
    assert_eq!(from.remove(other), FeatureSet { native: 0b1010, web: 0b1000 });
    assert_eq!(from.remove(from), FeatureSet { native: 0, web: 0 });
    assert_eq!(from.remove(FeatureSet { native: 0, web: 0 }), from);
    let high = FeatureSet { native: u64::MAX, web: u64::MAX };
    assert_eq!(
        high.remove(FeatureSet { native: 1 << 63, web: 1 }),
        FeatureSet { native: u64::MAX >> 1, web: u64::MAX - 1 }
    );
}

#[test]
fn features_are_removed_by_name() {
    let all = everything();
    let line = set_of(Features::POLYGON_MODE_LINE);
    assert_eq!(
        all.remove_named("POLYGON_MODE_LINE"),
        FeatureSet { native: all.native & !line.native, web: all.web & !line.web }
    );
    let depth_clip = set_of(Features::DEPTH_CLIP_CONTROL);
    assert_eq!(
        all.remove_named("DEPTH_CLIP_CONTROL"),
        FeatureSet { native: all.native & !depth_clip.native, web: all.web & !depth_clip.web }
    );
    assert_eq!(all.remove_named("NO_SUCH_FEATURE"), all);
    assert_eq!(all.remove_named("polygon_mode_line"), all);
    assert_eq!(all.remove_named(""), all);
}

#[test]
fn device_request_asks_for_performance() {
    let adapter = AdapterReport {
        name: String::from("NVIDIA GeForce GTX 1080"),
        features: everything(),
    };
    let request = device_request(Platform::DesktopUnix, &adapter);
    assert_eq!(
        request,
        DeviceRequest {
            required_features: required_features(
                Platform::DesktopUnix,
                "NVIDIA GeForce GTX 1080",
                everything()
            ),
            memory_hints: MemoryHints::Performance,
        }
    );
    assert_ne!(request.required_features, everything());
}

#[test]
fn negotiation_goes_from_adapter_to_device_to_ready() {
    let (mut negotiation, request) = DeviceNegotiation::begin(Platform::DesktopWindows, None);
    assert_eq!(negotiation.phase, NegotiationPhase::SelectingAdapter);
    assert_eq!(negotiation.platform, Platform::DesktopWindows);
    assert_eq!(request.power_preference, PowerPreference::HighPerformance);
    assert!(!request.force_fallback_adapter);
    let adapter = AdapterReport { name: String::from("Intel Arc"), features: everything() };
    let device = negotiation.adapter_answered(Some(&adapter));
    assert_eq!(device, Ok(device_request(Platform::DesktopWindows, &adapter)));
    assert_eq!(negotiation.phase, NegotiationPhase::CreatingDevice);
    assert_eq!(negotiation.device_answered(true), Ok(()));
    assert_eq!(negotiation.phase, NegotiationPhase::Ready);
}

#[test]
fn missing_adapter_fails_at_adapter_selection() {
    let (mut negotiation, _) = DeviceNegotiation::begin(Platform::Ios, Some(PowerPreference::LowPower));
    let answer = negotiation.adapter_answered(None);
    assert_eq!(answer, Err(SurfaceError::NoCompatibleAdapter));
    assert_eq!(negotiation.phase, NegotiationPhase::Failed);
    assert_eq!(answer.unwrap_err().stage(), Stage::AdapterSelection);
}

#[test]
fn rejected_device_fails_at_device_creation() {
    let (mut negotiation, _) = DeviceNegotiation::begin(Platform::Android, None);
    let adapter = AdapterReport { name: String::from("Adreno 740"), features: everything() };
    negotiation.adapter_answered(Some(&adapter)).unwrap();
    let answer = negotiation.device_answered(false);
    assert_eq!(answer, Err(SurfaceError::DeviceRequestRejected));
    assert_eq!(negotiation.phase, NegotiationPhase::Failed);
    assert_eq!(answer.unwrap_err().stage(), Stage::DeviceCreation);
}
