use app_surface::error::{Stage, SurfaceError};
use app_surface::size::{clamp_dimension, Size, ViewSize};
use app_surface::surface_view::SurfaceView;
use app_surface::touch::{StylusAngle, TouchPhase};

#[test]
fn dimension_is_clamped_to_one() {
    assert_eq!(clamp_dimension(0), 1);
    assert_eq!(clamp_dimension(1), 1);
    assert_eq!(clamp_dimension(2), 2);
    assert_eq!(clamp_dimension(u32::MAX), u32::MAX);
}

#[test]
fn view_size_is_clamped_in_each_dimension() {
    assert_eq!(ViewSize::clamped(0, 0), ViewSize { width: 1, height: 1 });
    assert_eq!(ViewSize::clamped(0, 9), ViewSize { width: 1, height: 9 });
    assert_eq!(ViewSize::clamped(1920, 0), ViewSize { width: 1920, height: 1 });
    assert_eq!(ViewSize::clamped(1920, 1080), ViewSize { width: 1920, height: 1080 });
}

#[test]
fn size_converts_to_and_from_arrays_and_pairs() {
    let from_array: Size<u32> = Size::from([3, 4]);
    assert_eq!((from_array.width, from_array.height), (3, 4));
    let from_pair: Size<u32> = Size::from((5, 6));
    assert_eq!((from_pair.width, from_pair.height), (5, 6));
    let array: [u32; 2] = from_pair.into();
    assert_eq!(array, [5, 6]);
    let pair: (u32, u32) = from_array.into();
    assert_eq!(pair, (3, 4));
    let from_view: Size<u32> = ViewSize { width: 7, height: 8 }.into();
    assert_eq!((from_view.width, from_view.height), (7, 8));
}

#[test]
fn every_error_names_its_stage() {
    assert_eq!(SurfaceError::NoCompatibleAdapter.stage(), Stage::AdapterSelection);
    assert_eq!(SurfaceError::DeviceRequestRejected.stage(), Stage::DeviceCreation);
    assert_eq!(SurfaceError::SurfaceUnsupported.stage(), Stage::SurfaceConfiguration);
    assert_eq!(SurfaceError::FrameAcquisitionFailed.stage(), Stage::FrameAcquisition);
    assert_eq!(Stage::AdapterSelection.name(), "adapter selection");
    assert_eq!(Stage::DeviceCreation.name(), "device creation");
    assert_eq!(Stage::SurfaceConfiguration.name(), "surface configuration");
    assert_eq!(Stage::FrameAcquisition.name(), "frame acquisition");
}

#[test]
fn every_diagnostic_begins_with_the_stage() {
    assert_eq!(
        SurfaceError::NoCompatibleAdapter.message(),
        "adapter selection: no suitable GPU adapter was found on the system"
    );
    assert_eq!(
        SurfaceError::DeviceRequestRejected.message(),
        "device creation: the adapter rejected the device request"
    );
    assert_eq!(
        SurfaceError::SurfaceUnsupported.message(),
        "surface configuration: the surface is not supported by the adapter"
    );
    assert_eq!(
        SurfaceError::FrameAcquisitionFailed.message(),
        "frame acquisition: failed to acquire the next surface texture"
    );
    assert_eq!(
        SurfaceError::FrameAcquisitionFailed.detail(),
        "failed to acquire the next surface texture"
    );
}

#[derive(Default)]
struct Counter {
    frames: u32,
}

impl SurfaceView for Counter {
    fn enter_frame(&mut self) {
        self.frames += 1;
    }
}

#[test]
fn surface_view_resize_does_nothing_by_default() {
    let mut counter = Counter::default();
    counter.resize();
    assert_eq!(counter.frames, 0);
    counter.enter_frame();
    counter.enter_frame();
    assert_eq!(counter.frames, 2);
}

#[test]
fn touch_values_are_plain_data() {
    let angle = StylusAngle { azimuth: 10u32, altitude: 20u32 };
    let copy = angle;
    assert_eq!((copy.azimuth, copy.altitude), (10, 20));
    assert_ne!(TouchPhase::Started, TouchPhase::Moved);
    assert_ne!(TouchPhase::Ended, TouchPhase::Cancelled);
    assert_eq!(TouchPhase::Moved, TouchPhase::Moved);
}
