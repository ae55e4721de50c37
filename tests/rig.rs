use pixelated_3d::camera::{
    effective_texel, follow_offset, movement_step, place_camera, PixelCamera, Point2, RigPose,
    COORD_LIMIT,
};
use pixelated_3d::window::{fit_scale, reference_extent, WindowSize, ZOOM_DEFAULT, ZOOM_MAX, ZOOM_MIN};

fn sized_window(texel_size: u32, zoom: u32) -> WindowSize {
    WindowSize { width: 1280, height: 720, texel_size, zoom }
}

fn stale_pose() -> RigPose {
    RigPose {
        snapped: Point2 { x: 11, y: -7 },
        subpixel: Point2 { x: 12, y: -8 },
        canvas_offset: Point2 { x: 3, y: 4 },
    }
}

fn pose_for(x: i64, y: i64, window: &WindowSize) -> RigPose {
    let cam = PixelCamera { subpixel_position: Point2 { x, y } };
    let mut pose = stale_pose();
    place_camera(window, &cam, &mut pose);
    pose
}

#[test]
fn snapped_position_lies_on_grid_within_half_step() {
    let window = sized_window(2, 100);
    let t = effective_texel(&window);
    assert_eq!(t, 2000);
    for &(x, y) in &[(5300, -2100), (999, -999), (1001, 3001), (-1_000_000_007, 123_456_789)] {
        let pose = pose_for(x, y, &window);
        assert_eq!(pose.snapped.x % t, 0);
        assert_eq!(pose.snapped.y % t, 0);
        assert!(2 * (pose.snapped.x - x).abs() <= t);
        assert!(2 * (pose.snapped.y - y).abs() <= t);
    }
}

#[test]
fn snapping_rounds_to_nearest_and_ties_to_even() {
    let window = sized_window(2, 100);
    let pose = pose_for(5300, -2100, &window);
    assert_eq!(pose.snapped, Point2 { x: 6000, y: -2000 });
    let tie = pose_for(3000, -1000, &window);
    assert_eq!(tie.snapped, Point2 { x: 4000, y: 0 });
    let tie_down = pose_for(1000, -5000, &window);
    assert_eq!(tie_down.snapped, Point2 { x: 0, y: -4000 });
}

#[test]
fn snapping_twice_changes_nothing() {
    let window = sized_window(3, 250);
    let first = pose_for(5300, -2100, &window);
    let second = pose_for(first.snapped.x, first.snapped.y, &window);
    assert_eq!(second.snapped, first.snapped);
    assert_eq!(second.canvas_offset, Point2 { x: 0, y: 0 });
}

#[test]
fn canvas_offset_cancels_snap() {
    let window = sized_window(2, 500);
    let pose = pose_for(5300, -2100, &window);
    assert_eq!(effective_texel(&window), 400);
    assert_eq!(pose.snapped, Point2 { x: 5200, y: -2000 });
    assert_eq!(pose.canvas_offset, Point2 { x: -50000, y: 50000 });
    let z = window.zoom as i64;
    assert_eq!(pose.snapped.x - pose.canvas_offset.x / z, 5300);
    assert_eq!(pose.snapped.y - pose.canvas_offset.y / z, -2100);
    assert_eq!(pose.subpixel, Point2 { x: 5300, y: -2100 });
}

#[test]
fn zero_texel_keeps_previous_pose() {
    let window = WindowSize::new();
    assert_eq!(window.texel_size, 0);
    assert_eq!(effective_texel(&window), 0);
    let pose = pose_for(5300, -2100, &window);
    assert_eq!(pose, stale_pose());
}

#[test]
fn scale_for_1280_by_720_is_two() {
    assert_eq!(reference_extent(640), 512);
    assert_eq!(reference_extent(360), 288);
    assert_eq!(fit_scale(1280, 720), 2);
}

#[test]
fn scale_takes_smaller_axis_and_is_at_least_one() {
    assert_eq!(fit_scale(1920, 1080), 4);
    assert_eq!(fit_scale(3000, 600), 2);
    assert_eq!(fit_scale(100, 50), 1);
    assert_eq!(fit_scale(0, 0), 1);
    assert_eq!(fit_scale(1792, 1008), 4);
}

#[test]
fn resize_records_size_and_scale() {
    let mut w = WindowSize::new();
    w.resize(1920, 1080);
    assert_eq!(w, WindowSize { width: 1920, height: 1080, texel_size: 4, zoom: ZOOM_DEFAULT });
}

#[test]
fn zoom_keys_integrate_and_clamp() {
    let mut w = WindowSize::new();
    assert!(!w.apply_zoom_input(false, false, 16));
    assert_eq!(w.zoom, ZOOM_DEFAULT);
    assert!(!w.apply_zoom_input(true, true, 16));
    assert_eq!(w.zoom, ZOOM_DEFAULT);
    assert!(w.apply_zoom_input(false, true, 16));
    assert_eq!(w.zoom, ZOOM_DEFAULT + 16);
    assert!(w.apply_zoom_input(true, false, 100));
    assert_eq!(w.zoom, ZOOM_DEFAULT - 84);
    assert!(w.apply_zoom_input(false, true, 100_000));
    assert_eq!(w.zoom, ZOOM_MAX);
    assert!(w.apply_zoom_input(true, false, 100_000));
    assert_eq!(w.zoom, ZOOM_MIN);
}

#[test]
fn follow_moves_toward_target_only_when_sized() {
    assert_eq!(follow_offset(32000, 18000), Point2 { x: 0, y: 0 });
    assert_eq!(follow_offset(64000, 0), Point2 { x: 5000, y: 5000 });
    assert_eq!(follow_offset(32064, 18036), Point2 { x: 10, y: -10 });
    let mut cam = PixelCamera::new();
    cam.follow(&WindowSize::new(), 64000, 0);
    assert_eq!(cam.subpixel_position, Point2 { x: 0, y: 0 });
    cam.follow(&sized_window(2, 500), 64000, 0);
    assert_eq!(cam.subpixel_position, Point2 { x: 5000, y: 5000 });
}

#[test]
fn shift_saturates_at_coordinate_limit() {
    let mut cam = PixelCamera { subpixel_position: Point2 { x: COORD_LIMIT - 1, y: -COORD_LIMIT + 1 } };
    cam.shift(Point2 { x: i64::MAX, y: i64::MIN });
    assert_eq!(cam.subpixel_position, Point2 { x: COORD_LIMIT, y: -COORD_LIMIT });
}

#[test]
fn movement_keys_give_unit_direction_times_speed() {
    assert_eq!(movement_step(false, true, false, false, 16), Point2 { x: 800, y: 0 });
    assert_eq!(movement_step(false, false, false, true, 20), Point2 { x: 0, y: -1000 });
    assert_eq!(movement_step(false, true, true, false, 20), Point2 { x: 707, y: 707 });
    assert_eq!(movement_step(true, false, false, true, 20), Point2 { x: -707, y: -707 });
    assert_eq!(movement_step(true, true, true, false, 20), Point2 { x: 0, y: 1000 });
    assert_eq!(movement_step(false, false, false, false, 20), Point2 { x: 0, y: 0 });
}
