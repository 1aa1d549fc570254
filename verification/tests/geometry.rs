use autoskip::genshin::{ProbePoint, WindowProps, DEFAULT_HEIGHT, DEFAULT_WIDTH};
use autoskip::winapi_bindings::bindings::window_size;

fn xs(props: &WindowProps) -> [i32; 5] {
    [
        props.bottom_dialogue_min_x,
        props.bottom_dialogue_max_x,
        props.playing_icon_x,
        props.dialogue_icon_x,
        props.loading_screen_x,
    ]
}

fn ys(props: &WindowProps) -> [i32; 6] {
    [
        props.bottom_dialogue_min_y,
        props.bottom_dialogue_max_y,
        props.playing_icon_y,
        props.dialogue_icon_lower_y,
        props.dialogue_icon_higher_y,
        props.loading_screen_y,
    ]
}

#[test]
fn reference_size_keeps_the_reference_points() {
    assert_eq!(DEFAULT_WIDTH, 1920);
    assert_eq!(DEFAULT_HEIGHT, 1080);
    let props = WindowProps::new(1920, 1080);
    assert_eq!(props.bottom_dialogue_min_x, 1300);
    assert_eq!(props.bottom_dialogue_max_x, 1700);
    assert_eq!(props.bottom_dialogue_min_y, 790);
    assert_eq!(props.bottom_dialogue_max_y, 800);
    assert_eq!(props.playing_icon_x, 84);
    assert_eq!(props.playing_icon_y, 46);
    assert_eq!(props.dialogue_icon_x, 1301);
    assert_eq!(props.dialogue_icon_lower_y, 808);
    assert_eq!(props.dialogue_icon_higher_y, 790);
    assert_eq!(props.loading_screen_x, 1200);
    assert_eq!(props.loading_screen_y, 700);
}

#[test]
fn half_size_halves_every_coordinate() {
    let props = WindowProps::new(960, 540);
    assert_eq!(xs(&props), [650, 850, 42, 650, 600]);
    assert_eq!(ys(&props), [395, 400, 23, 404, 395, 350]);
}

#[test]
fn double_size_doubles_every_coordinate() {
    let props = WindowProps::new(3840, 2160);
    assert_eq!(xs(&props), [2600, 3400, 168, 2602, 2400]);
    assert_eq!(ys(&props), [1580, 1600, 92, 1616, 1580, 1400]);
}

#[test]
fn coordinates_are_rounded_down() {
    let props = WindowProps::new(1366, 768);
    assert_eq!(xs(&props), [924, 1209, 59, 925, 853]);
    assert_eq!(ys(&props), [561, 568, 32, 574, 561, 497]);
}

#[test]
fn each_axis_scales_by_itself() {
    let wide = WindowProps::new(3840, 1080);
    assert_eq!(xs(&wide), [2600, 3400, 168, 2602, 2400]);
    assert_eq!(ys(&wide), [790, 800, 46, 808, 790, 700]);
    let tall = WindowProps::new(1920, 2160);
    assert_eq!(xs(&tall), [1300, 1700, 84, 1301, 1200]);
    assert_eq!(ys(&tall), [1580, 1600, 92, 1616, 1580, 1400]);
}

#[test]
fn every_coordinate_is_the_floor_of_the_scaled_reference() {
    let sizes = [(1, 1), (7, 3), (640, 480), (800, 600), (1280, 720), (1600, 900), (2560, 1440)];
    for (w, h) in sizes {
        let props = WindowProps::new(w, h);
        let floor_x = |v: i64| (v * w as i64).div_euclid(1920) as i32;
        let floor_y = |v: i64| (v * h as i64).div_euclid(1080) as i32;
        assert_eq!(
            xs(&props),
            [floor_x(1300), floor_x(1700), floor_x(84), floor_x(1301), floor_x(1200)]
        );
        assert_eq!(
            ys(&props),
            [
                floor_y(790),
                floor_y(800),
                floor_y(46),
                floor_y(808),
                floor_y(790),
                floor_y(700)
            ]
        );
    }
}

#[test]
fn smallest_window_collapses_to_the_origin() {
    let props = WindowProps::new(1, 1);
    assert_eq!(xs(&props), [0, 0, 0, 0, 0]);
    assert_eq!(ys(&props), [0, 0, 0, 0, 0, 0]);
}

#[test]
fn empty_window_collapses_to_the_origin() {
    let props = WindowProps::new(0, 0);
    assert_eq!(xs(&props), [0, 0, 0, 0, 0]);
    assert_eq!(ys(&props), [0, 0, 0, 0, 0, 0]);
}

#[test]
fn largest_window_does_not_overflow() {
    let props = WindowProps::new(i32::MAX, i32::MAX);
    assert_eq!(xs(&props), [1454025385, 1901417812, 93952409, 1455143867, 1342177279]);
    assert_eq!(
        ys(&props),
        [1570844519, 1590728627, 91466896, 1606635913, 1570844519, 1391887548]
    );
}

#[test]
fn negative_extent_rounds_toward_zero() {
    let props = WindowProps::new(-5, -7);
    assert_eq!(xs(&props), [-3, -4, 0, -3, -3]);
    assert_eq!(ys(&props), [-5, -5, 0, -5, -5, -4]);
    let props = WindowProps::new(i32::MIN, i32::MIN);
    assert_eq!(xs(&props), [-1454025386, -1901417813, -93952409, -1455143867, -1342177280]);
    assert_eq!(
        ys(&props),
        [-1570844520, -1590728628, -91466896, -1606635914, -1570844520, -1391887549]
    );
}

#[test]
fn width_adjust_scales_by_the_reference_width() {
    assert_eq!(WindowProps::width_adjust(1300, 1920), 1300);
    assert_eq!(WindowProps::width_adjust(1300, 1280), 866);
    assert_eq!(WindowProps::width_adjust(1920, 1366), 1366);
    assert_eq!(WindowProps::width_adjust(0, 1366), 0);
    assert_eq!(WindowProps::width_adjust(1, 1919), 0);
    assert_eq!(WindowProps::width_adjust(1, 1920), 1);
    assert_eq!(WindowProps::width_adjust(-1300, 1280), -866);
    assert_eq!(WindowProps::width_adjust(3840, 1000), 2000);
}

#[test]
fn height_adjust_scales_by_the_reference_height() {
    assert_eq!(WindowProps::height_adjust(790, 1080), 790);
    assert_eq!(WindowProps::height_adjust(790, 720), 526);
    assert_eq!(WindowProps::height_adjust(1080, 768), 768);
    assert_eq!(WindowProps::height_adjust(0, 768), 0);
    assert_eq!(WindowProps::height_adjust(1, 1079), 0);
    assert_eq!(WindowProps::height_adjust(1, 1080), 1);
    assert_eq!(WindowProps::height_adjust(-790, 720), -526);
}

#[test]
fn dialogue_area_holds_a_point_for_every_window_that_has_an_extent() {
    for (w, h) in [(0, 0), (1, 1), (17, 5), (1366, 768), (1920, 1080), (i32::MAX, i32::MAX)] {
        let props = WindowProps::new(w, h);
        assert!(props.bottom_dialogue_min_x <= props.bottom_dialogue_max_x);
        assert!(props.bottom_dialogue_min_y <= props.bottom_dialogue_max_y);
    }
}

#[test]
fn probe_points_are_read_where_the_geometry_says() {
    let props = WindowProps::new(1366, 768);
    let p = props.point(ProbePoint::PlayingIcon);
    assert_eq!((p.x, p.y), (59, 32));
    let p = props.point(ProbePoint::LoadingScreen);
    assert_eq!((p.x, p.y), (853, 497));
    let p = props.point(ProbePoint::DialogueIconLower);
    assert_eq!((p.x, p.y), (925, 574));
    let p = props.point(ProbePoint::DialogueIconHigher);
    assert_eq!((p.x, p.y), (925, 561));
}

#[test]
fn window_size_is_the_difference_of_the_edges() {
    assert_eq!(window_size(0, 0, 1920, 1080), (1920, 1080));
    assert_eq!(window_size(100, 50, 1466, 818), (1366, 768));
    assert_eq!(window_size(-32000, -32000, -31840, -31972), (160, 28));
    assert_eq!(window_size(10, 10, 10, 10), (0, 0));
    assert_eq!(window_size(20, 30, 10, 10), (-10, -20));
}
