use paddleball::surface::{
    choose_surface_settings, pick_surface_format, preferred_format_index, FRAME_LATENCY,
};
use wgpu::{CompositeAlphaMode, PresentMode, TextureFormat};

#[test]
fn no_flags_no_index() {
    assert_eq!(preferred_format_index(&vec![]), None);
}

#[test]
fn first_set_flag_is_preferred() {
    assert_eq!(preferred_format_index(&vec![true]), Some(0));
    assert_eq!(preferred_format_index(&vec![false, true]), Some(1));
    assert_eq!(preferred_format_index(&vec![false, false, true, true]), Some(2));
    assert_eq!(preferred_format_index(&vec![true, true, false]), Some(0));
    assert_eq!(preferred_format_index(&vec![false, true, false, true]), Some(1));
}

#[test]
fn first_position_is_preferred_where_no_flag_is_set() {
    assert_eq!(preferred_format_index(&vec![false]), Some(0));
    assert_eq!(preferred_format_index(&vec![false, false, false]), Some(0));
}

#[test]
fn no_formats_no_pick() {
    assert_eq!(pick_surface_format(&vec![]), None);
}

#[test]
fn srgb_format_is_picked_over_earlier_linear_ones() {
    let formats = vec![
        TextureFormat::Bgra8Unorm,
        TextureFormat::Rgba8Unorm,
        TextureFormat::Bgra8UnormSrgb,
        TextureFormat::Rgba8UnormSrgb,
    ];
    assert_eq!(pick_surface_format(&formats), Some(TextureFormat::Bgra8UnormSrgb));
}

#[test]
fn leading_srgb_format_is_picked() {
    let formats = vec![TextureFormat::Rgba8UnormSrgb, TextureFormat::Bgra8UnormSrgb];
    assert_eq!(pick_surface_format(&formats), Some(TextureFormat::Rgba8UnormSrgb));
}

#[test]
fn first_format_is_picked_where_none_is_srgb() {
    let formats = vec![
        TextureFormat::Rgba16Float,
        TextureFormat::Bgra8Unorm,
        TextureFormat::Rgb10a2Unorm,
    ];
    assert_eq!(pick_surface_format(&formats), Some(TextureFormat::Rgba16Float));
}

#[test]
fn pick_agrees_with_a_search_by_the_graphics_library() {
    let lists = vec![
        vec![TextureFormat::Bgra8Unorm],
        vec![TextureFormat::Bgra8UnormSrgb],
        vec![TextureFormat::Bgra8Unorm, TextureFormat::Bgra8UnormSrgb],
        vec![TextureFormat::Rgba8Unorm, TextureFormat::Rgba16Float, TextureFormat::Rgba8UnormSrgb],
        vec![TextureFormat::Rgb10a2Unorm, TextureFormat::Rgba8Unorm],
    ];
    for formats in lists {
        let expected = formats.iter().copied().find(|f| f.is_srgb()).unwrap_or(formats[0]);
        assert_eq!(pick_surface_format(&formats), Some(expected));
    }
}

#[test]
fn settings_take_the_first_modes_and_the_clamped_size() {
    let formats = vec![TextureFormat::Bgra8Unorm, TextureFormat::Bgra8UnormSrgb];
    let present_modes = vec![PresentMode::Fifo, PresentMode::Mailbox];
    let alpha_modes = vec![CompositeAlphaMode::Opaque, CompositeAlphaMode::PreMultiplied];
    let settings =
        choose_surface_settings(&formats, &present_modes, &alpha_modes, 640, 0).unwrap();
    assert_eq!(settings.format, TextureFormat::Bgra8UnormSrgb);
    assert_eq!(settings.present_mode, PresentMode::Fifo);
    assert_eq!(settings.alpha_mode, CompositeAlphaMode::Opaque);
    assert_eq!(settings.width, 640);
    assert_eq!(settings.height, 1);
    assert_eq!(settings.desired_maximum_frame_latency, 2);
    assert_eq!(FRAME_LATENCY, 2);
}

#[test]
fn no_settings_without_a_format() {
    let present_modes = vec![PresentMode::Fifo];
    let alpha_modes = vec![CompositeAlphaMode::Opaque];
    assert!(choose_surface_settings(&vec![], &present_modes, &alpha_modes, 640, 480).is_none());
}

#[test]
fn no_settings_without_a_present_mode() {
    let formats = vec![TextureFormat::Bgra8UnormSrgb];
    let alpha_modes = vec![CompositeAlphaMode::Opaque];
    assert!(choose_surface_settings(&formats, &vec![], &alpha_modes, 640, 480).is_none());
}

#[test]
fn no_settings_without_an_alpha_mode() {
    let formats = vec![TextureFormat::Bgra8UnormSrgb];
    let present_modes = vec![PresentMode::Fifo];
    assert!(choose_surface_settings(&formats, &present_modes, &vec![], 640, 480).is_none());
}
