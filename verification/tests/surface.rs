use render_host::surface::{choose_format, preferred_index, SurfaceConfig, TargetSize};
use wgpu::{CompositeAlphaMode, PresentMode, TextureFormat};

#[test]
fn size_with_both_dimensions_positive_is_drawable() {
    assert!(TargetSize { width: 450, height: 400 }.is_drawable());
    assert!(TargetSize { width: 1, height: 1 }.is_drawable());
    assert!(TargetSize { width: u32::MAX, height: u32::MAX }.is_drawable());
}

#[test]
fn size_with_a_zero_dimension_is_not_drawable() {
    assert!(!TargetSize { width: 0, height: 400 }.is_drawable());
    assert!(!TargetSize { width: 450, height: 0 }.is_drawable());
    assert!(!TargetSize { width: 0, height: 0 }.is_drawable());
}

#[test]
fn with_size_replaces_the_dimensions_and_nothing_else() {
    let config = SurfaceConfig {
        format: TextureFormat::Bgra8UnormSrgb,
        width: 450,
        height: 400,
        present_mode: PresentMode::Mailbox,
        alpha_mode: CompositeAlphaMode::PreMultiplied,
    };
    let resized = config.with_size(TargetSize { width: 800, height: 600 });
    assert_eq!(
        resized,
        SurfaceConfig {
            format: TextureFormat::Bgra8UnormSrgb,
            width: 800,
            height: 600,
            present_mode: PresentMode::Mailbox,
            alpha_mode: CompositeAlphaMode::PreMultiplied,
        }
    );
}

#[test]
fn preferred_index_of_an_empty_list_is_none() {
    assert_eq!(preferred_index(&Vec::new()), None);
}

#[test]
fn preferred_index_is_the_first_flagged_position() {
    assert_eq!(preferred_index(&vec![true]), Some(0));
    assert_eq!(preferred_index(&vec![false, true]), Some(1));
    assert_eq!(preferred_index(&vec![false, false, true, false, true]), Some(2));
    assert_eq!(preferred_index(&vec![true, true, true]), Some(0));
}

#[test]
fn preferred_index_falls_back_to_the_first_position() {
    assert_eq!(preferred_index(&vec![false]), Some(0));
    assert_eq!(preferred_index(&vec![false, false, false]), Some(0));
}

#[test]
fn choose_format_of_no_formats_is_none() {
    assert_eq!(choose_format(&Vec::new()), None);
}

#[test]
fn choose_format_takes_the_first_gamma_corrected_format() {
    let formats = vec![
        TextureFormat::Bgra8Unorm,
        TextureFormat::Rgba16Float,
        TextureFormat::Rgba8UnormSrgb,
        TextureFormat::Bgra8UnormSrgb,
    ];
    assert_eq!(choose_format(&formats), Some(TextureFormat::Rgba8UnormSrgb));
}

#[test]
fn choose_format_keeps_a_gamma_corrected_format_that_comes_first() {
    let formats = vec![TextureFormat::Bgra8UnormSrgb, TextureFormat::Bgra8Unorm];
    assert_eq!(choose_format(&formats), Some(TextureFormat::Bgra8UnormSrgb));
}

#[test]
fn choose_format_falls_back_to_the_first_reported_format() {
    let formats = vec![
        TextureFormat::Rgba8Unorm,
        TextureFormat::Bgra8Unorm,
        TextureFormat::Rgba16Float,
    ];
    assert_eq!(choose_format(&formats), Some(TextureFormat::Rgba8Unorm));
}

#[test]
fn choose_format_tells_linear_and_gamma_corrected_twins_apart() {
    let linear_first = vec![TextureFormat::Bgra8Unorm, TextureFormat::Bgra8UnormSrgb];
    assert_eq!(choose_format(&linear_first), Some(TextureFormat::Bgra8UnormSrgb));
    let only_linear = vec![TextureFormat::Bgra8Unorm];
    assert_eq!(choose_format(&only_linear), Some(TextureFormat::Bgra8Unorm));
}
