use planet_render::surface::{preferred_index, select_surface_format};
use wgpu::TextureFormat;

#[test]
fn first_flagged_entry_is_preferred() {
    assert_eq!(preferred_index(&vec![false, true, true]), Some(1));
    assert_eq!(preferred_index(&vec![true, false, true]), Some(0));
    assert_eq!(preferred_index(&vec![false, false, false, true]), Some(3));
    assert_eq!(preferred_index(&vec![true]), Some(0));
}

#[test]
fn first_entry_is_preferred_when_none_is_flagged() {
    assert_eq!(preferred_index(&vec![false]), Some(0));
    assert_eq!(preferred_index(&vec![false, false, false]), Some(0));
}

#[test]
fn empty_list_has_no_preferred_entry() {
    assert_eq!(preferred_index(&Vec::new()), None);
    assert_eq!(select_surface_format(&Vec::new()), None);
}

#[test]
fn srgb_format_is_chosen_over_earlier_linear_ones() {
    let formats = vec![
        TextureFormat::Bgra8Unorm,
        TextureFormat::Rgba8Unorm,
        TextureFormat::Bgra8UnormSrgb,
        TextureFormat::Rgba8UnormSrgb,
    ];
    assert_eq!(select_surface_format(&formats), Some(TextureFormat::Bgra8UnormSrgb));
}

#[test]
fn first_srgb_format_wins_among_several() {
    let formats = vec![TextureFormat::Rgba8UnormSrgb, TextureFormat::Bgra8UnormSrgb];
    assert_eq!(select_surface_format(&formats), Some(TextureFormat::Rgba8UnormSrgb));
}

#[test]
fn first_format_is_chosen_when_none_is_srgb() {
    let formats = vec![
        TextureFormat::Rgba16Float,
        TextureFormat::Bgra8Unorm,
        TextureFormat::Rgba8Unorm,
    ];
    assert_eq!(select_surface_format(&formats), Some(TextureFormat::Rgba16Float));
    assert_eq!(
        select_surface_format(&vec![TextureFormat::Bgra8Unorm]),
        Some(TextureFormat::Bgra8Unorm)
    );
}
