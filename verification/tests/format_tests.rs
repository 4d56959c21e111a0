use grr::format::{BaseFormat, Format};

fn all_formats() -> Vec<Format> {
    vec![
        Format::R8_UNORM,
        Format::R8G8_UNORM,
        Format::R8G8B8_UNORM,
        Format::R8G8B8A8_UNORM,
        Format::R16_UNORM,
        Format::R16G16_UNORM,
        Format::R16G16B16_UNORM,
        Format::R16G16B16A16_UNORM,
        Format::R8_SNORM,
        Format::R8G8_SNORM,
        Format::R8G8B8_SNORM,
        Format::R8G8B8A8_SNORM,
        Format::R16_SNORM,
        Format::R16G16_SNORM,
        Format::R16G16B16_SNORM,
        Format::R16G16B16A16_SNORM,
        Format::R16_SFLOAT,
        Format::R16G16_SFLOAT,
        Format::R16G16B16_SFLOAT,
        Format::R16G16B16A16_SFLOAT,
        Format::R32_SFLOAT,
        Format::R32G32_SFLOAT,
        Format::R32G32B32_SFLOAT,
        Format::R32G32B32A32_SFLOAT,
        Format::R8_INT,
        Format::R8G8_INT,
        Format::R8G8B8_INT,
        Format::R8G8B8A8_INT,
        Format::R16_INT,
        Format::R16G16_INT,
        Format::R16G16B16_INT,
        Format::R16G16B16A16_INT,
        Format::R32_INT,
        Format::R32G32_INT,
        Format::R32G32B32_INT,
        Format::R32G32B32A32_INT,
        Format::R8_UINT,
        Format::R8G8_UINT,
        Format::R8G8B8_UINT,
        Format::R8G8B8A8_UINT,
        Format::R16_UINT,
        Format::R16G16_UINT,
        Format::R16G16B16_UINT,
        Format::R16G16B16A16_UINT,
        Format::R32_UINT,
        Format::R32G32_UINT,
        Format::R32G32B32_UINT,
        Format::R32G32B32A32_UINT,
        Format::R8G8B8_SRGB,
        Format::R8G8B8A8_SRGB,
        Format::D16_UNORM,
        Format::D24_UNORM,
        Format::D32_UNORM,
        Format::D32_SFLOAT,
        Format::S8_UINT,
        Format::D24_UNORM_S8_UINT,
        Format::D32_SFLOAT_S8_UINT,
    ]
}

/// The number of channels that the format's name spells out.
fn channels_by_name(f: Format) -> u32 {
    let name = format!("{:?}", f);
    let color: u32 = ["R", "G", "B", "A"]
        .iter()
        .map(|c| {
            name.split('_').next().unwrap().contains(*c) as u32
        })
        .sum();
    if color > 0 && !name.starts_with('D') && !name.starts_with('S') {
        color
    } else {
        // depth/stencil names: D..., S..., D..._S...
        1 + (name.contains("_S8") as u32)
    }
}

#[test]
fn every_format_components_match_name() {
    for f in all_formats() {
        let n = f.num_components();
        assert!(1 <= n && n <= 4, "{:?}", f);
        assert_eq!(n, f.base_format().num_components(), "{:?}", f);
        assert_eq!(n, channels_by_name(f), "{:?}", f);
    }
}

#[test]
fn base_format_lookup() {
    assert_eq!(Format::R8_UNORM.base_format(), BaseFormat::R);
    assert_eq!(Format::R16G16_SFLOAT.base_format(), BaseFormat::RG);
    assert_eq!(Format::R8G8B8_SRGB.base_format(), BaseFormat::RGB);
    assert_eq!(Format::R8G8B8A8_SRGB.base_format(), BaseFormat::RGBA);
    assert_eq!(Format::D32_SFLOAT.base_format(), BaseFormat::Depth);
    assert_eq!(Format::S8_UINT.base_format(), BaseFormat::Stencil);
    assert_eq!(Format::D24_UNORM_S8_UINT.base_format(), BaseFormat::DepthStencil);
}

#[test]
fn base_format_component_counts() {
    assert_eq!(BaseFormat::R.num_components(), 1);
    assert_eq!(BaseFormat::RG.num_components(), 2);
    assert_eq!(BaseFormat::RGB.num_components(), 3);
    assert_eq!(BaseFormat::RGBA.num_components(), 4);
    assert_eq!(BaseFormat::Depth.num_components(), 1);
    assert_eq!(BaseFormat::Stencil.num_components(), 1);
    assert_eq!(BaseFormat::DepthStencil.num_components(), 2);
}

#[test]
fn four_channel_srgb_yields_four() {
    assert_eq!(Format::R8G8B8A8_SRGB.num_components(), 4);
}

#[test]
fn depth_only_yields_one() {
    assert_eq!(Format::D16_UNORM.num_components(), 1);
    assert_eq!(Format::D24_UNORM.num_components(), 1);
    assert_eq!(Format::D32_UNORM.num_components(), 1);
    assert_eq!(Format::D32_SFLOAT.num_components(), 1);
}
