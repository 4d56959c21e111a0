use grr::Extent;
use grr::Offset;
use grr::format::{BaseFormat, FormatLayout};
use grr::image::{SubresourceLayers, Target};
use grr::transfer::{
    MemoryLayout, SubImageCommand, map_subresource_region, plan_copy_to_image,
};

fn layers(range: core::ops::Range<u32>) -> SubresourceLayers {
    SubresourceLayers { level: 2, layers: range }
}

fn offset() -> Offset {
    Offset { x: 3, y: 5, z: 7 }
}

fn extent() -> Extent {
    Extent { width: 100, height: 200, depth: 300 }
}

#[test]
fn subresource_region_folding() {
    let (o, e) = map_subresource_region(Target::D1, &layers(0..1), offset(), extent());
    assert_eq!(o, Offset { x: 3, y: 0, z: 0 });
    assert_eq!(e, Extent { width: 100, height: 1, depth: 1 });

    let (o, e) = map_subresource_region(Target::D1Array, &layers(4..9), offset(), extent());
    assert_eq!(o, Offset { x: 3, y: 4, z: 0 });
    assert_eq!(e, Extent { width: 100, height: 5, depth: 1 });

    let (o, e) = map_subresource_region(Target::D2, &layers(0..1), offset(), extent());
    assert_eq!(o, Offset { x: 3, y: 5, z: 0 });
    assert_eq!(e, Extent { width: 100, height: 200, depth: 1 });

    let (o, e) = map_subresource_region(Target::D2Array, &layers(4..9), offset(), extent());
    assert_eq!(o, Offset { x: 3, y: 5, z: 4 });
    assert_eq!(e, Extent { width: 100, height: 200, depth: 5 });

    let (o, e) = map_subresource_region(Target::D3, &layers(0..1), offset(), extent());
    assert_eq!(o, offset());
    assert_eq!(e, extent());
}

#[test]
fn upload_dispatch_by_target() {
    assert_eq!(
        plan_copy_to_image(Target::D1, &layers(0..1), offset(), extent()),
        SubImageCommand::Sub1D { level: 2, x: 3, width: 100 }
    );
    assert_eq!(
        plan_copy_to_image(Target::D1Array, &layers(4..9), offset(), extent()),
        SubImageCommand::Sub2D { level: 2, x: 3, y: 4, width: 100, height: 5 }
    );
    assert_eq!(
        plan_copy_to_image(Target::D2, &layers(0..1), offset(), extent()),
        SubImageCommand::Sub2D { level: 2, x: 3, y: 5, width: 100, height: 200 }
    );
    assert_eq!(
        plan_copy_to_image(Target::D2Array, &layers(4..9), offset(), extent()),
        SubImageCommand::Sub3D { level: 2, x: 3, y: 5, z: 4, width: 100, height: 200, depth: 5 }
    );
    assert_eq!(
        plan_copy_to_image(Target::D3, &layers(0..1), offset(), extent()),
        SubImageCommand::Sub3D {
            level: 2,
            x: 3,
            y: 5,
            z: 7,
            width: 100,
            height: 200,
            depth: 300,
        }
    );
}

#[test]
fn memory_layout_shape() {
    let layout = MemoryLayout {
        base_format: BaseFormat::RGBA,
        format_layout: FormatLayout::U8,
        row_length: 0,
        image_height: 0,
        alignment: 4,
    };
    assert_eq!(layout.base_format, BaseFormat::RGBA);
    assert_eq!(layout.format_layout, FormatLayout::U8);
    assert_eq!(layout.alignment, 4);
}
