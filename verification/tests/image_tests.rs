use grr::error::Error;
use grr::image::{
    Image, ImageType, ImageViewType, StorageAllocation, Target, default_view_plan, plan_image,
    view_target,
};

#[test]
fn resolve_is_pure() {
    let shapes = [
        ImageType::D1 { width: 64, layers: 1 },
        ImageType::D1 { width: 64, layers: 4 },
        ImageType::D2 { width: 32, height: 32, layers: 1, samples: 1 },
        ImageType::D2 { width: 32, height: 32, layers: 6, samples: 1 },
        ImageType::D2 { width: 32, height: 32, layers: 12, samples: 1 },
        ImageType::D2 { width: 32, height: 32, layers: 7, samples: 1 },
        ImageType::D2 { width: 32, height: 32, layers: 1, samples: 4 },
        ImageType::D2 { width: 32, height: 32, layers: 3, samples: 4 },
        ImageType::D3 { width: 8, height: 8, depth: 8 },
    ];
    for shape in shapes {
        assert_eq!(shape.resolve_target(), shape.resolve_target());
    }
}

#[test]
fn one_dimensional_targets() {
    assert_eq!(ImageType::D1 { width: 128, layers: 1 }.resolve_target(), Target::D1);
    assert_eq!(ImageType::D1 { width: 128, layers: 2 }.resolve_target(), Target::D1Array);
}

#[test]
fn plain_and_array_two_dimensional_targets() {
    assert_eq!(
        ImageType::D2 { width: 4, height: 4, layers: 1, samples: 1 }.resolve_target(),
        Target::D2
    );
    assert_eq!(
        ImageType::D2 { width: 4, height: 4, layers: 3, samples: 1 }.resolve_target(),
        Target::D2Array
    );
}

#[test]
fn cube_map_boundaries() {
    // exactly six single-sampled layers: the cube-map target
    assert_eq!(
        ImageType::D2 { width: 16, height: 16, layers: 6, samples: 1 }.resolve_target(),
        Target::Cube
    );
    // twelve layers: cube-map array
    assert_eq!(
        ImageType::D2 { width: 16, height: 16, layers: 12, samples: 1 }.resolve_target(),
        Target::CubeArray
    );
    // seven layers (not a multiple of six): a plain two-dimensional array
    assert_eq!(
        ImageType::D2 { width: 16, height: 16, layers: 7, samples: 1 }.resolve_target(),
        Target::D2Array
    );
}

#[test]
fn multisampled_targets() {
    assert_eq!(
        ImageType::D2 { width: 4, height: 4, layers: 1, samples: 8 }.resolve_target(),
        Target::D2Multisample
    );
    assert_eq!(
        ImageType::D2 { width: 4, height: 4, layers: 6, samples: 8 }.resolve_target(),
        Target::D2MultisampleArray
    );
}

#[test]
fn three_dimensional_target() {
    assert_eq!(ImageType::D3 { width: 4, height: 4, depth: 4 }.resolve_target(), Target::D3);
}

#[test]
fn view_type_follows_target_table() {
    let cases = [
        (ImageType::D1 { width: 8, layers: 1 }, ImageViewType::D1),
        (ImageType::D1 { width: 8, layers: 5 }, ImageViewType::D1Array),
        (ImageType::D2 { width: 8, height: 8, layers: 1, samples: 1 }, ImageViewType::D2),
        (ImageType::D2 { width: 8, height: 8, layers: 6, samples: 1 }, ImageViewType::Cube),
        (ImageType::D2 { width: 8, height: 8, layers: 18, samples: 1 }, ImageViewType::CubeArray),
        (ImageType::D2 { width: 8, height: 8, layers: 5, samples: 1 }, ImageViewType::D2Array),
        (ImageType::D2 { width: 8, height: 8, layers: 1, samples: 4 }, ImageViewType::D2),
        (ImageType::D2 { width: 8, height: 8, layers: 2, samples: 4 }, ImageViewType::D2Array),
        (ImageType::D3 { width: 8, height: 8, depth: 2 }, ImageViewType::D3),
    ];
    for (shape, expected) in cases {
        assert_eq!(shape.view_ty(), expected);
    }
}

#[test]
fn cube_scenario_plan() {
    // a 512x512 six-layer single-sampled shape resolves to a cube map whose
    // storage is the two-dimensional family call with the requested levels
    let shape = ImageType::D2 { width: 512, height: 512, layers: 6, samples: 1 };
    let plan = plan_image(&shape, 3).unwrap();
    assert_eq!(plan.target, Target::Cube);
    assert_eq!(plan.storage, StorageAllocation::S2 { width: 512, height: 512 });
    assert_eq!(plan.levels, 3);

    // ... and its default view is a cube view over all six layers and the
    // requested mip range
    let (view_ty, range) = default_view_plan(&shape, 3);
    assert_eq!(view_ty, ImageViewType::Cube);
    assert_eq!(range.levels.start, 0);
    assert_eq!(range.levels.end, 3);
    assert_eq!(range.layers.start, 0);
    assert_eq!(range.layers.end, 6);
}

#[test]
fn storage_family_normalization() {
    // a one-dimensional array, a plain two-dimensional image and a cube map
    // all route to the two-dimensional storage call
    let a = plan_image(&ImageType::D1 { width: 64, layers: 48 }, 1).unwrap();
    assert_eq!(a.storage, StorageAllocation::S2 { width: 64, height: 48 });
    let b = plan_image(&ImageType::D2 { width: 64, height: 48, layers: 1, samples: 1 }, 1)
        .unwrap();
    assert_eq!(b.storage, StorageAllocation::S2 { width: 64, height: 48 });
    let c = plan_image(&ImageType::D2 { width: 64, height: 64, layers: 6, samples: 1 }, 1)
        .unwrap();
    assert_eq!(c.storage, StorageAllocation::S2 { width: 64, height: 64 });

    // arrays and three-dimensional images route to the three-dimensional call
    let d = plan_image(&ImageType::D2 { width: 8, height: 8, layers: 5, samples: 1 }, 1).unwrap();
    assert_eq!(d.storage, StorageAllocation::S3 { width: 8, height: 8, depth: 5 });
    let e = plan_image(&ImageType::D3 { width: 8, height: 8, depth: 4 }, 1).unwrap();
    assert_eq!(e.storage, StorageAllocation::S3 { width: 8, height: 8, depth: 4 });

    // plain one-dimensional images use the one-dimensional call
    let f = plan_image(&ImageType::D1 { width: 256, layers: 1 }, 1).unwrap();
    assert_eq!(f.storage, StorageAllocation::S1 { width: 256 });
}

#[test]
fn multisampled_storage_is_unsupported() {
    let shape = ImageType::D2 { width: 8, height: 8, layers: 1, samples: 4 };
    assert_eq!(plan_image(&shape, 1), Err(Error::Unsupported));
    let arr = ImageType::D2 { width: 8, height: 8, layers: 4, samples: 4 };
    assert_eq!(plan_image(&arr, 1), Err(Error::Unsupported));
}

#[test]
fn shape_getters() {
    let d2 = ImageType::D2 { width: 640, height: 480, layers: 2, samples: 4 };
    assert_eq!(d2.width(), 640);
    assert_eq!(d2.height(), 480);
    assert_eq!(d2.depth(), 1);
    assert_eq!(d2.layers(), 2);
    assert_eq!(d2.samples(), 4);
    assert_eq!(d2.num_texels(), 640 * 480);
    let e = d2.full_extent();
    assert_eq!((e.width, e.height, e.depth), (640, 480, 1));

    let d1 = ImageType::D1 { width: 100, layers: 3 };
    assert_eq!((d1.width(), d1.height(), d1.depth()), (100, 1, 1));
    assert_eq!((d1.layers(), d1.samples()), (3, 1));
    assert_eq!(d1.num_texels(), 100);

    let d3 = ImageType::D3 { width: 10, height: 20, depth: 30 };
    assert_eq!((d3.width(), d3.height(), d3.depth()), (10, 20, 30));
    assert_eq!((d3.layers(), d3.samples()), (1, 1));
    assert_eq!(d3.num_texels(), 10 * 20 * 30);
}

#[test]
fn view_target_keeps_multisampling() {
    assert_eq!(view_target(ImageViewType::D2, Target::D2Multisample), Target::D2Multisample);
    assert_eq!(view_target(ImageViewType::D2, Target::D2), Target::D2);
    assert_eq!(
        view_target(ImageViewType::D2Array, Target::D2MultisampleArray),
        Target::D2MultisampleArray
    );
    assert_eq!(view_target(ImageViewType::D2Array, Target::Cube), Target::D2Array);
    assert_eq!(view_target(ImageViewType::Cube, Target::Cube), Target::Cube);
    assert_eq!(view_target(ImageViewType::D1, Target::D1), Target::D1);
}

#[test]
fn image_as_view_aliases_the_name() {
    let image = Image { raw: 17, target: Target::D2 };
    assert_eq!(image.as_view().0, 17);
}
