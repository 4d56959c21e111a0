use grr::vertex::{
    InputRate, VertexArrayCommand, VertexAttributeDesc, VertexBase, VertexFormat,
    VertexScalarType, describe_vertex_attributes,
};

fn all_formats() -> Vec<VertexFormat> {
    vec![
        VertexFormat::X8Int,
        VertexFormat::X8Uint,
        VertexFormat::X8Unorm,
        VertexFormat::X8Inorm,
        VertexFormat::X8Uscaled,
        VertexFormat::X8Iscaled,
        VertexFormat::Xy8Int,
        VertexFormat::Xy8Uint,
        VertexFormat::Xy8Unorm,
        VertexFormat::Xy8Inorm,
        VertexFormat::Xy8Uscaled,
        VertexFormat::Xy8Iscaled,
        VertexFormat::Xyz8Int,
        VertexFormat::Xyz8Uint,
        VertexFormat::Xyz8Unorm,
        VertexFormat::Xyz8Inorm,
        VertexFormat::Xyz8Uscaled,
        VertexFormat::Xyz8Iscaled,
        VertexFormat::Xyzw8Int,
        VertexFormat::Xyzw8Uint,
        VertexFormat::Xyzw8Unorm,
        VertexFormat::Xyzw8Inorm,
        VertexFormat::Xyzw8Uscaled,
        VertexFormat::Xyzw8Iscaled,
        VertexFormat::X16Int,
        VertexFormat::X16Uint,
        VertexFormat::X16Float,
        VertexFormat::X16Unorm,
        VertexFormat::X16Inorm,
        VertexFormat::X16Uscaled,
        VertexFormat::X16Iscaled,
        VertexFormat::Xy16Int,
        VertexFormat::Xy16Uint,
        VertexFormat::Xy16Float,
        VertexFormat::Xy16Unorm,
        VertexFormat::Xy16Inorm,
        VertexFormat::Xy16Uscaled,
        VertexFormat::Xy16Iscaled,
        VertexFormat::Xyz16Int,
        VertexFormat::Xyz16Uint,
        VertexFormat::Xyz16Float,
        VertexFormat::Xyz16Unorm,
        VertexFormat::Xyz16Inorm,
        VertexFormat::Xyz16Uscaled,
        VertexFormat::Xyz16Iscaled,
        VertexFormat::Xyzw16Int,
        VertexFormat::Xyzw16Uint,
        VertexFormat::Xyzw16Float,
        VertexFormat::Xyzw16Unorm,
        VertexFormat::Xyzw16Inorm,
        VertexFormat::Xyzw16Uscaled,
        VertexFormat::Xyzw16Iscaled,
        VertexFormat::X32Int,
        VertexFormat::X32Uint,
        VertexFormat::X32Float,
        VertexFormat::X32Unorm,
        VertexFormat::X32Inorm,
        VertexFormat::X32Uscaled,
        VertexFormat::X32Iscaled,
        VertexFormat::Xy32Int,
        VertexFormat::Xy32Uint,
        VertexFormat::Xy32Float,
        VertexFormat::Xy32Unorm,
        VertexFormat::Xy32Inorm,
        VertexFormat::Xy32Uscaled,
        VertexFormat::Xy32Iscaled,
        VertexFormat::Xyz32Int,
        VertexFormat::Xyz32Uint,
        VertexFormat::Xyz32Float,
        VertexFormat::Xyz32Unorm,
        VertexFormat::Xyz32Inorm,
        VertexFormat::Xyz32Uscaled,
        VertexFormat::Xyz32Iscaled,
        VertexFormat::Xyzw32Int,
        VertexFormat::Xyzw32Uint,
        VertexFormat::Xyzw32Float,
        VertexFormat::Xyzw32Unorm,
        VertexFormat::Xyzw32Inorm,
        VertexFormat::Xyzw32Uscaled,
        VertexFormat::Xyzw32Iscaled,
        VertexFormat::X64Float,
        VertexFormat::Xy64Float,
        VertexFormat::Xyz64Float,
        VertexFormat::Xyzw64Float,
    ]
}

#[test]
fn every_format_resolves_within_bounds() {
    let formats = all_formats();
    assert_eq!(formats.len(), 84);
    for f in formats {
        let d = f.resolve();
        assert!(1 <= d.components && d.components <= 4, "{:?}", f);
        // the component count follows the name prefix
        let name = format!("{:?}", f);
        let expected = if name.starts_with("Xyzw") {
            4
        } else if name.starts_with("Xyz") {
            3
        } else if name.starts_with("Xy") {
            2
        } else {
            1
        };
        assert_eq!(d.components, expected, "{:?}", f);
        // integer interpretations run on the integer path, everything else
        // on the float path, except 64-bit floats on the double path
        let base = if name.contains("64") {
            VertexBase::Double
        } else if name.ends_with("Int") || name.ends_with("Uint") {
            VertexBase::Int
        } else {
            VertexBase::Float
        };
        assert_eq!(d.base, base, "{:?}", f);
        // only the normalized interpretations set the flag
        assert_eq!(d.normalized, name.ends_with("Unorm") || name.ends_with("Inorm"), "{:?}", f);
    }
}

#[test]
fn resolve_spot_checks() {
    let d = VertexFormat::X8Int.resolve();
    assert_eq!(
        (d.base, d.components, d.scalar, d.normalized),
        (VertexBase::Int, 1, VertexScalarType::I8, false)
    );
    let d = VertexFormat::Xyzw16Unorm.resolve();
    assert_eq!(
        (d.base, d.components, d.scalar, d.normalized),
        (VertexBase::Float, 4, VertexScalarType::U16, true)
    );
    let d = VertexFormat::Xy32Float.resolve();
    assert_eq!(
        (d.base, d.components, d.scalar, d.normalized),
        (VertexBase::Float, 2, VertexScalarType::F32, false)
    );
    let d = VertexFormat::X32Inorm.resolve();
    assert_eq!(
        (d.base, d.components, d.scalar, d.normalized),
        (VertexBase::Float, 1, VertexScalarType::I32, true)
    );
    let d = VertexFormat::Xyzw8Uscaled.resolve();
    assert_eq!(
        (d.base, d.components, d.scalar, d.normalized),
        (VertexBase::Float, 4, VertexScalarType::U8, false)
    );
    let d = VertexFormat::Xyz64Float.resolve();
    assert_eq!(
        (d.base, d.components, d.scalar, d.normalized),
        (VertexBase::Double, 3, VertexScalarType::F64, false)
    );
}

#[test]
fn attribute_commands_take_one_path_each() {
    let attributes = vec![
        VertexAttributeDesc { location: 0, binding: 0, format: VertexFormat::Xyz32Float, offset: 0 },
        VertexAttributeDesc { location: 1, binding: 0, format: VertexFormat::Xyzw8Uint, offset: 12 },
        VertexAttributeDesc { location: 3, binding: 1, format: VertexFormat::Xy64Float, offset: 0 },
    ];
    let cmds = describe_vertex_attributes(&attributes);
    assert_eq!(cmds.len(), 9);
    assert_eq!(cmds[0], VertexArrayCommand::EnableAttribute { location: 0 });
    assert_eq!(
        cmds[1],
        VertexArrayCommand::AttributeFloatFormat {
            location: 0,
            components: 3,
            scalar: VertexScalarType::F32,
            normalized: false,
            offset: 0,
        }
    );
    assert_eq!(cmds[2], VertexArrayCommand::AttributeBinding { location: 0, binding: 0 });
    assert_eq!(cmds[3], VertexArrayCommand::EnableAttribute { location: 1 });
    assert_eq!(
        cmds[4],
        VertexArrayCommand::AttributeIntFormat {
            location: 1,
            components: 4,
            scalar: VertexScalarType::U8,
            offset: 12,
        }
    );
    assert_eq!(cmds[5], VertexArrayCommand::AttributeBinding { location: 1, binding: 0 });
    assert_eq!(cmds[6], VertexArrayCommand::EnableAttribute { location: 3 });
    assert_eq!(
        cmds[7],
        VertexArrayCommand::AttributeDoubleFormat {
            location: 3,
            components: 2,
            scalar: VertexScalarType::F64,
            offset: 0,
        }
    );
    assert_eq!(cmds[8], VertexArrayCommand::AttributeBinding { location: 3, binding: 1 });

    // exactly one format-configuration call per attribute
    let format_cmds = cmds
        .iter()
        .filter(|c| {
            matches!(
                c,
                VertexArrayCommand::AttributeIntFormat { .. }
                    | VertexArrayCommand::AttributeFloatFormat { .. }
                    | VertexArrayCommand::AttributeDoubleFormat { .. }
            )
        })
        .count();
    assert_eq!(format_cmds, attributes.len());
}

#[test]
fn empty_attribute_list_configures_nothing() {
    let cmds = describe_vertex_attributes(&vec![]);
    assert!(cmds.is_empty());
}

#[test]
fn input_rate_divisors() {
    assert_eq!(InputRate::Vertex.divisor(), 0);
    assert_eq!(InputRate::Instance { divisor: 1 }.divisor(), 1);
    assert_eq!(InputRate::Instance { divisor: 7 }.divisor(), 7);
}
