use ferricia_mui::capability::{parse_version, GlCapabilities, GlFeature, GlVersion};
use ferricia_mui::error::MuiError;

fn caps(gl: &str, extensions: &[&str]) -> Result<GlCapabilities, MuiError> {
    GlCapabilities::from_driver_info(
        "Vendor".to_string(),
        "Renderer".to_string(),
        gl.to_string(),
        "1.10".to_string(),
        extensions.iter().map(|e| e.to_string()).collect(),
    )
}

const VAO: &str = "GL_ARB_vertex_array_object";
const UBO: &str = "GL_ARB_uniform_buffer_object";

#[test]
fn parse_version_ignores_suffix() {
    assert_eq!(parse_version("4.6.0 NVIDIA 550.54"), Ok(GlVersion { major: 4, minor: 6 }));
    assert_eq!(parse_version("3.2.0"), Ok(GlVersion { major: 3, minor: 2 }));
    assert_eq!(parse_version("4.60 NVIDIA"), Ok(GlVersion { major: 4, minor: 60 }));
    assert_eq!(parse_version("12.345"), Ok(GlVersion { major: 12, minor: 345 }));
}

#[test]
fn parse_version_rejects_malformed() {
    for s in ["", "4", "4.", ".6", "a.b", "v4.6", "4 .6", "4,6.0"] {
        assert_eq!(parse_version(s), Err(MuiError::VersionStringUnparseable), "{s}");
    }
}

#[test]
fn parse_version_rejects_overflow() {
    assert_eq!(parse_version("18446744073709551616.0"), Err(MuiError::VersionStringUnparseable));
    assert_eq!(
        parse_version("18446744073709551615.7"),
        Ok(GlVersion { major: u64::MAX, minor: 7 })
    );
}

#[test]
fn old_driver_is_unsupported_whatever_its_extensions() {
    for v in ["1.5.0", "1.0", "0.9.9"] {
        let want = parse_version(v).unwrap();
        assert_eq!(caps(v, &[]).err(), Some(MuiError::DriverUnsupported(want)));
        assert_eq!(caps(v, &[VAO, UBO]).err(), Some(MuiError::DriverUnsupported(want)));
    }
}

#[test]
fn driver_at_3_1_has_ubo_without_extension() {
    let c = caps("3.1.0", &[]).unwrap();
    assert!(c.has_feature(GlFeature::UniformBufferObject));
    assert!(c.ubo_supported());
}

#[test]
fn driver_at_2_5_has_ubo_only_with_extension() {
    let with = caps("2.5.0", &[VAO, UBO]).unwrap();
    assert!(with.has_feature(GlFeature::UniformBufferObject));
    let without = caps("2.5.0", &[VAO]).unwrap();
    assert!(!without.has_feature(GlFeature::UniformBufferObject));
}

#[test]
fn scenario_driver_3_2_without_extensions() {
    let c = caps("3.2.0", &[]).unwrap();
    assert!(c.has_feature(GlFeature::UniformBufferObject));
    assert_eq!(c.gl_version(), GlVersion { major: 3, minor: 2 });
}

#[test]
fn scenario_driver_2_1_without_vao_extension() {
    assert_eq!(
        caps("2.1.0", &[UBO]).err(),
        Some(MuiError::MissingRequiredExtension(GlVersion { major: 2, minor: 1 }))
    );
    assert!(caps("2.1.0", &[VAO]).is_ok());
}

#[test]
fn driver_at_3_0_needs_no_vao_extension_but_lacks_core_ubo() {
    let c = caps("3.0.0", &[]).unwrap();
    assert!(!c.ubo_supported());
    let c = caps("3.0.0", &[UBO]).unwrap();
    assert!(c.ubo_supported());
}

#[test]
fn unparseable_versions_fail_construction() {
    assert_eq!(caps("OpenGL", &[]).err(), Some(MuiError::VersionStringUnparseable));
    let r = GlCapabilities::from_driver_info(
        String::new(),
        String::new(),
        "4.6".to_string(),
        "unknown".to_string(),
        Vec::new(),
    );
    assert_eq!(r.err(), Some(MuiError::VersionStringUnparseable));
}

#[test]
fn capability_getters_keep_the_reported_strings() {
    let c = GlCapabilities::from_driver_info(
        "ACME".to_string(),
        "Rasteriser 9".to_string(),
        "4.6.0 ACME 1.2".to_string(),
        "4.60 ACME".to_string(),
        vec![VAO.to_string()],
    )
    .unwrap();
    assert_eq!(c.vendor(), "ACME");
    assert_eq!(c.renderer(), "Rasteriser 9");
    assert_eq!(c.full_gl_version(), "4.6.0 ACME 1.2");
    assert_eq!(c.full_glsl_version(), "4.60 ACME");
    assert_eq!(c.gl_version(), GlVersion { major: 4, minor: 6 });
    assert_eq!(c.glsl_version(), GlVersion { major: 4, minor: 60 });
}

#[test]
fn version_order_compares_minor_after_major() {
    // 2.10 is newer than 2.9, and 10.0 newer than 3.1: the comparison is
    // numeric, major first.
    let c = caps("2.10", &[VAO]).unwrap();
    assert!(!c.ubo_supported());
    let c = caps("10.0", &[]).unwrap();
    assert!(c.ubo_supported());
    assert!(caps("2.0", &[VAO]).is_ok());
    assert!(caps("1.99", &[VAO]).is_err());
}
