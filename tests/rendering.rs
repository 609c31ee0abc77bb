use ferricia_mui::canvas::{CanvasState, OrthoBounds};
use ferricia_mui::composition::{
    DrawCall, DrawableSet, Primitive, SimpleLineGeom, SpriteMesh, SpriteVertex, GL_LINES,
    GL_TRIANGLES,
};
use ferricia_mui::glenum::{attrib_pointer, compile_outcome, AttribPointer, NumType, ShaderType};
use ferricia_mui::error::MuiError;
use ferricia_mui::program::{GeoProgram, GuiProgram, TexProgram, UniformSlot, UniformSource};
use ferricia_mui::scaling::{ScalingCenteredTranslateParam, SmartScaling};
use ferricia_mui::util::OpaqueId;
use std::sync::atomic::AtomicUsize;

fn sprite() -> Primitive {
    Primitive::Sprite(SpriteMesh { vao: 3, vbo: 4, ebo: 5 })
}

fn id(n: usize) -> OpaqueId {
    OpaqueId::from_raw(n)
}

#[test]
fn opaque_ids_come_from_the_counter() {
    let counter = AtomicUsize::new(10);
    let a = OpaqueId::new(&counter);
    let b = OpaqueId::new(&counter);
    assert_eq!(a.id(), 10);
    assert_eq!(b.id(), 11);
    assert_ne!(a, b);
    assert_eq!(OpaqueId::from_raw(99).id(), 99);
}

#[test]
fn empty_composition_has_no_contributors() {
    let set = DrawableSet::new(sprite());
    assert!(set.model_transforms().is_empty());
    assert!(set.filter_transforms().is_empty());
    assert_eq!(*set.prim(), sprite());
}

#[test]
fn attaching_twice_keeps_one() {
    let mut set = DrawableSet::new(sprite());
    set.add_model_transform(id(1));
    set.add_model_transform(id(1));
    assert_eq!(set.model_transforms(), vec![1]);
    set.add_filter_transform(id(8));
    set.add_filter_transform(id(8));
    assert_eq!(set.filter_transforms(), vec![8]);
}

#[test]
fn removing_absent_leaves_set_unchanged() {
    let mut set = DrawableSet::new(sprite());
    set.add_model_transform(id(1));
    set.add_model_transform(id(2));
    set.remove_model_transform(id(3));
    assert_eq!(set.model_transforms(), vec![1, 2]);
    set.remove_filter_transform(id(3));
    assert!(set.filter_transforms().is_empty());
}

#[test]
fn contributors_keep_insertion_order() {
    let mut set = DrawableSet::new(sprite());
    set.add_model_transform(id(30));
    set.add_model_transform(id(10));
    set.add_model_transform(id(20));
    assert_eq!(set.model_transforms(), vec![30, 10, 20]);
    set.remove_model_transform(id(30));
    assert_eq!(set.model_transforms(), vec![10, 20]);
    set.add_model_transform(id(30));
    assert_eq!(set.model_transforms(), vec![10, 20, 30]);
    set.add_model_transform(id(10));
    assert_eq!(set.model_transforms(), vec![10, 20, 30]);
    assert!(set.filter_transforms().is_empty());
}

#[test]
fn composition_fold_order_with_non_commuting_transforms() {
    // A scales by 2, B translates by (1, 0), C scales by 3. The set yields
    // them in insertion order; the fold multiplies each later one from the
    // left, giving C * B * A.
    let mut set = DrawableSet::new(sprite());
    set.add_model_transform(id(1));
    set.add_model_transform(id(2));
    set.add_model_transform(id(3));
    let order = set.model_transforms();
    assert_eq!(order, vec![1, 2, 3]);
    let matrix = |n: usize| match n {
        1 => nalgebra_glm::scaling(&nalgebra_glm::vec3(2.0, 2.0, 1.0)),
        2 => nalgebra_glm::translation(&nalgebra_glm::vec3(1.0, 0.0, 0.0)),
        _ => nalgebra_glm::scaling(&nalgebra_glm::vec3(3.0, 3.0, 1.0)),
    };
    let mut it = order.iter();
    let first = matrix(*it.next().unwrap());
    let folded = it.fold(first, |acc, n| matrix(*n) * acc);
    let p = folded * nalgebra_glm::vec4(1.0, 1.0, 0.0, 1.0);
    // (1, 1) -> scale 2 -> (2, 2) -> +1 x -> (3, 2) -> scale 3 -> (9, 6)
    assert_eq!((p.x, p.y), (9.0, 6.0));
}

#[test]
fn primitives_draw_calls() {
    let line = Primitive::Line(SimpleLineGeom { vao: 1, vbo: 2 });
    assert_eq!(line.vao(), 1);
    assert_eq!(line.draw_call(), DrawCall::Arrays { mode: GL_LINES, count: 2 });
    assert_eq!(sprite().vao(), 3);
    assert_eq!(sprite().draw_call(), DrawCall::Elements { mode: GL_TRIANGLES, count: 6 });
    assert_eq!(SpriteMesh::indices(), vec![0, 1, 2, 0, 2, 3]);
}

#[test]
fn sprite_vertices_span_the_quad() {
    let v = SpriteMesh::vertices([10, 20, 110, 70]);
    assert_eq!(
        v,
        vec![
            SpriteVertex { x: 10, y: 70, u: 0, v: 1 },
            SpriteVertex { x: 10, y: 20, u: 0, v: 0 },
            SpriteVertex { x: 110, y: 20, u: 1, v: 0 },
            SpriteVertex { x: 110, y: 70, u: 1, v: 1 },
        ]
    );
}

#[test]
fn canvas_projection_follows_resize() {
    let mut canvas = CanvasState::new(800, 480);
    assert_eq!(canvas.size(), (800, 480));
    canvas.refresh_canvas_size(1024, 768);
    assert_eq!(canvas.size(), (1024, 768));
    let b = canvas.projection_bounds();
    assert_eq!(
        b,
        OrthoBounds { left: 0, right: 1024, bottom: 0, top: 768, near: -1, far: 1 }
    );
    let m = nalgebra_glm::ortho(
        b.left as f32,
        b.right as f32,
        b.bottom as f32,
        b.top as f32,
        b.near as f32,
        b.far as f32,
    );
    let right = m * nalgebra_glm::vec4(1024.0, 0.0, 0.0, 1.0);
    let top = m * nalgebra_glm::vec4(0.0, 768.0, 0.0, 1.0);
    assert_eq!((right.x, right.y), (1.0, -1.0));
    assert_eq!((top.x, top.y), (-1.0, 1.0));
}

#[test]
fn program_binding_is_elided_when_unchanged() {
    let mut canvas = CanvasState::new(800, 480);
    assert!(canvas.bind_program(5));
    assert!(!canvas.bind_program(5));
    assert!(canvas.bind_program(6));
    assert!(canvas.bind_program(5));
}

#[test]
fn draw_plans_for_both_programs() {
    let mut canvas = CanvasState::new(800, 480);
    let set = DrawableSet::new(sprite());
    let tex = GuiProgram::Tex(TexProgram::new(9, 1, 2, 3));
    let plan = canvas.plan_draw(&set, &tex, Some(17));
    assert_eq!(plan.apply_program, Some(9));
    assert_eq!(plan.texture, Some(17));
    assert_eq!(plan.vao, 3);
    assert_eq!(plan.call, DrawCall::Elements { mode: GL_TRIANGLES, count: 6 });
    assert_eq!(
        plan.uniforms,
        vec![
            UniformSlot { location: 1, source: UniformSource::Projection },
            UniformSlot { location: 2, source: UniformSource::Model },
            UniformSlot { location: 3, source: UniformSource::Filter },
        ]
    );
    let again = canvas.plan_draw(&set, &tex, None);
    assert_eq!(again.apply_program, None);
    assert_eq!(again.texture, None);
    let geo = GuiProgram::Geo(GeoProgram::new(4, 7, 8));
    let line = DrawableSet::new(Primitive::Line(SimpleLineGeom { vao: 11, vbo: 12 }));
    let plan = canvas.plan_draw(&line, &geo, None);
    assert_eq!(plan.apply_program, Some(4));
    assert_eq!(plan.vao, 11);
    assert_eq!(plan.call, DrawCall::Arrays { mode: GL_LINES, count: 2 });
    assert_eq!(
        plan.uniforms,
        vec![
            UniformSlot { location: 7, source: UniformSource::Projection },
            UniformSlot { location: 8, source: UniformSource::Model },
        ]
    );
}

#[test]
fn scalar_types_and_attribute_layout() {
    assert_eq!(NumType::Byte.size(), 1);
    assert_eq!(NumType::UnsignedShort.size(), 2);
    assert_eq!(NumType::Float.size(), 4);
    assert_eq!(NumType::Double.size(), 8);
    assert_eq!(NumType::Float.gl_type(), 0x1406);
    assert_eq!(NumType::Double.gl_type(), 0x140A);
    assert_eq!(
        attrib_pointer(1, 2, NumType::Float, 4, 2),
        AttribPointer { index: 1, components: 2, gl_type: 0x1406, stride_bytes: 16, offset_bytes: 8 }
    );
    assert_eq!(ShaderType::Vertex.gl_kind(), 0x8B31);
    assert_eq!(ShaderType::Fragment.gl_kind(), 0x8B30);
}

#[test]
fn compile_failure_carries_the_diagnostic() {
    assert_eq!(
        compile_outcome(3, 0, "0:1: syntax error".to_string()),
        Err(MuiError::ShaderCompileFailed("0:1: syntax error".to_string()))
    );
    assert_eq!(compile_outcome(3, 1, String::new()), Ok(3));
}

#[test]
fn smart_scaling_keeps_its_parameters() {
    let s = SmartScaling::new((800, 480), Some((ScalingCenteredTranslateParam::Both, (400, 200))));
    assert_eq!(s.reference_size, (800, 480));
    assert!(matches!(s.param, Some((ScalingCenteredTranslateParam::Both, (400, 200)))));
}
