use render_platform::input::{EventClass, InputEvent, InputHandler};
use render_platform::program::{DriverReport, Program, ProgramBuild, ProgramError, ShaderStage, Uniform};
use render_platform::render::{
    clear, plan_draw, render_vertices, screen_size, uniform_bindings, BoundValue, RenderError, Rgba,
    FLOAT_ONE_BITS,
};
use render_platform::texture::{create_texture, Image, RegionError, RegionUpload, Texture, TextureFiltering};
use render_platform::vertex::{attribute_layout, Vertex, VertexAttribute, VertexAttributeType};

fn attr(name: &str, count: u32, kind: VertexAttributeType) -> VertexAttribute {
    VertexAttribute { name: name.to_string(), count, kind }
}

fn report(handle: u32, success: bool, log: &str) -> DriverReport {
    DriverReport { handle, success, log: log.to_string() }
}

fn texture(gl_ref: u32) -> Texture {
    create_texture(gl_ref, (16, 8), None)
}

struct SpriteVertex;

impl Vertex for SpriteVertex {
    fn stride() -> usize {
        20
    }

    fn attributes() -> Vec<VertexAttribute> {
        vec![
            attr("position", 2, VertexAttributeType::Float),
            attr("uv", 2, VertexAttributeType::Float),
            attr("color", 1, VertexAttributeType::Unsigned),
        ]
    }
}

#[test]
fn attribute_type_sizes_are_four_bytes() {
    assert_eq!(VertexAttributeType::Float.size(), 4);
    assert_eq!(VertexAttributeType::Unsigned.size(), 4);
}

#[test]
fn attribute_offsets_are_cumulative_sums() {
    let attrs = vec![
        attr("position", 3, VertexAttributeType::Float),
        attr("uv", 2, VertexAttributeType::Float),
        attr("color", 1, VertexAttributeType::Unsigned),
    ];
    let pointers = attribute_layout(24, &attrs).unwrap();
    let offsets: Vec<usize> = pointers.iter().map(|p| p.offset).collect();
    assert_eq!(offsets, vec![0, 12, 20]);
    assert!(pointers.iter().all(|p| p.stride == 24));
    assert_eq!(pointers[1].name, "uv");
    assert_eq!(pointers[2].kind, VertexAttributeType::Unsigned);
    assert_eq!(pointers[0].count, 3);
}

#[test]
fn attribute_layout_allows_padding_and_rejects_overflow() {
    let attrs = vec![attr("position", 2, VertexAttributeType::Float)];
    assert!(attribute_layout(16, &attrs).is_some());
    assert!(attribute_layout(8, &attrs).is_some());
    assert!(attribute_layout(7, &attrs).is_none());
    assert_eq!(attribute_layout(0, &Vec::new()).unwrap().len(), 0);
    assert!(attribute_layout(0x8000_0000, &attrs).is_none());
}

#[test]
fn texture_filtering_defaults_to_linear() {
    let t = create_texture(3, (64, 32), None);
    assert_eq!(t, Texture { gl_ref: 3, width: 64, height: 32, filtering: TextureFiltering::Linear });
    let n = create_texture(4, (1, 1), Some(TextureFiltering::Nearest));
    assert_eq!(n.filtering, TextureFiltering::Nearest);
    assert_eq!(n.gl_ref(), 4);
}

#[test]
fn set_region_inside_texture() {
    let t = texture(7);
    let image = Image { width: 4, height: 8, data: vec![0u8; 4 * 8 * 4] };
    assert_eq!(
        t.set_region(&image, (12, 0)),
        Ok(RegionUpload { texture: 7, x: 12, y: 0, width: 4, height: 8 })
    );
}

#[test]
fn set_region_out_of_bounds() {
    let t = texture(7);
    let image = Image { width: 4, height: 2, data: vec![0u8; 4 * 2 * 4] };
    assert_eq!(t.set_region(&image, (13, 0)), Err(RegionError::OutOfBounds));
    assert_eq!(t.set_region(&image, (0, 7)), Err(RegionError::OutOfBounds));
    assert_eq!(t.set_region(&image, (u32::MAX, 0)), Err(RegionError::OutOfBounds));
}

#[test]
fn set_region_with_short_image_data() {
    let t = texture(7);
    let image = Image { width: 2, height: 2, data: vec![0u8; 15] };
    assert_eq!(t.set_region(&image, (0, 0)), Err(RegionError::ImageDataMismatch));
}

#[test]
fn set_uniform_appends_without_dedup() {
    let mut p = Program::new(9);
    assert!(p.uniforms().is_empty());
    p.set_uniform("offset", Uniform::Vec2(1, 2));
    p.set_uniform("offset", Uniform::Vec2(3, 4));
    let names: Vec<&str> = p.uniforms().iter().map(|(n, _)| n.as_str()).collect();
    assert_eq!(names, vec!["offset", "offset"]);
    assert_eq!(p.uniforms()[1].1, Uniform::Vec2(3, 4));
    assert_eq!(p.gl_ref(), 9);
}

#[test]
fn program_build_success_gives_empty_program() {
    let s = ProgramBuild::start();
    let s = s.advance(report(1, true, ""));
    assert!(matches!(s, ProgramBuild::CompileFragment { vertex: 1 }));
    let s = s.advance(report(2, true, ""));
    assert!(matches!(s, ProgramBuild::Link { vertex: 1, fragment: 2 }));
    match s.advance(report(5, true, "")) {
        ProgramBuild::Finished(Ok(p)) => {
            assert_eq!(p.gl_ref(), 5);
            assert!(p.uniforms().is_empty());
        }
        other => panic!("unexpected state {:?}", other),
    }
}

#[test]
fn vertex_compile_failure_stops_build() {
    let s = ProgramBuild::start().advance(report(1, false, "0:1: syntax error"));
    match s {
        ProgramBuild::Finished(Err(e)) => {
            assert!(matches!(&e, ProgramError::Compile { stage: ShaderStage::Vertex, .. }));
            assert_eq!(e.message(), "Error compiling shader: 0:1: syntax error");
        }
        other => panic!("unexpected state {:?}", other),
    }
}

#[test]
fn compile_error_message_is_never_empty() {
    let e = ProgramError::Compile { stage: ShaderStage::Vertex, log: String::new() };
    assert_eq!(e.message(), "Error compiling shader: ");
}

#[test]
fn fragment_compile_failure() {
    let s = ProgramBuild::start().advance(report(1, true, "")).advance(report(2, false, "bad fragment"));
    match s {
        ProgramBuild::Finished(Err(ProgramError::Compile { stage, log })) => {
            assert_eq!(stage, ShaderStage::Fragment);
            assert_eq!(log, "bad fragment");
        }
        other => panic!("unexpected state {:?}", other),
    }
}

#[test]
fn link_failure() {
    let s = ProgramBuild::start()
        .advance(report(1, true, ""))
        .advance(report(2, true, ""))
        .advance(report(3, false, "missing main"));
    match s {
        ProgramBuild::Finished(Err(e)) => {
            assert_eq!(e.message(), "Error linking program: missing main");
        }
        other => panic!("unexpected state {:?}", other),
    }
}

#[test]
fn texture_units_assigned_in_order() {
    let uniforms = vec![
        ("a".to_string(), Uniform::Texture(texture(10))),
        ("v".to_string(), Uniform::Vec2(5, 6)),
        ("b".to_string(), Uniform::Texture(texture(11))),
    ];
    let b = uniform_bindings(&uniforms, 8).unwrap();
    assert_eq!(b.len(), 3);
    assert_eq!(b[0].value, BoundValue::TextureUnit { unit: 0, texture: 10 });
    assert_eq!(b[1].value, BoundValue::Vec2(5, 6));
    assert_eq!(b[2].value, BoundValue::TextureUnit { unit: 1, texture: 11 });
    assert_eq!(b[2].name, "b");
}

#[test]
fn texture_unit_overflow() {
    let uniforms = vec![
        ("a".to_string(), Uniform::Texture(texture(10))),
        ("b".to_string(), Uniform::Texture(texture(11))),
    ];
    assert!(uniform_bindings(&uniforms, 1).is_none());
    assert!(uniform_bindings(&uniforms, 2).is_some());
    let mut p = Program::new(1);
    p.set_uniform("a", Uniform::Texture(texture(10)));
    p.set_uniform("b", Uniform::Texture(texture(11)));
    let attrs = vec![attr("position", 2, VertexAttributeType::Float)];
    assert_eq!(plan_draw(&(1, 2), &p, 3, 8, &attrs, 1).unwrap_err(), RenderError::TextureUnitOverflow);
}

#[test]
fn second_uniform_with_same_name_wins_at_draw() {
    let mut p = Program::new(1);
    p.set_uniform("tint", Uniform::Vec2(1, 1));
    p.set_uniform("tint", Uniform::Vec2(2, 2));
    let attrs = vec![attr("position", 2, VertexAttributeType::Float)];
    let plan = plan_draw(&(1, 2), &p, 3, 8, &attrs, 4).unwrap();
    let last = plan.uniforms.iter().rev().find(|b| b.name == "tint").unwrap();
    assert_eq!(last.value, BoundValue::Vec2(2, 2));
}

#[test]
fn second_texture_with_same_name_wins_at_draw() {
    let mut p = Program::new(1);
    p.set_uniform("sampler", Uniform::Texture(texture(10)));
    p.set_uniform("sampler", Uniform::Texture(texture(11)));
    let attrs = vec![attr("position", 2, VertexAttributeType::Float)];
    let plan = plan_draw(&(1, 2), &p, 3, 8, &attrs, 4).unwrap();
    let last = plan.uniforms.iter().rev().find(|b| b.name == "sampler").unwrap();
    assert_eq!(last.value, BoundValue::TextureUnit { unit: 1, texture: 11 });
}

#[test]
fn plan_draw_full_plan() {
    let mut p = Program::new(4);
    p.set_uniform("offset", Uniform::Vec2(7, 8));
    let attrs = vec![
        attr("position", 2, VertexAttributeType::Float),
        attr("color", 4, VertexAttributeType::Unsigned),
    ];
    let plan = plan_draw(&(5, 6), &p, 6, 24, &attrs, 16).unwrap();
    assert_eq!(plan.vertex_array, 5);
    assert_eq!(plan.buffer, 6);
    assert_eq!(plan.upload_bytes, 144);
    assert_eq!(plan.program, 4);
    assert_eq!(plan.vertex_count, 6);
    assert_eq!(plan.attributes[0].offset, 0);
    assert_eq!(plan.attributes[1].offset, 8);
    assert_eq!(plan.uniforms[0].value, BoundValue::Vec2(7, 8));
}

#[test]
fn plan_draw_layout_mismatch() {
    let p = Program::new(4);
    let attrs = vec![attr("position", 3, VertexAttributeType::Float)];
    assert_eq!(plan_draw(&(5, 6), &p, 3, 8, &attrs, 16).unwrap_err(), RenderError::LayoutMismatch);
}

#[test]
fn plan_draw_too_many_vertices() {
    let p = Program::new(4);
    let attrs = vec![attr("position", 2, VertexAttributeType::Float)];
    assert_eq!(plan_draw(&(5, 6), &p, 0x8000_0000, 8, &attrs, 16).unwrap_err(), RenderError::TooManyVertices);
    assert_eq!(
        plan_draw(&(5, 6), &p, 0x7fff_ffff, usize::MAX, &attrs, 16).unwrap_err(),
        RenderError::TooManyVertices
    );
}

#[test]
fn render_vertices_uses_vertex_type_layout() {
    let p = Program::new(2);
    let vertices = vec![SpriteVertex, SpriteVertex, SpriteVertex];
    let plan = render_vertices(&(3, 4), &p, &vertices, 8).unwrap();
    assert_eq!(plan.upload_bytes, 60);
    assert_eq!(plan.vertex_count, 3);
    let offsets: Vec<usize> = plan.attributes.iter().map(|a| a.offset).collect();
    assert_eq!(offsets, vec![0, 8, 16]);
    assert!(plan.attributes.iter().all(|a| a.stride == 20));
}

#[test]
fn render_vertices_with_no_vertices() {
    let p = Program::new(2);
    let vertices: Vec<SpriteVertex> = Vec::new();
    let plan = render_vertices(&(3, 4), &p, &vertices, 8).unwrap();
    assert_eq!(plan.upload_bytes, 0);
    assert_eq!(plan.vertex_count, 0);
}

#[test]
fn screen_size_is_viewport_extent() {
    assert_eq!(screen_size([0, 0, 800, 600]), (800, 600));
    assert_eq!(screen_size([10, 20, 320, 240]), (320, 240));
}

#[test]
fn clear_defaults_to_opaque_black() {
    let c = clear(None);
    assert_eq!(c, Rgba { r: 0, g: 0, b: 0, a: FLOAT_ONE_BITS });
    assert_eq!(f32::from_bits(c.a), 1.0);
    assert_eq!(f32::from_bits(c.r), 0.0);
}

#[test]
fn clear_keeps_given_color() {
    let red = Rgba { r: 1.0f32.to_bits(), g: 0, b: 0, a: 0.5f32.to_bits() };
    assert_eq!(clear(Some(red)), red);
}

#[test]
fn key_down_only_handler_drops_mouse_move() {
    let mut h: InputHandler<&str> = InputHandler::new();
    h.set_key_down("keys");
    assert!(h.mouse_move(3, 4).is_none());
    assert!(h.mouse_down(0, 3, 4).is_none());
    assert!(h.dispatch(&InputEvent::KeyUp { key: 65 }).is_none());
    assert_eq!(h.key_down(65), Some(&"keys"));
}

#[test]
fn each_event_goes_to_its_own_slot() {
    let mut h: InputHandler<u32> = InputHandler::new();
    h.set_mouse_move(1);
    h.set_mouse_down(2);
    h.set_mouse_up(3);
    h.set_key_down(4);
    h.set_key_up(5);
    assert_eq!(h.mouse_move(0, 0), Some(&1));
    assert_eq!(h.mouse_down(1, 0, 0), Some(&2));
    assert_eq!(h.mouse_up(1, 0, 0), Some(&3));
    assert_eq!(h.key_down(32), Some(&4));
    assert_eq!(h.key_up(32), Some(&5));
    h.set_key_up(6);
    assert_eq!(h.dispatch(&InputEvent::KeyUp { key: 1 }), Some(&6));
    assert_eq!(InputEvent::MouseUp { button: 0, x: 1, y: 2 }.class(), EventClass::MouseUp);
}

#[test]
fn new_handler_drops_everything() {
    let h: InputHandler<u32> = InputHandler::new();
    assert!(h.mouse_move(0, 0).is_none());
    assert!(h.mouse_up(0, 0, 0).is_none());
    assert!(h.key_down(1).is_none());
    assert!(h.key_up(1).is_none());
}
