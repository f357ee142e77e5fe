//! The resource registry: load/unload semantics, bindings, and the
//! vertex-array construction of the draw-setup sequence.

use v39::error::V39Error;
use v39::ids::{IdGen, ModelId, ShaderId, TextureId};
use v39::model::Model;
use v39::renderer::{Renderer, Vao};
use v39::resources::{vbo_layout, Ebo, Shader, Texture, Vbo, VboFormat, VertexAttrib};

type Mat4 = [[f32; 4]; 4];

const IDENTITY: Mat4 = [
    [1.0, 0.0, 0.0, 0.0],
    [0.0, 1.0, 0.0, 0.0],
    [0.0, 0.0, 1.0, 0.0],
    [0.0, 0.0, 0.0, 1.0],
];

fn renderer() -> Renderer<Mat4> {
    Renderer::init()
}

#[test]
fn load_is_not_idempotent_but_leaves_state_unchanged() {
    let mut r = renderer();
    let id = ShaderId(7);
    assert!(r.load_shader(id, Shader::new(100)));
    // The second load is a no-op returning false, never a silent replace.
    assert!(!r.load_shader(id, Shader::new(200)));
    assert!(r.is_shader_loaded(id));
    assert_eq!(r.get_shader(id).unwrap().program(), 100);
}

#[test]
fn unload_round_trip() {
    let mut r = renderer();
    let id = ShaderId(3);
    r.load_shader(id, Shader::new(42));
    assert!(r.unload_shader(id));
    assert!(!r.is_shader_loaded(id));
    assert!(r.get_shader(id).is_none());
    // A second unload has nothing to remove.
    assert!(!r.unload_shader(id));
}

#[test]
fn outstanding_references_survive_unload() {
    let mut r = renderer();
    let id = TextureId(1);
    r.load_texture(id, Texture::new(9, 64, 32));
    let held = r.get_texture(id).unwrap();
    assert!(r.unload_texture(id));
    assert!(r.get_texture(id).is_none());
    // The shared handle keeps the resource alive after the entry is gone.
    assert_eq!(held.image(), 9);
    assert_eq!(held.width(), 64);
    assert_eq!(held.height(), 32);
}

#[test]
fn vao_binds_its_buffers_and_reports_the_element_count() {
    let mut r = renderer();
    let id = ModelId(5);

    // Four interleaved position(3)+color(3) vertices.
    let vbo = Vbo::new(11, 0, VboFormat::PositionColor(3, 3));
    assert!(r.load_vbo(id, vbo));

    // Six indices.
    let ebo = Ebo::new(12, &[0, 1, 2, 2, 3, 0]);
    assert!(r.load_ebo(id, ebo));

    let vao = Vao::new(&mut r, 13, id, id).unwrap();
    assert_eq!(vao.count(), 6);
    assert_eq!(vao.vbo(), id);
    assert_eq!(vao.ebo(), id);
    assert!(r.load_vao(id, vao));

    // Binding the VAO implicitly binds its VBO and EBO and yields the count
    // the draw call needs.
    assert_eq!(r.use_vao(id), Some(6));
    assert_eq!(r.bound_vao(), Some(id));
    assert_eq!(r.bound_vbo(), Some(id));
    assert_eq!(r.bound_ebo(), Some(id));
}

#[test]
fn vao_construction_requires_loaded_buffers() {
    let mut r = renderer();
    let id = ModelId(4);
    assert!(matches!(Vao::new(&mut r, 1, id, id), Err(V39Error::Renderer(_))));
    r.load_vbo(id, Vbo::new(2, 0, VboFormat::Position(3)));
    assert!(matches!(Vao::new(&mut r, 1, id, id), Err(V39Error::Renderer(_))));
    r.load_ebo(id, Ebo::new(3, &[0, 1, 2]));
    assert!(Vao::new(&mut r, 1, id, id).is_ok());
}

#[test]
fn interleaved_layout_accumulates_offsets() {
    // position(3) + color(3): stride 24 bytes, color starts at byte 12.
    let attribs = vbo_layout(VboFormat::PositionColor(3, 3));
    assert_eq!(
        attribs,
        vec![
            VertexAttrib { index: 0, size: 3, stride: 24, offset: 0 },
            VertexAttrib { index: 1, size: 3, stride: 24, offset: 12 },
        ]
    );

    let attribs = vbo_layout(VboFormat::Position(2));
    assert_eq!(attribs, vec![VertexAttrib { index: 0, size: 2, stride: 8, offset: 0 }]);

    // position(3) + color(3) + coords(2): stride 32, offsets 0/12/24.
    let attribs = vbo_layout(VboFormat::PositionColorCoords(3, 3, 2));
    assert_eq!(
        attribs,
        vec![
            VertexAttrib { index: 0, size: 3, stride: 32, offset: 0 },
            VertexAttrib { index: 1, size: 3, stride: 32, offset: 12 },
            VertexAttrib { index: 2, size: 2, stride: 32, offset: 24 },
        ]
    );
}

#[test]
fn model_new_registers_buffers_under_one_id() {
    let mut r = renderer();
    let mut gen = IdGen::new();
    let shader = ShaderId(0);
    r.load_shader(shader, Shader::new(77));

    let vbo = Vbo::new(21, 0, VboFormat::PositionCoords(3, 2));
    let ebo = Ebo::new(22, &[0, 1, 2, 2, 3, 0]);
    let model = Model::new(&mut r, &mut gen, vbo, ebo, 23, shader, vec![], IDENTITY).unwrap();

    let id = model.id();
    assert_eq!(id, ModelId(0));
    assert!(r.is_vbo_loaded(id));
    assert!(r.is_ebo_loaded(id));
    assert_eq!(r.get_vao(id).unwrap().count(), 6);
    assert!(r.load_model(model).is_some());

    // Preparing the model binds the whole chain and activates its shader.
    assert_eq!(r.use_model(id), Some(6));
    assert_eq!(r.bound_vao(), Some(id));
    assert_eq!(r.bound_vbo(), Some(id));
    assert_eq!(r.bound_ebo(), Some(id));
    assert_eq!(r.active_shader(), Some(shader));
    assert!(r.draw_model(id));
}

#[test]
fn model_transform_is_replaced_whole() {
    let mut r = renderer();
    let mut gen = IdGen::new();
    let vbo = Vbo::new(1, 0, VboFormat::Position(3));
    let ebo = Ebo::new(2, &[0]);
    let model = Model::new(&mut r, &mut gen, vbo, ebo, 3, ShaderId(9), vec![], IDENTITY).unwrap();
    let id = r.load_model(model).unwrap();

    let mut scaled = IDENTITY;
    scaled[0][0] = 2.0;
    assert!(r.transform_model(id, scaled));
    assert_eq!(*r.get_model(id).unwrap().get_transform(), scaled);
    assert!(!r.transform_model(ModelId(1000), scaled));
}

#[test]
fn model_load_rejects_duplicate_ids() {
    let mut r = renderer();
    let mut gen = IdGen::new();
    let m1 = Model::new(
        &mut r,
        &mut gen,
        Vbo::new(1, 0, VboFormat::Position(3)),
        Ebo::new(2, &[0, 1]),
        3,
        ShaderId(0),
        vec![],
        IDENTITY,
    )
    .unwrap();
    let mut gen2 = IdGen::new();
    let m2 = Model::new(
        &mut r,
        &mut gen2,
        Vbo::new(4, 0, VboFormat::Position(3)),
        Ebo::new(5, &[0, 1]),
        6,
        ShaderId(0),
        vec![],
        IDENTITY,
    );
    // The second generator reissued id 0, so its buffers were not re-loaded
    // and the model cannot be registered twice.
    assert!(r.load_model(m1).is_some());
    assert!(r.load_model(m2.unwrap()).is_none());
}

#[test]
fn use_model_binds_textures_in_order() {
    let mut r = renderer();
    let mut gen = IdGen::new();
    let shader = ShaderId(1);
    r.load_shader(shader, Shader::new(50));
    let t1 = TextureId(10);
    let t2 = TextureId(11);
    r.load_texture(t1, Texture::new(1, 2, 2));
    r.load_texture(t2, Texture::new(2, 2, 2));

    let model = Model::new(
        &mut r,
        &mut gen,
        Vbo::new(1, 0, VboFormat::Position(3)),
        Ebo::new(2, &[0, 1, 2]),
        3,
        shader,
        vec![(t1, 0, "diffuse".to_string()), (t2, 1, "normal".to_string())],
        IDENTITY,
    )
    .unwrap();
    let id = r.load_model(model).unwrap();

    assert_eq!(r.use_model(id), Some(3));
    // The last binding walked stays current.
    assert_eq!(r.bound_texture(), Some(t2));
    assert_eq!(r.active_shader(), Some(shader));
}

#[test]
fn use_texture_needs_texture_and_shader() {
    let mut r = renderer();
    let tex = TextureId(0);
    let shader = ShaderId(0);
    assert!(!r.use_texture(tex, 0, shader, "sampler"));
    r.load_texture(tex, Texture::new(1, 4, 4));
    assert!(!r.use_texture(tex, 0, shader, "sampler"));
    r.load_shader(shader, Shader::new(2));
    assert!(r.use_texture(tex, 0, shader, "sampler"));
    assert_eq!(r.bound_texture(), Some(tex));
}

#[test]
fn set_uniform_reports_whether_the_shader_exists() {
    let mut r = renderer();
    let id = ShaderId(2);
    assert!(!r.set_shader_uniform(id, "model", v39::resources::UniformValue::U32(1)));
    r.load_shader(id, Shader::new(8));
    assert!(r.set_shader_uniform(id, "model", v39::resources::UniformValue::Mat4(IDENTITY)));
}

#[test]
fn destroy_unloads_buffers_and_shaders() {
    let mut r = renderer();
    let id = ModelId(0);
    r.load_vbo(id, Vbo::new(1, 0, VboFormat::Position(3)));
    r.load_ebo(id, Ebo::new(2, &[0]));
    r.load_shader(ShaderId(0), Shader::new(3));
    r.load_texture(TextureId(0), Texture::new(4, 1, 1));
    r.use_vbo(id);
    r.destroy();
    assert!(!r.is_vbo_loaded(id));
    assert!(!r.is_ebo_loaded(id));
    assert!(!r.is_shader_loaded(ShaderId(0)));
    assert_eq!(r.bound_vbo(), None);
    // Textures are not part of the teardown path.
    assert!(r.get_texture(TextureId(0)).is_some());
}

#[test]
fn generated_ids_are_pairwise_distinct() {
    let mut gen = IdGen::new();
    let mut seen = Vec::new();
    for _ in 0..1000 {
        seen.push(ModelId::new(&mut gen));
    }
    for i in 0..seen.len() {
        for j in (i + 1)..seen.len() {
            assert_ne!(seen[i], seen[j]);
        }
    }
}

#[test]
fn id_kinds_count_independently() {
    let mut models = IdGen::new();
    let mut shaders = IdGen::new();
    let mut textures = IdGen::new();
    assert_eq!(ModelId::new(&mut models), ModelId(0));
    assert_eq!(ModelId::new(&mut models), ModelId(1));
    assert_eq!(ShaderId::new(&mut shaders), ShaderId(0));
    assert_eq!(TextureId::new(&mut textures), TextureId(0));
}
