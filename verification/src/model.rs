//! Composite models.
//!
//! A model ties together the GPU buffers registered under its own id, the
//! shader that draws it, its texture bindings and its transform.  The
//! transform's matrix type is the application's own: the engine never looks
//! inside it, it only stores and replaces it whole.

use vstd::prelude::*;

use crate::error::V39Result;
use crate::ids::{IdGen, ModelId, ShaderId, TextureId};
use crate::renderer::{Renderer, Vao};
use crate::resources::{layout_of, Ebo, Vbo};

verus! {

/// One texture binding of a model: the texture, the texture unit it binds
/// to, and the sampler name it feeds in the shader.
pub type TextureBinding = (TextureId, u32, String);

/// What registering a fresh model's buffers does to the registry when the
/// fresh id was free in all three maps: the vertex and index buffers land
/// under the id, and so does a vertex-array object carrying the index
/// buffer's count and the vertex buffer's attribute layout.
pub open spec fn registers_fresh_model<M>(
    pre: crate::renderer::RendererView<M>,
    post: crate::renderer::RendererView<M>,
    fresh: u32,
    vbo: Vbo,
    ebo: Ebo,
) -> bool {
    &&& post.vbos =~= pre.vbos.insert(fresh, vbo)
    &&& post.ebos =~= pre.ebos.insert(fresh, ebo)
    &&& post.vaos.contains_key(fresh)
    &&& post.vaos[fresh].spec_vbo().0 == fresh
    &&& post.vaos[fresh].spec_ebo().0 == fresh
    &&& post.vaos[fresh].spec_count() == ebo.spec_count()
    &&& post.vaos[fresh].spec_attribs() == layout_of(vbo.spec_format())
    &&& post.vaos =~= pre.vaos.insert(fresh, post.vaos[fresh])
}

/// A drawable model: its id (under which its vertex, index and array buffers
/// are registered), its transform, its shader and its texture bindings.
pub struct Model<M> {
    id: ModelId,
    transform: M,
    shader: ShaderId,
    textures: Vec<TextureBinding>,
}

impl<M> Model<M> {
    pub closed spec fn spec_id(self) -> ModelId {
        self.id
    }

    pub closed spec fn spec_transform(self) -> M {
        self.transform
    }

    pub closed spec fn spec_shader(self) -> ShaderId {
        self.shader
    }

    pub closed spec fn spec_textures(self) -> Seq<TextureBinding> {
        self.textures@
    }

    /// Builds a model and registers its GPU buffers: a fresh id is drawn, the
    /// vertex and index buffers are loaded under it, and a vertex-array
    /// object tying them together is built and loaded under it too — a
    /// model's buffers share its id.  When the fresh id was not in use, the
    /// three registries each gain exactly that entry, and the vertex-array
    /// object carries the index count and the vertex layout of the buffers.
    pub fn new(
        renderer: &mut Renderer<M>,
        gen: &mut IdGen,
        vbo: Vbo,
        ebo: Ebo,
        vao_buffer: u32,
        shader: ShaderId,
        textures: Vec<TextureBinding>,
        transform: M,
    ) -> (r: V39Result<Self>)
        requires
            old(gen).spec_next() < u32::MAX,
        ensures
            final(gen).spec_next() == old(gen).spec_next() + 1,
            r is Ok,
            ({
                let fresh = old(gen).spec_next();
                let m = r->Ok_0;
                &&& m.spec_id().0 == fresh
                &&& m.spec_transform() == transform
                &&& m.spec_shader() == shader
                &&& m.spec_textures() == textures@
                &&& final(renderer)@.shaders == old(renderer)@.shaders
                &&& final(renderer)@.textures == old(renderer)@.textures
                &&& final(renderer)@.models == old(renderer)@.models
                &&& (!old(renderer)@.vbos.contains_key(fresh) && !old(
                    renderer,
                )@.ebos.contains_key(fresh) && !old(renderer)@.vaos.contains_key(fresh))
                    ==> registers_fresh_model(old(renderer)@, final(renderer)@, fresh, vbo, ebo)
            }),
    {
        let id = ModelId::new(gen);
        let ghost fresh = id.0;
        renderer.load_vbo(id, vbo);
        renderer.load_ebo(id, ebo);
        let vao = match Vao::new(renderer, vao_buffer, id, id) {
            Ok(vao) => vao,
            Err(e) => {
                proof {
                    assert(false);
                }
                return Err(e);
            },
        };
        renderer.load_vao(id, vao);
        Ok(Model { id, transform, shader, textures })
    }

    /// The model's id.
    pub fn id(&self) -> (r: ModelId)
        ensures
            r == self.spec_id(),
    {
        self.id
    }

    /// The shader that draws the model.
    pub fn shader(&self) -> (r: ShaderId)
        ensures
            r == self.spec_shader(),
    {
        self.shader
    }

    /// The model's texture bindings, in binding order.
    pub fn textures(&self) -> (r: &Vec<TextureBinding>)
        ensures
            r@ == self.spec_textures(),
    {
        &self.textures
    }

    /// Replaces the transform wholesale — there are no partial updates.
    pub fn transform(&mut self, transform: M)
        ensures
            final(self).spec_transform() == transform,
            final(self).spec_id() == old(self).spec_id(),
            final(self).spec_shader() == old(self).spec_shader(),
            final(self).spec_textures() == old(self).spec_textures(),
    {
        self.transform = transform;
    }

    /// The current transform.
    pub fn get_transform(&self) -> (r: &M)
        ensures
            r == self.spec_transform(),
    {
        &self.transform
    }
}

} // verus!
