//! The GPU resource registry.
//!
//! Resources live behind generated integer handles: loading inserts only if
//! the id is free (never silently replacing), unloading removes and reports
//! whether anything was there, and `get` hands out a shared reference-counted
//! handle that keeps the resource alive even after the registry entry is
//! unloaded.  The registry also models the context's current bindings — which
//! buffer, array object, program and texture are bound — so that the drawing
//! layer outside the library can mirror them with the actual graphics calls.

use std::collections::HashMap;
use std::rc::Rc;

use vstd::prelude::*;

use crate::error::{V39Error, V39Result};
use crate::ids::{ModelId, ShaderId, TextureId};
use crate::model::{Model, TextureBinding};
use crate::resources::{layout_of, vbo_layout, Ebo, Shader, Texture, UniformValue, Vbo, VertexAttrib};

verus! {

broadcast use vstd::std_specs::hash::group_hash_axioms;

/// Relies on std's `Rc::clone`: the clone is another handle to the same
/// allocation, so it carries the same value as the original.
#[verifier::external_body]
fn rc_clone<T>(rc: &Rc<T>) -> (r: Rc<T>)
    ensures
        r == *rc,
{
    Rc::clone(rc)
}

/// A vertex-array object: the context's raw handle, the registry ids of the
/// vertex and index buffers it ties together, the index count a draw over it
/// needs, and the vertex-attribute layout it was configured with.
pub struct Vao {
    buffer: u32,
    vbo: ModelId,
    ebo: ModelId,
    count: u32,
    attribs: Vec<VertexAttrib>,
}

impl Vao {
    pub closed spec fn spec_buffer(self) -> u32 {
        self.buffer
    }

    pub closed spec fn spec_vbo(self) -> ModelId {
        self.vbo
    }

    pub closed spec fn spec_ebo(self) -> ModelId {
        self.ebo
    }

    pub closed spec fn spec_count(self) -> u32 {
        self.count
    }

    pub closed spec fn spec_attribs(self) -> Seq<VertexAttrib> {
        self.attribs@
    }

    /// Builds a vertex-array object over buffers already in the registry:
    /// fails if either the vertex or the index buffer is not loaded.  On
    /// success the object carries the index buffer's element count and the
    /// attribute layout of the vertex buffer's declared format; the vertex
    /// buffer is bound while the object is configured and both scratch
    /// bindings are cleared afterwards.
    pub fn new<M>(renderer: &mut Renderer<M>, buffer: u32, vbo: ModelId, ebo: ModelId) -> (r:
        V39Result<Vao>)
        ensures
            match r {
                Ok(vao) => {
                    &&& old(renderer)@.vbos.contains_key(vbo.0)
                    &&& old(renderer)@.ebos.contains_key(ebo.0)
                    &&& vao.spec_buffer() == buffer
                    &&& vao.spec_vbo() == vbo
                    &&& vao.spec_ebo() == ebo
                    &&& vao.spec_count() == old(renderer)@.ebos[ebo.0].spec_count()
                    &&& vao.spec_attribs() == layout_of(old(renderer)@.vbos[vbo.0].spec_format())
                    &&& final(renderer)@ == (RendererView {
                        bound_vbo: None,
                        bound_ebo: None,
                        ..old(renderer)@
                    })
                },
                Err(e) => {
                    &&& !(old(renderer)@.vbos.contains_key(vbo.0) && old(
                        renderer,
                    )@.ebos.contains_key(ebo.0))
                    &&& e is Renderer
                    &&& !old(renderer)@.vbos.contains_key(vbo.0) ==> final(renderer)@ == old(
                        renderer,
                    )@
                    &&& old(renderer)@.vbos.contains_key(vbo.0) ==> final(renderer)@
                        == (RendererView { bound_vbo: Some(vbo), ..old(renderer)@ })
                },
            },
    {
        if !renderer.use_vbo(vbo) {
            return Err(V39Error::Renderer("the vertex buffer is not loaded".to_owned()));
        }
        if !renderer.is_ebo_loaded(ebo) {
            return Err(V39Error::Renderer("the index buffer is not loaded".to_owned()));
        }
        let vbo_obj = match renderer.get_vbo(vbo) {
            Some(v) => v,
            None => {
                return Err(V39Error::Renderer("the vertex buffer is not loaded".to_owned()));
            },
        };
        let ebo_obj = match renderer.get_ebo(ebo) {
            Some(e) => e,
            None => {
                return Err(V39Error::Renderer("the index buffer is not loaded".to_owned()));
            },
        };
        let format = vbo_obj.format();
        let attribs = vbo_layout(format);
        let count = ebo_obj.count();
        renderer.clear_vbo();
        renderer.clear_ebo();
        Ok(Vao { buffer, vbo, ebo, count, attribs })
    }

    /// The context's raw vertex-array handle.
    pub fn buffer(&self) -> (r: u32)
        ensures
            r == self.spec_buffer(),
    {
        self.buffer
    }

    /// The registry id of the vertex buffer the object ties in.
    pub fn vbo(&self) -> (r: ModelId)
        ensures
            r == self.spec_vbo(),
    {
        self.vbo
    }

    /// The registry id of the index buffer the object ties in.
    pub fn ebo(&self) -> (r: ModelId)
        ensures
            r == self.spec_ebo(),
    {
        self.ebo
    }

    /// The element count a draw over this object needs.
    pub fn count(&self) -> (r: u32)
        ensures
            r == self.spec_count(),
    {
        self.count
    }

    /// The vertex-attribute layout the object was configured with.
    pub fn attribs(&self) -> (r: &Vec<VertexAttrib>)
        ensures
            r@ == self.spec_attribs(),
    {
        &self.attribs
    }
}

/// The abstract state of the registry: the six resource maps, keyed by the
/// raw id of each handle, and the modelled context bindings.
pub struct RendererView<M> {
    pub shaders: Map<u32, Shader>,
    pub vbos: Map<u32, Vbo>,
    pub vaos: Map<u32, Vao>,
    pub ebos: Map<u32, Ebo>,
    pub textures: Map<u32, Texture>,
    pub models: Map<u32, Model<M>>,
    pub bound_vbo: Option<ModelId>,
    pub bound_ebo: Option<ModelId>,
    pub bound_vao: Option<ModelId>,
    pub active_shader: Option<ShaderId>,
    pub bound_texture: Option<TextureId>,
}

/// The texture that stays bound after a model's bindings are walked in order:
/// the last one that is present in the registry, if any.
pub open spec fn last_loaded_texture(
    texs: Seq<TextureBinding>,
    textures: Map<u32, Texture>,
) -> Option<TextureId>
    decreases texs.len(),
{
    if texs.len() == 0 {
        None
    } else {
        if textures.contains_key(texs.last().0.0) {
            Some(texs.last().0)
        } else {
            last_loaded_texture(texs.drop_last(), textures)
        }
    }
}

/// What loading does to a resource map: the value lands under the id only if
/// the id is free; an occupied id leaves the map untouched.  Every `load_*`
/// method's contract matches this shape.
pub open spec fn load_spec<T>(m: Map<u32, T>, id: u32, v: T) -> Map<u32, T> {
    if m.contains_key(id) {
        m
    } else {
        m.insert(id, v)
    }
}

/// Loading is idempotent: a second load of the same id finds the id occupied,
/// so it is a no-op — by the `load_*` contracts it returns false and leaves
/// the registry exactly as one load left it.
pub proof fn lemma_load_idempotent<T>(m: Map<u32, T>, id: u32, v: T, w: T)
    ensures
        load_spec(m, id, v).contains_key(id),
        load_spec(load_spec(m, id, v), id, w) == load_spec(m, id, v),
{
}

/// Unloading takes the id out: afterwards `is_loaded` reports false and `get`
/// returns nothing, by their contracts over the map.
pub proof fn lemma_unload_round_trip<T>(m: Map<u32, T>, id: u32)
    ensures
        !m.remove(id).contains_key(id),
{
}

/// The registry of GPU resources, generic over the application's matrix type.
pub struct Renderer<M> {
    shaders: HashMap<u32, Rc<Shader>>,
    vbos: HashMap<u32, Rc<Vbo>>,
    vaos: HashMap<u32, Rc<Vao>>,
    ebos: HashMap<u32, Rc<Ebo>>,
    textures: HashMap<u32, Rc<Texture>>,
    models: HashMap<u32, Model<M>>,
    bound_vbo: Option<ModelId>,
    bound_ebo: Option<ModelId>,
    bound_vao: Option<ModelId>,
    active_shader: Option<ShaderId>,
    bound_texture: Option<TextureId>,
}

impl<M> View for Renderer<M> {
    type V = RendererView<M>;

    closed spec fn view(&self) -> RendererView<M> {
        RendererView {
            shaders: self.shaders@.map_values(|v: Rc<Shader>| *v),
            vbos: self.vbos@.map_values(|v: Rc<Vbo>| *v),
            vaos: self.vaos@.map_values(|v: Rc<Vao>| *v),
            ebos: self.ebos@.map_values(|v: Rc<Ebo>| *v),
            textures: self.textures@.map_values(|v: Rc<Texture>| *v),
            models: self.models@,
            bound_vbo: self.bound_vbo,
            bound_ebo: self.bound_ebo,
            bound_vao: self.bound_vao,
            active_shader: self.active_shader,
            bound_texture: self.bound_texture,
        }
    }
}

impl<M> Renderer<M> {
    /// An empty registry with nothing bound.
    pub fn init() -> (r: Self)
        ensures
            r@.shaders =~= Map::<u32, Shader>::empty(),
            r@.vbos =~= Map::<u32, Vbo>::empty(),
            r@.vaos =~= Map::<u32, Vao>::empty(),
            r@.ebos =~= Map::<u32, Ebo>::empty(),
            r@.textures =~= Map::<u32, Texture>::empty(),
            r@.models == Map::<u32, Model<M>>::empty(),
            r@.bound_vbo is None,
            r@.bound_ebo is None,
            r@.bound_vao is None,
            r@.active_shader is None,
            r@.bound_texture is None,
    {
        Renderer {
            shaders: HashMap::new(),
            vbos: HashMap::new(),
            vaos: HashMap::new(),
            ebos: HashMap::new(),
            textures: HashMap::new(),
            models: HashMap::new(),
            bound_vbo: None,
            bound_ebo: None,
            bound_vao: None,
            active_shader: None,
            bound_texture: None,
        }
    }

    // ------------------------------------------------------------------
    // Shaders

    /// Inserts a shader under `id` only if the id is free; re-loading an
    /// existing id is a no-op that returns false.
    pub fn load_shader(&mut self, id: ShaderId, shader: Shader) -> (r: bool)
        ensures
            r == !old(self)@.shaders.contains_key(id.0),
            !r ==> final(self)@ == old(self)@,
            r ==> final(self)@ == (RendererView {
                shaders: old(self)@.shaders.insert(id.0, shader),
                ..old(self)@
            }),
    {
        if self.shaders.contains_key(&id.0) {
            return false;
        }
        self.shaders.insert(id.0, Rc::new(shader));
        proof {
            assert(self@.shaders =~= old(self)@.shaders.insert(id.0, shader));
        }
        true
    }

    /// Removes the shader under `id`, reporting whether anything was there.
    /// Outstanding references from `get_shader` keep the resource alive.
    pub fn unload_shader(&mut self, id: ShaderId) -> (r: bool)
        ensures
            r == old(self)@.shaders.contains_key(id.0),
            final(self)@ == (RendererView {
                shaders: old(self)@.shaders.remove(id.0),
                ..old(self)@
            }),
    {
        let removed = self.shaders.remove(&id.0);
        proof {
            assert(self@.shaders =~= old(self)@.shaders.remove(id.0));
        }
        removed.is_some()
    }

    /// Makes the shader under `id` the active program; fails without touching
    /// the binding if the id is not loaded.
    pub fn use_shader(&mut self, id: ShaderId) -> (r: bool)
        ensures
            r == old(self)@.shaders.contains_key(id.0),
            !r ==> final(self)@ == old(self)@,
            r ==> final(self)@ == (RendererView { active_shader: Some(id), ..old(self)@ }),
    {
        if self.shaders.contains_key(&id.0) {
            self.active_shader = Some(id);
            true
        } else {
            false
        }
    }

    /// Uploads a uniform to the shader under `id` by name.  The upload leaves
    /// no program active.  Fails if the id is not loaded; a name the program
    /// does not export is the context's to report.
    pub fn set_shader_uniform(&mut self, id: ShaderId, name: &str, val: UniformValue<M>) -> (r:
        bool)
        ensures
            r == old(self)@.shaders.contains_key(id.0),
            !r ==> final(self)@ == old(self)@,
            r ==> final(self)@ == (RendererView { active_shader: None, ..old(self)@ }),
    {
        let _ = name;
        let _ = val;
        if self.shaders.contains_key(&id.0) {
            self.active_shader = None;
            true
        } else {
            false
        }
    }

    /// Clears the active program.
    pub fn clear_shader(&mut self)
        ensures
            final(self)@ == (RendererView { active_shader: None, ..old(self)@ }),
    {
        self.active_shader = None;
    }

    pub fn is_shader_loaded(&self, id: ShaderId) -> (r: bool)
        ensures
            r == self@.shaders.contains_key(id.0),
    {
        self.shaders.contains_key(&id.0)
    }

    /// A shared handle to the shader under `id`; the registry entry may be
    /// unloaded while the handle lives, and the handle keeps the resource
    /// alive until dropped.
    pub fn get_shader(&self, id: ShaderId) -> (r: Option<Rc<Shader>>)
        ensures
            match r {
                Some(s) => self@.shaders.contains_key(id.0) && *s == self@.shaders[id.0],
                None => !self@.shaders.contains_key(id.0),
            },
    {
        match self.shaders.get(&id.0) {
            Some(s) => Some(rc_clone(s)),
            None => None,
        }
    }

    // ------------------------------------------------------------------
    // Vertex buffers

    /// Inserts a vertex buffer under `id` only if the id is free.
    pub fn load_vbo(&mut self, id: ModelId, vbo: Vbo) -> (r: bool)
        ensures
            r == !old(self)@.vbos.contains_key(id.0),
            !r ==> final(self)@ == old(self)@,
            r ==> final(self)@ == (RendererView {
                vbos: old(self)@.vbos.insert(id.0, vbo),
                ..old(self)@
            }),
    {
        if self.vbos.contains_key(&id.0) {
            return false;
        }
        self.vbos.insert(id.0, Rc::new(vbo));
        proof {
            assert(self@.vbos =~= old(self)@.vbos.insert(id.0, vbo));
        }
        true
    }

    /// Removes the vertex buffer under `id`.
    pub fn unload_vbo(&mut self, id: ModelId) -> (r: bool)
        ensures
            r == old(self)@.vbos.contains_key(id.0),
            final(self)@ == (RendererView { vbos: old(self)@.vbos.remove(id.0), ..old(self)@ }),
    {
        let removed = self.vbos.remove(&id.0);
        proof {
            assert(self@.vbos =~= old(self)@.vbos.remove(id.0));
        }
        removed.is_some()
    }

    /// Binds the vertex buffer under `id`; fails without touching the binding
    /// if the id is not loaded.
    pub fn use_vbo(&mut self, id: ModelId) -> (r: bool)
        ensures
            r == old(self)@.vbos.contains_key(id.0),
            !r ==> final(self)@ == old(self)@,
            r ==> final(self)@ == (RendererView { bound_vbo: Some(id), ..old(self)@ }),
    {
        if self.vbos.contains_key(&id.0) {
            self.bound_vbo = Some(id);
            true
        } else {
            false
        }
    }

    /// Clears the vertex-buffer binding.
    pub fn clear_vbo(&mut self)
        ensures
            final(self)@ == (RendererView { bound_vbo: None, ..old(self)@ }),
    {
        self.bound_vbo = None;
    }

    pub fn is_vbo_loaded(&self, id: ModelId) -> (r: bool)
        ensures
            r == self@.vbos.contains_key(id.0),
    {
        self.vbos.contains_key(&id.0)
    }

    /// A shared handle to the vertex buffer under `id`.
    pub fn get_vbo(&self, id: ModelId) -> (r: Option<Rc<Vbo>>)
        ensures
            match r {
                Some(v) => self@.vbos.contains_key(id.0) && *v == self@.vbos[id.0],
                None => !self@.vbos.contains_key(id.0),
            },
    {
        match self.vbos.get(&id.0) {
            Some(v) => Some(rc_clone(v)),
            None => None,
        }
    }

    // ------------------------------------------------------------------
    // Index buffers

    /// Inserts an index buffer under `id` only if the id is free.
    pub fn load_ebo(&mut self, id: ModelId, ebo: Ebo) -> (r: bool)
        ensures
            r == !old(self)@.ebos.contains_key(id.0),
            !r ==> final(self)@ == old(self)@,
            r ==> final(self)@ == (RendererView {
                ebos: old(self)@.ebos.insert(id.0, ebo),
                ..old(self)@
            }),
    {
        if self.ebos.contains_key(&id.0) {
            return false;
        }
        self.ebos.insert(id.0, Rc::new(ebo));
        proof {
            assert(self@.ebos =~= old(self)@.ebos.insert(id.0, ebo));
        }
        true
    }

    /// Removes the index buffer under `id`.
    pub fn unload_ebo(&mut self, id: ModelId) -> (r: bool)
        ensures
            r == old(self)@.ebos.contains_key(id.0),
            final(self)@ == (RendererView { ebos: old(self)@.ebos.remove(id.0), ..old(self)@ }),
    {
        let removed = self.ebos.remove(&id.0);
        proof {
            assert(self@.ebos =~= old(self)@.ebos.remove(id.0));
        }
        removed.is_some()
    }

    /// Binds the index buffer under `id`; fails without touching the binding
    /// if the id is not loaded.
    pub fn use_ebo(&mut self, id: ModelId) -> (r: bool)
        ensures
            r == old(self)@.ebos.contains_key(id.0),
            !r ==> final(self)@ == old(self)@,
            r ==> final(self)@ == (RendererView { bound_ebo: Some(id), ..old(self)@ }),
    {
        if self.ebos.contains_key(&id.0) {
            self.bound_ebo = Some(id);
            true
        } else {
            false
        }
    }

    /// Clears the index-buffer binding.
    pub fn clear_ebo(&mut self)
        ensures
            final(self)@ == (RendererView { bound_ebo: None, ..old(self)@ }),
    {
        self.bound_ebo = None;
    }

    pub fn is_ebo_loaded(&self, id: ModelId) -> (r: bool)
        ensures
            r == self@.ebos.contains_key(id.0),
    {
        self.ebos.contains_key(&id.0)
    }

    /// A shared handle to the index buffer under `id`.
    pub fn get_ebo(&self, id: ModelId) -> (r: Option<Rc<Ebo>>)
        ensures
            match r {
                Some(e) => self@.ebos.contains_key(id.0) && *e == self@.ebos[id.0],
                None => !self@.ebos.contains_key(id.0),
            },
    {
        match self.ebos.get(&id.0) {
            Some(e) => Some(rc_clone(e)),
            None => None,
        }
    }

    // ------------------------------------------------------------------
    // Vertex-array objects

    /// Inserts a vertex-array object under `id` only if the id is free.
    pub fn load_vao(&mut self, id: ModelId, vao: Vao) -> (r: bool)
        ensures
            r == !old(self)@.vaos.contains_key(id.0),
            !r ==> final(self)@ == old(self)@,
            r ==> final(self)@ == (RendererView {
                vaos: old(self)@.vaos.insert(id.0, vao),
                ..old(self)@
            }),
    {
        if self.vaos.contains_key(&id.0) {
            return false;
        }
        self.vaos.insert(id.0, Rc::new(vao));
        proof {
            assert(self@.vaos =~= old(self)@.vaos.insert(id.0, vao));
        }
        true
    }

    /// Removes the vertex-array object under `id`.
    pub fn unload_vao(&mut self, id: ModelId) -> (r: bool)
        ensures
            r == old(self)@.vaos.contains_key(id.0),
            final(self)@ == (RendererView { vaos: old(self)@.vaos.remove(id.0), ..old(self)@ }),
    {
        let removed = self.vaos.remove(&id.0);
        proof {
            assert(self@.vaos =~= old(self)@.vaos.remove(id.0));
        }
        removed.is_some()
    }

    /// Binds the vertex-array object under `id` and, with it, the vertex and
    /// index buffers it ties together (when they are still loaded); returns
    /// the element count a draw needs.  Fails with nothing touched if the id
    /// is not loaded.
    pub fn use_vao(&mut self, id: ModelId) -> (r: Option<u32>)
        ensures
            match r {
                Some(count) => {
                    &&& old(self)@.vaos.contains_key(id.0)
                    &&& count == old(self)@.vaos[id.0].spec_count()
                    &&& final(self)@ == (RendererView {
                        bound_vbo: if old(self)@.vbos.contains_key(
                            old(self)@.vaos[id.0].spec_vbo().0,
                        ) {
                            Some(old(self)@.vaos[id.0].spec_vbo())
                        } else {
                            old(self)@.bound_vbo
                        },
                        bound_ebo: if old(self)@.ebos.contains_key(
                            old(self)@.vaos[id.0].spec_ebo().0,
                        ) {
                            Some(old(self)@.vaos[id.0].spec_ebo())
                        } else {
                            old(self)@.bound_ebo
                        },
                        bound_vao: Some(id),
                        ..old(self)@
                    })
                },
                None => !old(self)@.vaos.contains_key(id.0) && final(self)@ == old(self)@,
            },
    {
        let (vbo_id, ebo_id, count) = match self.vaos.get(&id.0) {
            Some(vao) => (vao.vbo(), vao.ebo(), vao.count()),
            None => {
                return None;
            },
        };
        self.use_vbo(vbo_id);
        self.use_ebo(ebo_id);
        self.bound_vao = Some(id);
        Some(count)
    }

    /// Clears the vertex-array binding.
    pub fn clear_vao(&mut self)
        ensures
            final(self)@ == (RendererView { bound_vao: None, ..old(self)@ }),
    {
        self.bound_vao = None;
    }

    /// A shared handle to the vertex-array object under `id`.
    pub fn get_vao(&self, id: ModelId) -> (r: Option<Rc<Vao>>)
        ensures
            match r {
                Some(v) => self@.vaos.contains_key(id.0) && *v == self@.vaos[id.0],
                None => !self@.vaos.contains_key(id.0),
            },
    {
        match self.vaos.get(&id.0) {
            Some(v) => Some(rc_clone(v)),
            None => None,
        }
    }

    // ------------------------------------------------------------------
    // Textures

    /// Inserts a texture under `id` only if the id is free.
    pub fn load_texture(&mut self, id: TextureId, texture: Texture) -> (r: bool)
        ensures
            r == !old(self)@.textures.contains_key(id.0),
            !r ==> final(self)@ == old(self)@,
            r ==> final(self)@ == (RendererView {
                textures: old(self)@.textures.insert(id.0, texture),
                ..old(self)@
            }),
    {
        if self.textures.contains_key(&id.0) {
            return false;
        }
        self.textures.insert(id.0, Rc::new(texture));
        proof {
            assert(self@.textures =~= old(self)@.textures.insert(id.0, texture));
        }
        true
    }

    /// Removes the texture under `id`.
    pub fn unload_texture(&mut self, id: TextureId) -> (r: bool)
        ensures
            r == old(self)@.textures.contains_key(id.0),
            final(self)@ == (RendererView {
                textures: old(self)@.textures.remove(id.0),
                ..old(self)@
            }),
    {
        let removed = self.textures.remove(&id.0);
        proof {
            assert(self@.textures =~= old(self)@.textures.remove(id.0));
        }
        removed.is_some()
    }

    /// Binds the texture under `id` to a unit and points a sampler of the
    /// shader at it; succeeds exactly when both the texture and the shader
    /// are loaded, leaving the texture bound and the shader's program active.
    /// A sampler name the program does not export is the context's to warn
    /// about; it does not fail the call.
    pub fn use_texture(&mut self, id: TextureId, unit: u32, shader: ShaderId, sampler_name: &str)
        -> (r: bool)
        ensures
            r == (old(self)@.textures.contains_key(id.0) && old(self)@.shaders.contains_key(
                shader.0,
            )),
            !r ==> final(self)@ == old(self)@,
            r ==> final(self)@ == (RendererView {
                bound_texture: Some(id),
                active_shader: Some(shader),
                ..old(self)@
            }),
    {
        let _ = unit;
        let _ = sampler_name;
        self.bind_texture(id, shader)
    }

    /// The binding step shared by `use_texture` and `use_model`.
    fn bind_texture(&mut self, id: TextureId, shader: ShaderId) -> (r: bool)
        ensures
            r == (old(self)@.textures.contains_key(id.0) && old(self)@.shaders.contains_key(
                shader.0,
            )),
            !r ==> final(self)@ == old(self)@,
            r ==> final(self)@ == (RendererView {
                bound_texture: Some(id),
                active_shader: Some(shader),
                ..old(self)@
            }),
    {
        if self.textures.contains_key(&id.0) && self.shaders.contains_key(&shader.0) {
            self.bound_texture = Some(id);
            self.active_shader = Some(shader);
            true
        } else {
            false
        }
    }

    /// Clears the texture binding.
    pub fn clear_texture(&mut self)
        ensures
            final(self)@ == (RendererView { bound_texture: None, ..old(self)@ }),
    {
        self.bound_texture = None;
    }

    /// A shared handle to the texture under `id`.
    pub fn get_texture(&self, id: TextureId) -> (r: Option<Rc<Texture>>)
        ensures
            match r {
                Some(t) => self@.textures.contains_key(id.0) && *t == self@.textures[id.0],
                None => !self@.textures.contains_key(id.0),
            },
    {
        match self.textures.get(&id.0) {
            Some(t) => Some(rc_clone(t)),
            None => None,
        }
    }

    // ------------------------------------------------------------------
    // Models

    /// Inserts a model under its own id only if the id is free, returning the
    /// id on success; re-loading an existing id is a no-op returning nothing.
    pub fn load_model(&mut self, model: Model<M>) -> (r: Option<ModelId>)
        ensures
            r == (if old(self)@.models.contains_key(model.spec_id().0) {
                Option::<ModelId>::None
            } else {
                Some(model.spec_id())
            }),
            r is None ==> final(self)@ == old(self)@,
            r is Some ==> final(self)@ == (RendererView {
                models: old(self)@.models.insert(model.spec_id().0, model),
                ..old(self)@
            }),
    {
        let id = model.id();
        if self.models.contains_key(&id.0) {
            return None;
        }
        self.models.insert(id.0, model);
        Some(id)
    }

    /// Removes the model under `id`.
    pub fn unload_model(&mut self, id: ModelId) -> (r: bool)
        ensures
            r == old(self)@.models.contains_key(id.0),
            final(self)@ == (RendererView { models: old(self)@.models.remove(id.0), ..old(self)@ }),
    {
        self.models.remove(&id.0).is_some()
    }

    /// Borrows the model under `id`.
    pub fn get_model(&self, id: ModelId) -> (r: Option<&Model<M>>)
        ensures
            match r {
                Some(m) => self@.models.contains_key(id.0) && *m == self@.models[id.0],
                None => !self@.models.contains_key(id.0),
            },
    {
        self.models.get(&id.0)
    }

    /// Replaces the transform of the model under `id` wholesale, reporting
    /// whether the model exists.
    pub fn transform_model(&mut self, id: ModelId, transform: M) -> (r: bool)
        ensures
            r == old(self)@.models.contains_key(id.0),
            !r ==> final(self)@ == old(self)@,
            r ==> final(self)@.models.contains_key(id.0) && final(self)@.models[id.0].spec_transform()
                == transform && final(self)@.models[id.0].spec_id() == old(
                self,
            )@.models[id.0].spec_id() && final(self)@.models[id.0].spec_shader() == old(
                self,
            )@.models[id.0].spec_shader() && final(self)@.models[id.0].spec_textures() == old(
                self,
            )@.models[id.0].spec_textures() && final(self)@ == (RendererView {
                models: old(self)@.models.insert(id.0, final(self)@.models[id.0]),
                ..old(self)@
            }),
    {
        match self.models.remove(&id.0) {
            Some(model) => {
                let mut model = model;
                model.transform(transform);
                self.models.insert(id.0, model);
                proof {
                    assert(self@.models =~= old(self)@.models.insert(id.0, self@.models[id.0]));
                }
                true
            },
            None => {
                proof {
                    assert(self@.models =~= old(self)@.models);
                }
                false
            },
        }
    }

    /// Prepares the model under `id` for a draw: binds its vertex-array
    /// object (and with it the model's buffers), binds its textures in order,
    /// and activates its shader.  Returns the element count the draw needs,
    /// or nothing when the model or its vertex-array object is missing.
    pub fn use_model(&mut self, id: ModelId) -> (r: Option<u32>)
        ensures
            ({
                let pre = old(self)@;
                let post = final(self)@;
                if !pre.models.contains_key(id.0) {
                    r is None && post == pre
                } else {
                    let m = pre.models[id.0];
                    let shader_loaded = pre.shaders.contains_key(m.spec_shader().0);
                    &&& r == (if pre.vaos.contains_key(id.0) {
                        Some(pre.vaos[id.0].spec_count())
                    } else {
                        Option::<u32>::None
                    })
                    &&& post.shaders == pre.shaders
                    &&& post.vbos == pre.vbos
                    &&& post.vaos == pre.vaos
                    &&& post.ebos == pre.ebos
                    &&& post.textures == pre.textures
                    &&& post.models == pre.models
                    &&& post.bound_vao == (if pre.vaos.contains_key(id.0) {
                        Some(id)
                    } else {
                        pre.bound_vao
                    })
                    &&& post.bound_vbo == (if pre.vaos.contains_key(id.0) && pre.vbos.contains_key(
                        pre.vaos[id.0].spec_vbo().0,
                    ) {
                        Some(pre.vaos[id.0].spec_vbo())
                    } else {
                        pre.bound_vbo
                    })
                    &&& post.bound_ebo == (if pre.vaos.contains_key(id.0) && pre.ebos.contains_key(
                        pre.vaos[id.0].spec_ebo().0,
                    ) {
                        Some(pre.vaos[id.0].spec_ebo())
                    } else {
                        pre.bound_ebo
                    })
                    &&& post.bound_texture == (if shader_loaded {
                        match last_loaded_texture(m.spec_textures(), pre.textures) {
                            Some(t) => Some(t),
                            None => pre.bound_texture,
                        }
                    } else {
                        pre.bound_texture
                    })
                    &&& post.active_shader == (if shader_loaded {
                        Some(m.spec_shader())
                    } else {
                        pre.active_shader
                    })
                }
            }),
    {
        if !self.models.contains_key(&id.0) {
            return None;
        }
        let count = self.use_vao(id);
        let ghost base = self@;
        let shader = match self.models.get(&id.0) {
            Some(m) => m.shader(),
            None => {
                return None;
            },
        };
        let num_textures = match self.models.get(&id.0) {
            Some(m) => m.textures().len(),
            None => {
                return None;
            },
        };
        let ghost texs = old(self)@.models[id.0].spec_textures();
        let mut i: usize = 0;
        while i < num_textures
            invariant
                0 <= i <= texs.len(),
                num_textures == texs.len(),
                self@.models.contains_key(id.0),
                self@.models[id.0].spec_textures() == texs,
                self@.shaders == old(self)@.shaders,
                self@.vbos == old(self)@.vbos,
                self@.vaos == old(self)@.vaos,
                self@.ebos == old(self)@.ebos,
                self@.textures == old(self)@.textures,
                self@.models == old(self)@.models,
                shader == self@.models[id.0].spec_shader(),
                self@.bound_vao == base.bound_vao,
                self@.bound_vbo == base.bound_vbo,
                self@.bound_ebo == base.bound_ebo,
                self@.bound_texture == (if self@.shaders.contains_key(shader.0) {
                    match last_loaded_texture(texs.take(i as int), self@.textures) {
                        Some(t) => Some(t),
                        None => base.bound_texture,
                    }
                } else {
                    base.bound_texture
                }),
                self@.active_shader == (if self@.shaders.contains_key(shader.0)
                    && last_loaded_texture(texs.take(i as int), self@.textures) is Some {
                    Some(shader)
                } else {
                    base.active_shader
                }),
            decreases texs.len() - i,
        {
            let texture = match self.models.get(&id.0) {
                Some(m) => {
                    let binding = &m.textures()[i];
                    binding.0
                },
                None => {
                    return None;
                },
            };
            self.bind_texture(texture, shader);
            proof {
                assert(texs.take(i + 1).drop_last() =~= texs.take(i as int));
                assert(texs.take(i + 1).last() == texs[i as int]);
            }
            i = i + 1;
        }
        proof {
            assert(texs.take(texs.len() as int) =~= texs);
        }
        self.use_shader(shader);
        count
    }

    /// Prepares the model for a draw and reports whether a draw can go ahead;
    /// the drawing layer issues the actual draw call with the element count
    /// from `use_model`.  The bindings change exactly as `use_model` changes
    /// them.
    pub fn draw_model(&mut self, id: ModelId) -> (r: bool)
        ensures
            r == (old(self)@.models.contains_key(id.0) && old(self)@.vaos.contains_key(id.0)),
            ({
                let pre = old(self)@;
                let post = final(self)@;
                if !pre.models.contains_key(id.0) {
                    post == pre
                } else {
                    let m = pre.models[id.0];
                    let shader_loaded = pre.shaders.contains_key(m.spec_shader().0);
                    &&& post.shaders == pre.shaders
                    &&& post.vbos == pre.vbos
                    &&& post.vaos == pre.vaos
                    &&& post.ebos == pre.ebos
                    &&& post.textures == pre.textures
                    &&& post.models == pre.models
                    &&& post.bound_vao == (if pre.vaos.contains_key(id.0) {
                        Some(id)
                    } else {
                        pre.bound_vao
                    })
                    &&& post.bound_vbo == (if pre.vaos.contains_key(id.0) && pre.vbos.contains_key(
                        pre.vaos[id.0].spec_vbo().0,
                    ) {
                        Some(pre.vaos[id.0].spec_vbo())
                    } else {
                        pre.bound_vbo
                    })
                    &&& post.bound_ebo == (if pre.vaos.contains_key(id.0) && pre.ebos.contains_key(
                        pre.vaos[id.0].spec_ebo().0,
                    ) {
                        Some(pre.vaos[id.0].spec_ebo())
                    } else {
                        pre.bound_ebo
                    })
                    &&& post.bound_texture == (if shader_loaded {
                        match last_loaded_texture(m.spec_textures(), pre.textures) {
                            Some(t) => Some(t),
                            None => pre.bound_texture,
                        }
                    } else {
                        pre.bound_texture
                    })
                    &&& post.active_shader == (if shader_loaded {
                        Some(m.spec_shader())
                    } else {
                        pre.active_shader
                    })
                }
            }),
    {
        let count = self.use_model(id);
        count.is_some()
    }

    // ------------------------------------------------------------------
    // Bindings and teardown

    /// The id of the vertex buffer currently bound, if any.
    pub fn bound_vbo(&self) -> (r: Option<ModelId>)
        ensures
            r == self@.bound_vbo,
    {
        self.bound_vbo
    }

    /// The id of the index buffer currently bound, if any.
    pub fn bound_ebo(&self) -> (r: Option<ModelId>)
        ensures
            r == self@.bound_ebo,
    {
        self.bound_ebo
    }

    /// The id of the vertex-array object currently bound, if any.
    pub fn bound_vao(&self) -> (r: Option<ModelId>)
        ensures
            r == self@.bound_vao,
    {
        self.bound_vao
    }

    /// The id of the shader program currently active, if any.
    pub fn active_shader(&self) -> (r: Option<ShaderId>)
        ensures
            r == self@.active_shader,
    {
        self.active_shader
    }

    /// The id of the texture currently bound, if any.
    pub fn bound_texture(&self) -> (r: Option<TextureId>)
        ensures
            r == self@.bound_texture,
    {
        self.bound_texture
    }

    /// Tears the registry down: clears every binding and unloads the vertex
    /// buffers, index buffers and shaders.
    pub fn destroy(&mut self)
        ensures
            final(self)@ == (RendererView {
                shaders: Map::<u32, Shader>::empty(),
                vbos: Map::<u32, Vbo>::empty(),
                ebos: Map::<u32, Ebo>::empty(),
                bound_vbo: None,
                bound_ebo: None,
                bound_vao: None,
                active_shader: None,
                ..old(self)@
            }),
    {
        self.clear_vbo();
        self.clear_ebo();
        self.clear_vao();
        self.clear_shader();
        self.vbos.clear();
        self.ebos.clear();
        self.shaders.clear();
        proof {
            assert(self@.vbos =~= Map::<u32, Vbo>::empty());
            assert(self@.ebos =~= Map::<u32, Ebo>::empty());
            assert(self@.shaders =~= Map::<u32, Shader>::empty());
        }
    }
}

} // verus!
