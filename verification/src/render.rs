//! Scene data and the brushes that prepare a draw.
//!
//! A brush is made once and owns the uniform storage of its shading
//! pipeline. Each draw rewrites that storage in full from the scene data it
//! is given and returns what the host needs to submit the draw; a draw that
//! is refused leaves the storage as it was.

use crate::light::{DirLight, PointLight};
use crate::texture::{framed, load_texture, RgbaImage, Texture, TextureError, TextureView};
use crate::words::{check_positive, is_positive, Mat4, Words2, Words3};
use vstd::prelude::*;

verus! {

/// The number of point lights that the shading pipeline reads; a draw with
/// more is refused.
pub const MAX_POINT_LIGHTS: usize = 4;

/// One corner of a triangle.
#[derive(Clone, Copy, Debug, PartialEq, Eq)]
pub struct Vertex {
    pub pos: Words3,
    pub normal: Words3,
    pub uv: Words2,
}

impl Vertex {
    pub fn new(pos: Words3, normal: Words3, uv: Words2) -> (vertex: Vertex)
        ensures
            vertex == (Vertex { pos, normal, uv }),
    {
        Vertex { pos, normal, uv }
    }
}

/// The three matrices of one draw: object to world, world to camera, camera
/// to clip space.
#[derive(Clone, Copy, Debug, PartialEq, Eq)]
pub struct Transform {
    pub model: Mat4,
    pub view: Mat4,
    pub projection: Mat4,
}

impl Transform {
    pub open spec fn zero() -> Transform {
        Transform { model: Mat4::zero(), view: Mat4::zero(), projection: Mat4::zero() }
    }
}

/// Why there is no material.
#[derive(Clone, Copy, Debug, PartialEq, Eq)]
pub enum MaterialError {
    /// The diffuse texture could not be made.
    Diffuse(TextureError),
    /// The specular texture could not be made.
    Specular(TextureError),
    /// The shininess does not read as a number greater than zero.
    Shininess,
}

/// What a [`Material`] stands for in contracts.
pub ghost struct MaterialView {
    pub diffuse: TextureView,
    pub specular: TextureView,
    pub shininess: u32,
}

/// How a surface answers to light. A material does not change once made.
pub struct Material {
    diffuse: Texture,
    specular: Texture,
    shininess: u32,
}

impl View for Material {
    type V = MaterialView;

    closed spec fn view(&self) -> MaterialView {
        MaterialView {
            diffuse: self.diffuse@,
            specular: self.specular@,
            shininess: self.shininess,
        }
    }
}

/// The material made of two texture results and a shininess. The diffuse
/// texture is looked at first, then the specular one, then the shininess.
pub open spec fn assembled(
    diffuse: Result<TextureView, TextureError>,
    specular: Result<TextureView, TextureError>,
    shininess: u32,
) -> Result<MaterialView, MaterialError> {
    match diffuse {
        Err(error) => Err(MaterialError::Diffuse(error)),
        Ok(diffuse) => match specular {
            Err(error) => Err(MaterialError::Specular(error)),
            Ok(specular) => if is_positive(shininess) {
                Ok(MaterialView { diffuse, specular, shininess })
            } else {
                Err(MaterialError::Shininess)
            },
        },
    }
}

/// Whether `result` is `model` with the material taken by its view.
pub open spec fn material_result_is(
    result: Result<Material, MaterialError>,
    model: Result<MaterialView, MaterialError>,
) -> bool {
    match result {
        Ok(material) => model == Ok::<MaterialView, MaterialError>(material@),
        Err(error) => model == Err::<MaterialView, MaterialError>(error),
    }
}

impl Material {
    #[verifier::type_invariant]
    closed spec fn inv(self) -> bool {
        is_positive(self.shininess)
    }

    /// Makes a material of its two decoded images: loads the diffuse
    /// texture, then the specular one, and keeps the shininess word for word.
    pub fn new(diffuse: RgbaImage, specular: RgbaImage, shininess: u32) -> (result: Result<
        Material,
        MaterialError,
    >)
        ensures
            material_result_is(
                result,
                assembled(
                    framed(diffuse.width, diffuse.height, diffuse.pixels@),
                    framed(specular.width, specular.height, specular.pixels@),
                    shininess,
                ),
            ),
    {
        let diffuse = match load_texture(diffuse) {
            Ok(texture) => texture,
            Err(error) => {
                return Err(MaterialError::Diffuse(error));
            },
        };
        let specular = match load_texture(specular) {
            Ok(texture) => texture,
            Err(error) => {
                return Err(MaterialError::Specular(error));
            },
        };
        Material::from_textures(diffuse, specular, shininess)
    }

    /// Makes a material of two textures.
    pub fn from_textures(diffuse: Texture, specular: Texture, shininess: u32) -> (result: Result<
        Material,
        MaterialError,
    >)
        ensures
            material_result_is(result, assembled(Ok(diffuse@), Ok(specular@), shininess)),
    {
        if check_positive(shininess) {
            Ok(Material { diffuse, specular, shininess })
        } else {
            Err(MaterialError::Shininess)
        }
    }

    pub fn diffuse(&self) -> (texture: &Texture)
        ensures
            texture@ == self@.diffuse,
    {
        &self.diffuse
    }

    pub fn specular(&self) -> (texture: &Texture)
        ensures
            texture@ == self@.specular,
    {
        &self.specular
    }

    /// The shininess; it reads as a number greater than zero.
    pub fn shininess(&self) -> (word: u32)
        ensures
            word == self@.shininess,
            is_positive(word),
    {
        proof {
            use_type_invariant(self);
        }
        self.shininess
    }
}

/// Names a material of an arena.
#[derive(Clone, Copy, Debug, PartialEq, Eq)]
pub struct MaterialId(pub usize);

/// The materials of a scene. Objects share a material by naming it; a
/// material lives as long as the arena, and none is ever taken out.
pub struct MaterialArena {
    items: Vec<Material>,
}

impl View for MaterialArena {
    type V = Seq<MaterialView>;

    closed spec fn view(&self) -> Seq<MaterialView> {
        Seq::new(self.items@.len(), |i: int| self.items@[i]@)
    }
}

impl MaterialArena {
    pub fn new() -> (arena: MaterialArena)
        ensures
            arena@ == Seq::<MaterialView>::empty(),
    {
        MaterialArena { items: Vec::new() }
    }

    /// Adds a material and returns its name, which is its place in the
    /// arena.
    pub fn add(&mut self, material: Material) -> (id: MaterialId)
        ensures
            id.0 == old(self)@.len(),
            final(self)@ == old(self)@.push(material@),
    {
        let id = MaterialId(self.items.len());
        self.items.push(material);
        id
    }

    pub fn len(&self) -> (n: usize)
        ensures
            n == self@.len(),
    {
        self.items.len()
    }

    /// The material that `id` names, if the arena holds one.
    pub fn get(&self, id: MaterialId) -> (material: Option<&Material>)
        ensures
            match material {
                Some(m) => id.0 < self@.len() && m@ == self@[id.0 as int],
                None => id.0 >= self@.len(),
            },
    {
        if id.0 < self.items.len() {
            Some(&self.items[id.0])
        } else {
            None
        }
    }
}

/// What an [`Object`] stands for in contracts.
pub ghost struct ObjectView {
    pub vertices: Seq<Vertex>,
    pub model_mat: Mat4,
    pub material: MaterialId,
}

/// A lit object: geometry, where it stands, and what it is made of.
pub struct Object {
    vertices: Vec<Vertex>,
    model_mat: Mat4,
    material: MaterialId,
}

impl View for Object {
    type V = ObjectView;

    closed spec fn view(&self) -> ObjectView {
        ObjectView {
            vertices: self.vertices@,
            model_mat: self.model_mat,
            material: self.material,
        }
    }
}

impl Object {
    pub fn new(vertices: Vec<Vertex>, model_mat: Mat4, material: MaterialId) -> (object: Object)
        ensures
            object@ == (ObjectView { vertices: vertices@, model_mat, material }),
    {
        Object { vertices, model_mat, material }
    }

    /// The geometry, which never changes.
    pub fn vertices(&self) -> (vertices: &Vec<Vertex>)
        ensures
            vertices@ == self@.vertices,
    {
        &self.vertices
    }

    pub fn model_mat(&self) -> (m: Mat4)
        ensures
            m == self@.model_mat,
    {
        self.model_mat
    }

    pub fn material(&self) -> (id: MaterialId)
        ensures
            id == self@.material,
    {
        self.material
    }

    /// Moves the object: replaces its model matrix.
    pub fn set_model_mat(&mut self, model_mat: Mat4)
        ensures
            final(self)@ == (ObjectView { model_mat, ..old(self)@ }),
    {
        self.model_mat = model_mat;
    }
}

/// What a [`Lamp`] stands for in contracts.
pub ghost struct LampView {
    pub vertices: Seq<Vertex>,
    pub model_mat: Mat4,
    pub color: Words3,
}

/// A marker drawn in one flat colour where a light stands.
pub struct Lamp {
    vertices: Vec<Vertex>,
    model_mat: Mat4,
    color: Words3,
}

impl View for Lamp {
    type V = LampView;

    closed spec fn view(&self) -> LampView {
        LampView { vertices: self.vertices@, model_mat: self.model_mat, color: self.color }
    }
}

impl Lamp {
    pub fn new(vertices: Vec<Vertex>, model_mat: Mat4, color: Words3) -> (lamp: Lamp)
        ensures
            lamp@ == (LampView { vertices: vertices@, model_mat, color }),
    {
        Lamp { vertices, model_mat, color }
    }

    /// The geometry, which never changes.
    pub fn vertices(&self) -> (vertices: &Vec<Vertex>)
        ensures
            vertices@ == self@.vertices,
    {
        &self.vertices
    }

    pub fn model_mat(&self) -> (m: Mat4)
        ensures
            m == self@.model_mat,
    {
        self.model_mat
    }

    pub fn color(&self) -> (c: Words3)
        ensures
            c == self@.color,
    {
        self.color
    }

    /// Moves the lamp: replaces its model matrix.
    pub fn set_model_mat(&mut self, model_mat: Mat4)
        ensures
            final(self)@ == (LampView { model_mat, ..old(self)@ }),
    {
        self.model_mat = model_mat;
    }
}

/// Why a draw was refused.
#[derive(Clone, Copy, Debug, PartialEq, Eq)]
pub enum DrawError {
    /// More point lights than `MAX_POINT_LIGHTS`.
    TooManyPointLights,
    /// The object names a material that the arena does not hold.
    UnknownMaterial,
}

/// What the host binds to submit the draw of an object.
#[derive(Clone, Copy, Debug, PartialEq, Eq)]
pub struct ObjectDraw {
    /// How many vertices to draw, from the first.
    pub vertex_count: usize,
    /// The material whose two textures to bind.
    pub material: MaterialId,
    pub shininess: u32,
    /// How many of the point light slots hold a light of the scene.
    pub light_count: usize,
}

/// What the host binds to submit the draw of a lamp.
#[derive(Clone, Copy, Debug, PartialEq, Eq)]
pub struct LampDraw {
    /// How many vertices to draw, from the first.
    pub vertex_count: usize,
    pub color: Words3,
}

/// The point light slots for a scene's lights: the lights in their order,
/// then lights that add nothing, up to `MAX_POINT_LIGHTS`.
pub open spec fn padded(lights: Seq<PointLight>) -> Seq<PointLight> {
    Seq::new(
        MAX_POINT_LIGHTS as nat,
        |i: int|
            if i < lights.len() {
                lights[i]
            } else {
                PointLight::unlit()
            },
    )
}

/// Whether the draw of `object` is taken, and what it binds.
///
/// The number of lights is looked at first: one light too many refuses the
/// draw whatever else holds.
pub open spec fn object_draw(
    object: ObjectView,
    materials: Seq<MaterialView>,
    lights: Seq<PointLight>,
) -> Result<ObjectDraw, DrawError> {
    if lights.len() > MAX_POINT_LIGHTS {
        Err(DrawError::TooManyPointLights)
    } else if object.material.0 >= materials.len() {
        Err(DrawError::UnknownMaterial)
    } else {
        Ok(
            ObjectDraw {
                vertex_count: object.vertices.len() as usize,
                material: object.material,
                shininess: materials[object.material.0 as int].shininess,
                light_count: lights.len() as usize,
            },
        )
    }
}

/// The uniform storage of an [`ObjectBrush`]: one transform, one directional
/// light and `MAX_POINT_LIGHTS` point lights.
pub ghost struct ObjectUniforms {
    pub transform: Transform,
    pub dir_light: DirLight,
    pub point_lights: Seq<PointLight>,
}

impl ObjectUniforms {
    /// The storage of a new brush: every word is zero.
    pub open spec fn zero() -> ObjectUniforms {
        ObjectUniforms {
            transform: Transform::zero(),
            dir_light: DirLight::unlit(),
            point_lights: padded(Seq::empty()),
        }
    }

    /// The storage that a draw with these inputs submits.
    pub open spec fn filled(
        model: Mat4,
        dir_light: DirLight,
        lights: Seq<PointLight>,
        view: Mat4,
        projection: Mat4,
    ) -> ObjectUniforms {
        ObjectUniforms {
            transform: Transform { model, view, projection },
            dir_light,
            point_lights: padded(lights),
        }
    }

    /// The storage after a draw was asked for: filled from the inputs alone
    /// if the draw is taken, untouched if it is refused.
    pub open spec fn after_draw(
        self,
        object: ObjectView,
        materials: Seq<MaterialView>,
        dir_light: DirLight,
        lights: Seq<PointLight>,
        view: Mat4,
        projection: Mat4,
    ) -> ObjectUniforms {
        if object_draw(object, materials, lights) is Ok {
            Self::filled(object.model_mat, dir_light, lights, view, projection)
        } else {
            self
        }
    }
}

/// Prepares the draws of lit objects.
pub struct ObjectBrush {
    transform: Transform,
    dir_light: DirLight,
    point_lights: Vec<PointLight>,
}

impl View for ObjectBrush {
    type V = ObjectUniforms;

    closed spec fn view(&self) -> ObjectUniforms {
        ObjectUniforms {
            transform: self.transform,
            dir_light: self.dir_light,
            point_lights: self.point_lights@,
        }
    }
}

/// Fills the point light slots.
fn pad_lights(lights: &Vec<PointLight>) -> (slots: Vec<PointLight>)
    requires
        lights@.len() <= MAX_POINT_LIGHTS,
    ensures
        slots@ == padded(lights@),
{
    let mut slots: Vec<PointLight> = Vec::new();
    let mut i: usize = 0;
    while i < MAX_POINT_LIGHTS
        invariant
            i <= MAX_POINT_LIGHTS,
            slots@.len() == i,
            forall|j: int| 0 <= j < i ==> slots@[j] == padded(lights@)[j],
        decreases MAX_POINT_LIGHTS - i,
    {
        if i < lights.len() {
            slots.push(lights[i]);
        } else {
            slots.push(PointLight::dark());
        }
        i += 1;
    }
    assert(slots@ =~= padded(lights@));
    slots
}

impl ObjectBrush {
    #[verifier::type_invariant]
    closed spec fn inv(self) -> bool {
        self.point_lights@.len() == MAX_POINT_LIGHTS
    }

    /// A brush whose uniform storage is all zeros.
    pub fn new() -> (brush: ObjectBrush)
        ensures
            brush@ == ObjectUniforms::zero(),
    {
        let none: Vec<PointLight> = Vec::new();
        let zero = Mat4::zeroed();
        ObjectBrush {
            transform: Transform { model: zero, view: zero, projection: zero },
            dir_light: DirLight::dark(),
            point_lights: pad_lights(&none),
        }
    }

    /// Prepares the draw of one object.
    ///
    /// If the draw is taken, the whole uniform storage is rewritten from the
    /// inputs: the transform from the object's model matrix and the camera's
    /// two matrices, the directional light, and every point light slot.
    /// Nothing of an earlier draw stays. If the draw is refused, the storage
    /// is as before and there is nothing to submit.
    pub fn draw(
        &mut self,
        object: &Object,
        materials: &MaterialArena,
        dir_light: &DirLight,
        point_lights: &Vec<PointLight>,
        view: &Mat4,
        projection: &Mat4,
    ) -> (result: Result<ObjectDraw, DrawError>)
        ensures
            result == object_draw(object@, materials@, point_lights@),
            result matches Ok(call) ==> call.vertex_count == object@.vertices.len()
                && call.light_count == point_lights@.len(),
            final(self)@ == old(self)@.after_draw(
                object@,
                materials@,
                *dir_light,
                point_lights@,
                *view,
                *projection,
            ),
    {
        proof {
            use_type_invariant(&*self);
        }
        if point_lights.len() > MAX_POINT_LIGHTS {
            return Err(DrawError::TooManyPointLights);
        }
        let shininess = match materials.get(object.material) {
            Some(material) => material.shininess(),
            None => {
                return Err(DrawError::UnknownMaterial);
            },
        };
        let slots = pad_lights(point_lights);
        self.transform = Transform { model: object.model_mat, view: *view, projection: *projection };
        self.dir_light = *dir_light;
        self.point_lights = slots;
        Ok(
            ObjectDraw {
                vertex_count: object.vertices.len(),
                material: object.material,
                shininess,
                light_count: point_lights.len(),
            },
        )
    }

    /// The transform of the last draw that was taken.
    pub fn transform(&self) -> (t: Transform)
        ensures
            t == self@.transform,
    {
        self.transform
    }

    /// The directional light of the last draw that was taken.
    pub fn dir_light(&self) -> (light: DirLight)
        ensures
            light == self@.dir_light,
    {
        self.dir_light
    }

    /// The point light slots of the last draw that was taken; there are
    /// always `MAX_POINT_LIGHTS` of them.
    pub fn point_lights(&self) -> (slots: &Vec<PointLight>)
        ensures
            slots@ == self@.point_lights,
            slots@.len() == MAX_POINT_LIGHTS,
    {
        proof {
            use_type_invariant(self);
        }
        &self.point_lights
    }
}

/// The draw of a lamp: it is always taken.
pub open spec fn lamp_draw(lamp: LampView) -> LampDraw {
    LampDraw { vertex_count: lamp.vertices.len() as usize, color: lamp.color }
}

/// Prepares the draws of lamps. Its uniform storage is one transform.
pub struct LampBrush {
    transform: Transform,
}

impl View for LampBrush {
    type V = Transform;

    closed spec fn view(&self) -> Transform {
        self.transform
    }
}

impl LampBrush {
    /// A brush whose uniform storage is all zeros.
    pub fn new() -> (brush: LampBrush)
        ensures
            brush@ == Transform::zero(),
    {
        let zero = Mat4::zeroed();
        LampBrush { transform: Transform { model: zero, view: zero, projection: zero } }
    }

    /// Prepares the draw of one lamp: rewrites the transform from the lamp's
    /// model matrix and the camera's two matrices.
    pub fn draw(&mut self, lamp: &Lamp, view: &Mat4, projection: &Mat4) -> (call: LampDraw)
        ensures
            call == lamp_draw(lamp@),
            call.vertex_count == lamp@.vertices.len(),
            final(self)@ == (Transform {
                model: lamp@.model_mat,
                view: *view,
                projection: *projection,
            }),
    {
        self.transform = Transform { model: lamp.model_mat, view: *view, projection: *projection };
        LampDraw { vertex_count: lamp.vertices.len(), color: lamp.color }
    }

    /// The transform of the last draw.
    pub fn transform(&self) -> (t: Transform)
        ensures
            t == self@,
    {
        self.transform
    }
}

/// Asking for the same draw twice leaves the uniform storage exactly as
/// asking once: nothing adds up from one draw to the next.
pub proof fn lemma_draw_is_idempotent(
    before: ObjectUniforms,
    object: ObjectView,
    materials: Seq<MaterialView>,
    dir_light: DirLight,
    lights: Seq<PointLight>,
    view: Mat4,
    projection: Mat4,
)
    ensures
        before.after_draw(object, materials, dir_light, lights, view, projection).after_draw(
            object,
            materials,
            dir_light,
            lights,
            view,
            projection,
        ) == before.after_draw(object, materials, dir_light, lights, view, projection),
{
}

/// What a taken draw submits depends on its inputs alone, not on what an
/// earlier draw left in the storage; in particular the slots beyond the
/// scene's lights hold lights that add nothing.
pub proof fn lemma_draw_leaves_nothing_stale(
    one: ObjectUniforms,
    other: ObjectUniforms,
    object: ObjectView,
    materials: Seq<MaterialView>,
    dir_light: DirLight,
    lights: Seq<PointLight>,
    view: Mat4,
    projection: Mat4,
)
    requires
        object_draw(object, materials, lights) is Ok,
    ensures
        one.after_draw(object, materials, dir_light, lights, view, projection) == other.after_draw(
            object,
            materials,
            dir_light,
            lights,
            view,
            projection,
        ),
        one.after_draw(object, materials, dir_light, lights, view, projection).point_lights.len()
            == MAX_POINT_LIGHTS,
        forall|i: int|
            0 <= i < lights.len() ==> one.after_draw(
                object,
                materials,
                dir_light,
                lights,
                view,
                projection,
            ).point_lights[i] == lights[i],
        forall|i: int|
            lights.len() <= i < MAX_POINT_LIGHTS ==> one.after_draw(
                object,
                materials,
                dir_light,
                lights,
                view,
                projection,
            ).point_lights[i] == PointLight::unlit(),
{
}

/// A draw with more point lights than the storage has slots is refused,
/// whatever the other inputs are, and the storage stays as it was.
pub proof fn lemma_too_many_lights_are_refused(
    before: ObjectUniforms,
    object: ObjectView,
    materials: Seq<MaterialView>,
    dir_light: DirLight,
    lights: Seq<PointLight>,
    view: Mat4,
    projection: Mat4,
)
    requires
        lights.len() > MAX_POINT_LIGHTS,
    ensures
        object_draw(object, materials, lights) == Err::<ObjectDraw, DrawError>(
            DrawError::TooManyPointLights,
        ),
        before.after_draw(object, materials, dir_light, lights, view, projection) == before,
{
}

} // verus!
