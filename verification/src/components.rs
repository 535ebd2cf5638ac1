//! The parts a game object is made of.  The set of parts is closed: a
//! component is a light, a model renderer or a transform.

use vstd::prelude::*;
use crate::mesh::DrawCommand;
use crate::model::Model;
use crate::shader::Shader;

verus! {

/// Three scalars: a point, a direction, angles or a colour.
#[derive(Clone, Copy, Debug, PartialEq)]
pub struct Triple<T> {
    pub x: T,
    pub y: T,
    pub z: T,
}

/// The kinds of light.
#[derive(Clone, Copy, Debug, PartialEq, Eq, Structural)]
pub enum LightType {
    POINT,
}

/// A light source and the program it is drawn with.
pub struct Light<T> {
    pub light_type: LightType,
    pub color: Triple<T>,
    pub intensity: T,
    pub shader: Shader,
}

/// Where an object stands, how it is turned and how it is scaled.
pub struct Transform<T> {
    pub position: Triple<T>,
    pub rotation: Triple<T>,
    pub scale: Triple<T>,
}

/// Draws a model.
pub struct ModelRenderer<T> {
    pub model: Model<T>,
}

/// One part of a game object.
pub enum Component<T> {
    Light(Light<T>),
    ModelRenderer(ModelRenderer<T>),
    Transform(Transform<T>),
}

impl<T> ModelRenderer<T> {
    /// A renderer of the model.
    pub fn new(model: Model<T>) -> (renderer: ModelRenderer<T>)
        ensures
            renderer.model == model,
    {
        ModelRenderer { model }
    }

    /// The commands that draw the model, mesh by mesh.
    pub fn render(self) -> (commands: Vec<Vec<DrawCommand>>)
        requires
            forall|i: int|
                0 <= i < self.model.meshes@.len() ==> (#[trigger] self.model.meshes@[i]).wf(),
        ensures
            commands@.len() == self.model.meshes@.len(),
            forall|i: int|
                0 <= i < self.model.meshes@.len() ==> (#[trigger] self.model.meshes@[i]).draws(
                    commands@[i]@,
                    self.model.shader.id,
                ),
    {
        self.model.draw_meshes()
    }
}

} // verus!
