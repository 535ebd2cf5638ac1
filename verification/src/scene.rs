//! Scenes: the game objects that are drawn together.

use vstd::prelude::*;
use crate::components::{Component, Light, ModelRenderer, Transform};
use crate::game_objects::GameObject;
use crate::model::Model;

verus! {

/// The objects of a scene.
pub struct Scene<T> {
    pub children: Vec<GameObject<T>>,
}

impl<T> Scene<T> {
    /// The scene of one light source: a single object that holds the light
    /// and, after it, the renderer of the model the light is shown as.
    pub fn light_source(transform: Transform<T>, light: Light<T>, model: Model<T>) -> (scene: Scene<T>)
        ensures
            scene.children@.len() == 1,
            scene.children@[0].transform == transform,
            scene.children@[0].components@ == seq![
                Component::Light(light),
                Component::ModelRenderer(ModelRenderer { model }),
            ],
    {
        let mut children: Vec<GameObject<T>> = Vec::new();
        let mut source: GameObject<T> = GameObject::new(transform);
        source.add_component(Component::Light(light));
        source.add_component(Component::ModelRenderer(ModelRenderer::new(model)));
        assert(source.components@ =~= seq![
            Component::Light(light),
            Component::ModelRenderer(ModelRenderer { model }),
        ]);
        children.push(source);
        Scene { children }
    }
}

} // verus!
