use wme_core::components::{Component, Light, LightType, ModelRenderer, Transform, Triple};
use wme_core::game_objects::GameObject;
use wme_core::mesh::Mesh;
use wme_core::model::Model;
use wme_core::scene::Scene;
use wme_core::shader::Shader;
use wme_core::texture::TextureSet;
use wme_core::vertex::VertexFormat;

fn triple(x: f32, y: f32, z: f32) -> Triple<f32> {
    Triple { x, y, z }
}

fn transform() -> Transform<f32> {
    Transform {
        position: triple(0.0, 0.0, 0.0),
        rotation: triple(0.0, 0.0, 0.0),
        scale: triple(1.0, 0.0, 0.0),
    }
}

fn light(id: u32) -> Light<f32> {
    Light {
        light_type: LightType::POINT,
        color: triple(0.0, 0.0, 0.0),
        intensity: 1.0,
        shader: Shader { id },
    }
}

fn model(id: u32) -> Model<f32> {
    let format = VertexFormat { texcoord: false, normal: false };
    let mesh = Mesh::new(1, 2, format, vec![0.0; 9], vec![0, 1, 2], TextureSet::new());
    Model { shader: Shader { id }, meshes: vec![mesh] }
}

#[test]
fn a_new_object_has_no_components() {
    let object = GameObject::new(transform());
    assert!(object.components.is_empty());
    assert_eq!(object.transform.scale, triple(1.0, 0.0, 0.0));
}

#[test]
fn add_component_appends() {
    let mut object = GameObject::new(transform());
    object.add_component(Component::Light(light(4)));
    object.add_component(Component::Transform(transform()));
    object.add_component(Component::ModelRenderer(ModelRenderer::new(model(6))));
    object.add_component(Component::Light(light(5)));
    assert_eq!(object.components.len(), 4);
    assert!(matches!(&object.components[0], Component::Light(l) if l.shader.id == 4));
    assert!(matches!(&object.components[1], Component::Transform(_)));
    assert!(matches!(&object.components[2], Component::ModelRenderer(r) if r.model.shader.id == 6));
    assert!(matches!(&object.components[3], Component::Light(l) if l.shader.id == 5));
    assert_eq!(object.transform.position, triple(0.0, 0.0, 0.0));
}

#[test]
fn a_renderer_draws_its_model() {
    let expected = model(6).draw_meshes();
    let renderer = ModelRenderer::new(model(6));
    assert_eq!(renderer.model.meshes.len(), 1);
    assert_eq!(renderer.render(), expected);
}

#[test]
fn the_light_source_scene_holds_one_object() {
    let scene = Scene::light_source(transform(), light(4), model(6));
    assert_eq!(scene.children.len(), 1);
    let source = &scene.children[0];
    assert_eq!(source.components.len(), 2);
    assert!(matches!(
        &source.components[0],
        Component::Light(l) if l.shader.id == 4 && l.light_type == LightType::POINT && l.intensity == 1.0
    ));
    assert!(matches!(
        &source.components[1],
        Component::ModelRenderer(r) if r.model.shader.id == 6 && r.model.meshes.len() == 1
    ));
    assert_eq!(source.transform.scale, triple(1.0, 0.0, 0.0));
}
