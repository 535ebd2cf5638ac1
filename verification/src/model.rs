//! Models: meshes that are drawn with one shader program, and the choice of
//! the textures a loaded mesh is drawn with.

use vstd::prelude::*;
use crate::mesh::{DrawCommand, Mesh};
use crate::shader::Shader;

verus! {

/// Name of the sampler the diffuse texture of a mesh is bound to.
pub const DIFFUSE_TEXTURE: &'static str = "diffuse_texture";

/// Meshes and the shader program they are drawn with.
pub struct Model<T> {
    pub shader: Shader,
    pub meshes: Vec<Mesh<T>>,
}

/// Whether a mesh names no material or one that the list holds.
/// `materials[i]` is the path of the diffuse texture of material `i`.
pub open spec fn names_material(material_id: Option<usize>, materials: Seq<Option<String>>) -> bool {
    material_id matches Some(id) ==> id < materials.len()
}

/// The diffuse texture of the material a mesh names, if it names one and the
/// material has one.
pub open spec fn diffuse_of(material_id: Option<usize>, materials: Seq<Option<String>>) -> Option<
    String,
> {
    match material_id {
        Some(id) => materials[id as int],
        None => None,
    }
}

/// Tests the material a mesh names before its texture is chosen.
pub fn check_material(material_id: Option<usize>, materials: &Vec<Option<String>>) -> (ok: bool)
    ensures
        ok == names_material(material_id, materials@),
{
    match material_id {
        None => true,
        Some(id) => id < materials.len(),
    }
}

/// Chooses the diffuse texture of a mesh.  A mesh that names a material
/// which the list does not hold is not taken.
pub fn diffuse_texture<'a>(material_id: Option<usize>, materials: &'a Vec<Option<String>>) -> (path:
    Option<&'a String>)
    requires
        names_material(material_id, materials@),
    ensures
        match path {
            Some(chosen) => diffuse_of(material_id, materials@) == Some(*chosen),
            None => diffuse_of(material_id, materials@) is None,
        },
{
    match material_id {
        None => None,
        Some(id) => match &materials[id] {
            Some(chosen) => Some(chosen),
            None => None,
        },
    }
}

/// The materials that have a diffuse texture, in their order.
pub open spec fn textured(materials: Seq<Option<String>>) -> Seq<Option<String>> {
    materials.filter(|material: Option<String>| material is Some)
}

/// Collects the diffuse textures of all materials, in their order.
pub fn diffuse_textures<'a>(materials: &'a Vec<Option<String>>) -> (paths: Vec<&'a String>)
    ensures
        paths@.len() == textured(materials@).len(),
        forall|i: int| 0 <= i < paths@.len() ==> textured(materials@)[i] == Some(*#[trigger] paths@[i]),
{
    let mut paths: Vec<&'a String> = Vec::new();
    let mut i: usize = 0;
    proof {
        assert(materials@.subrange(0, 0) =~= Seq::<Option<String>>::empty());
    }
    while i < materials.len()
        invariant
            i <= materials.len(),
            paths@.len() == textured(materials@.subrange(0, i as int)).len(),
            forall|k: int|
                0 <= k < paths@.len() ==> textured(materials@.subrange(0, i as int))[k] == Some(
                    *#[trigger] paths@[k],
                ),
        decreases materials.len() - i,
    {
        proof {
            let shorter = materials@.subrange(0, i as int);
            let longer = materials@.subrange(0, i + 1);
            assert(longer =~= shorter.push(materials@[i as int]));
            assert(longer.drop_last() =~= shorter);
            reveal(Seq::filter);
        }
        match &materials[i] {
            Some(path) => {
                paths.push(path);
            },
            None => {},
        }
        i = i + 1;
    }
    proof {
        assert(materials@.subrange(0, materials@.len() as int) =~= materials@);
    }
    paths
}

impl<T> Model<T> {
    /// The commands that draw every mesh with the program of the model, mesh
    /// by mesh.
    pub fn draw_meshes(&self) -> (commands: Vec<Vec<DrawCommand>>)
        requires
            forall|i: int| 0 <= i < self.meshes@.len() ==> (#[trigger] self.meshes@[i]).wf(),
        ensures
            commands@.len() == self.meshes@.len(),
            forall|i: int|
                0 <= i < self.meshes@.len() ==> (#[trigger] self.meshes@[i]).draws(
                    commands@[i]@,
                    self.shader.id,
                ),
    {
        let mut commands: Vec<Vec<DrawCommand>> = Vec::new();
        let mut i: usize = 0;
        while i < self.meshes.len()
            invariant
                i <= self.meshes.len(),
                commands@.len() == i,
                forall|k: int| 0 <= k < self.meshes@.len() ==> (#[trigger] self.meshes@[k]).wf(),
                forall|k: int|
                    0 <= k < i ==> (#[trigger] self.meshes@[k]).draws(
                        commands@[k]@,
                        self.shader.id,
                    ),
            decreases self.meshes.len() - i,
        {
            let plan = self.meshes[i].draw(&self.shader);
            commands.push(plan);
            i = i + 1;
        }
        commands
    }
}

} // verus!
