//! Meshes: the checks a mesh passes before it is handed to the graphics
//! card, the sizes of its buffers, and the commands that draw it.

use vstd::prelude::*;
use crate::shader::{Shader, UniformInt};
use crate::texture::TextureSet;
use crate::vertex::{VertexFormat, SCALAR_BYTES};

verus! {

/// The first texture unit; unit `i` is this plus `i`.
pub const TEXTURE0: u32 = 0x84C0;

/// Bytes taken by one index of an element buffer.
pub const INDEX_BYTES: usize = 4;

/// One command to the graphics card.
#[derive(Clone, Debug, PartialEq, Eq)]
pub enum DrawCommand {
    /// Make a texture unit the active one.
    ActiveTexture { unit: u32 },
    /// Set an integer input of a program.
    Uniform(UniformInt),
    /// Bind a two-dimensional texture to the active unit; 0 unbinds.
    BindTexture { texture: u32 },
    /// Bind a vertex array; 0 unbinds.
    BindVertexArray { vao: u32 },
    /// Bind an element buffer.
    BindElementBuffer { ebo: u32 },
    /// Draw triangles from `count` unsigned 32-bit indices.
    DrawElements { count: i32 },
}

/// Why a mesh is refused.
#[derive(Clone, Copy, Debug, PartialEq, Eq, Structural)]
pub enum MeshError {
    /// There are no vertices.
    NoVertices,
    /// The scalars do not make up whole vertices.
    PartialVertex,
    /// There are no indices.
    NoIndices,
    /// A buffer is larger than the graphics interface can be told.
    TooLarge,
    /// There are more textures than a sampler can be given as its unit.
    TooManyTextures,
}

/// Vertices, the indices that make triangles of them, and the textures the
/// triangles are drawn with.
pub struct Mesh<T> {
    pub vao: u32,
    pub ebo: u32,
    pub indices: Vec<u32>,
    pub vertices: Vec<T>,
    pub format: VertexFormat,
    pub textures: TextureSet,
}

/// The first fault of a mesh with that many scalars, indices and textures.
pub open spec fn mesh_fault(format: VertexFormat, scalars: nat, indices: nat, textures: nat) -> Option<
    MeshError,
> {
    if scalars == 0 {
        Some(MeshError::NoVertices)
    } else if scalars % (format.scalars() as nat) != 0 {
        Some(MeshError::PartialVertex)
    } else if indices == 0 {
        Some(MeshError::NoIndices)
    } else if scalars * SCALAR_BYTES > isize::MAX || indices > i32::MAX || indices * INDEX_BYTES
        > isize::MAX {
        Some(MeshError::TooLarge)
    } else if textures > i32::MAX {
        Some(MeshError::TooManyTextures)
    } else {
        None
    }
}

impl<T> Mesh<T> {
    /// Whether the mesh is well formed: it has no fault and no texture twice.
    pub open spec fn wf(&self) -> bool {
        &&& mesh_fault(self.format, self.vertices@.len(), self.indices@.len(), self.textures@.len())
            is None
        &&& self.textures.wf()
    }

    /// Tests geometry before it is uploaded or recorded: tells its first
    /// fault, if it has one.
    pub fn check(format: VertexFormat, vertices: &Vec<T>, indices: &Vec<u32>, textures: &TextureSet) -> (result:
        Result<(), MeshError>)
        ensures
            match result {
                Ok(_) => mesh_fault(format, vertices@.len(), indices@.len(), textures@.len())
                    is None,
                Err(error) => mesh_fault(format, vertices@.len(), indices@.len(), textures@.len())
                    == Some(error),
            },
    {
        let scalars: usize = format.scalars_per_vertex();
        if vertices.len() == 0 {
            return Err(MeshError::NoVertices);
        }
        if vertices.len() % scalars != 0 {
            return Err(MeshError::PartialVertex);
        }
        if indices.len() == 0 {
            return Err(MeshError::NoIndices);
        }
        if vertices.len() > (isize::MAX as usize) / SCALAR_BYTES || indices.len() > 0x7fff_ffff
            || indices.len() > (isize::MAX as usize) / INDEX_BYTES {
            return Err(MeshError::TooLarge);
        }
        if textures.len() > 0x7fff_ffff {
            return Err(MeshError::TooManyTextures);
        }
        Ok(())
    }

    /// Records an uploaded mesh under the names of its vertex array and its
    /// element buffer.  Geometry with a fault is not taken.
    pub fn new(
        vao: u32,
        ebo: u32,
        format: VertexFormat,
        vertices: Vec<T>,
        indices: Vec<u32>,
        textures: TextureSet,
    ) -> (mesh: Mesh<T>)
        requires
            textures.wf(),
            mesh_fault(format, vertices@.len(), indices@.len(), textures@.len()) is None,
        ensures
            mesh.wf(),
            mesh.vao == vao,
            mesh.ebo == ebo,
            mesh.format == format,
            mesh.vertices == vertices,
            mesh.indices == indices,
            mesh.textures == textures,
    {
        Mesh { vao, ebo, indices, vertices, format, textures }
    }

    /// Bytes of the vertex buffer.
    pub fn vertex_bytes(&self) -> (bytes: isize)
        requires
            self.wf(),
        ensures
            bytes == self.vertices@.len() * SCALAR_BYTES,
    {
        (self.vertices.len() * SCALAR_BYTES) as isize
    }

    /// Bytes of the element buffer.
    pub fn index_bytes(&self) -> (bytes: isize)
        requires
            self.wf(),
        ensures
            bytes == self.indices@.len() * INDEX_BYTES,
    {
        (self.indices.len() * INDEX_BYTES) as isize
    }

    /// Whether the commands draw this mesh with the program: texture `i` is
    /// bound to unit `i` and its sampler set to `i`, in the order of the
    /// textures; then the triangles are drawn from all indices, the vertex
    /// array is unbound and the first unit made active again.
    pub open spec fn draws(&self, commands: Seq<DrawCommand>, program: u32) -> bool {
        let n = self.textures@.len() as int;
        &&& commands.len() == 3 * n + 5
        &&& forall|i: int|
            0 <= i < n ==> {
                &&& #[trigger] commands[3 * i] == (DrawCommand::ActiveTexture {
                    unit: (TEXTURE0 + i) as u32,
                })
                &&& commands[3 * i + 1] matches DrawCommand::Uniform(request)
                &&& request.program == program
                &&& request.name@ == self.textures@[i].name
                &&& request.value == i
                &&& commands[3 * i + 2] == (DrawCommand::BindTexture {
                    texture: self.textures@[i].id,
                })
            }
        &&& commands[3 * n] == (DrawCommand::BindVertexArray { vao: self.vao })
        &&& commands[3 * n + 1] == (DrawCommand::BindElementBuffer { ebo: self.ebo })
        &&& commands[3 * n + 2] == (DrawCommand::DrawElements {
            count: self.indices@.len() as i32,
        })
        &&& commands[3 * n + 3] == (DrawCommand::BindVertexArray { vao: 0 })
        &&& commands[3 * n + 4] == (DrawCommand::ActiveTexture { unit: TEXTURE0 })
    }

    /// The commands that draw this mesh with a shader program.
    pub fn draw(&self, shader: &Shader) -> (commands: Vec<DrawCommand>)
        requires
            self.wf(),
        ensures
            self.draws(commands@, shader.id),
    {
        let mut commands: Vec<DrawCommand> = Vec::new();
        let n: usize = self.textures.len();
        let mut idx: usize = 0;
        while idx < n
            invariant
                idx <= n,
                n == self.textures@.len(),
                n <= i32::MAX,
                commands@.len() == 3 * idx,
                forall|i: int|
                    0 <= i < idx ==> {
                        &&& #[trigger] commands@[3 * i] == (DrawCommand::ActiveTexture {
                            unit: (TEXTURE0 + i) as u32,
                        })
                        &&& commands@[3 * i + 1] matches DrawCommand::Uniform(request)
                        &&& request.program == shader.id
                        &&& request.name@ == self.textures@[i].name
                        &&& request.value == i
                        &&& commands@[3 * i + 2] == (DrawCommand::BindTexture {
                            texture: self.textures@[i].id,
                        })
                    },
            decreases n - idx,
        {
            let texture = self.textures.get(idx);
            commands.push(DrawCommand::ActiveTexture { unit: TEXTURE0 + idx as u32 });
            commands.push(DrawCommand::Uniform(shader.set_int(texture.name.as_str(), idx as i32)));
            commands.push(DrawCommand::BindTexture { texture: texture.id });
            idx = idx + 1;
        }
        commands.push(DrawCommand::BindVertexArray { vao: self.vao });
        commands.push(DrawCommand::BindElementBuffer { ebo: self.ebo });
        commands.push(DrawCommand::DrawElements { count: self.indices.len() as i32 });
        commands.push(DrawCommand::BindVertexArray { vao: 0 });
        commands.push(DrawCommand::ActiveTexture { unit: TEXTURE0 });
        commands
    }
}

} // verus!
