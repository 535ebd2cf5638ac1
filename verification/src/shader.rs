//! Shader programs: what is asked of the graphics card to set an integer
//! input, and what its answers to compiling and linking mean.

use vstd::prelude::*;

verus! {

/// Object kind of vertex shaders.
pub const VERTEX_SHADER: u32 = 0x8B31;

/// Object kind of fragment shaders.
pub const FRAGMENT_SHADER: u32 = 0x8B30;

/// Most bytes of a diagnostic log that are asked for.
pub const LOG_CAPACITY: usize = 1024;

/// A linked shader program.
#[derive(Clone, Copy, Debug, PartialEq, Eq, Structural)]
pub struct Shader {
    pub id: u32,
}

/// The request to set an integer input of a program.
#[derive(Clone, Debug, PartialEq, Eq)]
pub struct UniformInt {
    pub program: u32,
    pub name: String,
    pub value: i32,
}

/// The stage a shader source is compiled for.
#[derive(Clone, Copy, Debug, PartialEq, Eq, Structural)]
pub enum Stage {
    Vertex,
    Fragment,
}

/// Why no shader program came about.
#[derive(Clone, Debug, PartialEq, Eq)]
pub enum ShaderError {
    /// A stage did not compile; the log says why.
    Compile { stage: Stage, log: Vec<u8> },
    /// The program did not link; the log says why.
    Link { log: Vec<u8> },
}

impl Stage {
    /// The object kind a shader of the stage is created with.
    pub open spec fn kind_of(self) -> u32 {
        match self {
            Stage::Vertex => VERTEX_SHADER,
            Stage::Fragment => FRAGMENT_SHADER,
        }
    }

    /// The object kind a shader of the stage is created with.
    pub fn kind(self) -> (kind: u32)
        ensures
            kind == self.kind_of(),
    {
        match self {
            Stage::Vertex => VERTEX_SHADER,
            Stage::Fragment => FRAGMENT_SHADER,
        }
    }
}

/// The part of a log buffer that was written: its first `written` bytes, all
/// of it where more is claimed, none of it where the count is negative.
pub open spec fn written_log(buffer: Seq<u8>, written: int) -> Seq<u8> {
    if written <= 0 {
        Seq::empty()
    } else if written >= buffer.len() {
        buffer
    } else {
        buffer.subrange(0, written)
    }
}

/// Cuts a log buffer down to the bytes that were written.
pub fn info_log(buffer: &Vec<u8>, written: i32) -> (log: Vec<u8>)
    ensures
        log@ == written_log(buffer@, written as int),
{
    let mut log: Vec<u8> = Vec::new();
    let mut i: usize = 0;
    while i < buffer.len() && (i as i64) < written as i64
        invariant
            i <= buffer.len(),
            i <= written || i == 0,
            log@ == buffer@.subrange(0, i as int),
        decreases buffer.len() - i,
    {
        log.push(buffer[i]);
        assert(log@ =~= buffer@.subrange(0, i + 1));
        i = i + 1;
    }
    assert(log@ =~= written_log(buffer@, written as int));
    log
}

impl Shader {
    /// Picks the vertex and the fragment source out of a list of paths: the
    /// first two entries, in this order.  A shorter list is not taken.
    pub fn sources<'a>(shaders: &Vec<&'a str>) -> (pair: (&'a str, &'a str))
        requires
            shaders@.len() >= 2,
        ensures
            pair.0 == shaders@[0],
            pair.1 == shaders@[1],
    {
        (shaders[0], shaders[1])
    }

    /// The length of a source as the graphics interface takes it.  A source
    /// whose length no signed 32-bit number holds is not taken.
    pub fn source_length(length: usize) -> (signed: i32)
        requires
            length <= i32::MAX,
        ensures
            signed == length,
    {
        length as i32
    }

    /// Judges a compilation: the shader stands if its status is not 0,
    /// otherwise the written part of the log tells why it does not.
    pub fn create_shader(stage: Stage, shader: u32, status: i32, buffer: &Vec<u8>, written: i32) -> (result:
        Result<u32, ShaderError>)
        ensures
            match result {
                Ok(id) => status != 0 && id == shader,
                Err(error) => {
                    &&& status == 0
                    &&& error matches ShaderError::Compile { stage: failed, log }
                    &&& failed == stage
                    &&& log@ == written_log(buffer@, written as int)
                },
            },
    {
        if status == 0 {
            return Err(ShaderError::Compile { stage, log: info_log(buffer, written) });
        }
        Ok(shader)
    }

    /// Judges a link: the program stands if its status is not 0, otherwise
    /// the written part of the log tells why it does not.
    pub fn create_program(program: u32, status: i32, buffer: &Vec<u8>, written: i32) -> (result:
        Result<Shader, ShaderError>)
        ensures
            match result {
                Ok(shader) => status != 0 && shader.id == program,
                Err(error) => {
                    &&& status == 0
                    &&& error matches ShaderError::Link { log }
                    &&& log@ == written_log(buffer@, written as int)
                },
            },
    {
        if status == 0 {
            return Err(ShaderError::Link { log: info_log(buffer, written) });
        }
        Ok(Shader { id: program })
    }

    /// The request to set an integer input of this program.
    pub fn set_int(&self, name: &str, value: i32) -> (request: UniformInt)
        ensures
            request.program == self.id,
            request.name@ == name@,
            request.value == value,
    {
        UniformInt { program: self.id, name: name.to_owned(), value }
    }

    /// The request to set a boolean input of this program: 1 for true, 0
    /// for false.
    pub fn set_bool(&self, name: &str, value: bool) -> (request: UniformInt)
        ensures
            request.program == self.id,
            request.name@ == name@,
            request.value == if value { 1i32 } else { 0i32 },
    {
        self.set_int(name, if value { 1 } else { 0 })
    }
}

} // verus!
