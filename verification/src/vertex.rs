//! The interleaved vertex layout: every vertex is a run of scalars, first its
//! position, then its texture coordinate if the format carries one, then its
//! normal if the format carries one.  The attribute slots are fixed: 0 is the
//! position, 1 the texture coordinate, 2 the normal.

use vstd::prelude::*;

verus! {

/// Bytes taken by one scalar of a vertex buffer.
pub const SCALAR_BYTES: usize = 4;

/// One of the three attributes a vertex can carry.
#[derive(Clone, Copy, Debug, PartialEq, Eq, Structural)]
pub enum Attribute {
    Position,
    Texcoord,
    Normal,
}

impl Attribute {
    /// The shader input slot the attribute is bound to.
    pub open spec fn slot(self) -> int {
        match self {
            Attribute::Position => 0,
            Attribute::Texcoord => 1,
            Attribute::Normal => 2,
        }
    }

    /// Number of scalars the attribute holds.
    pub open spec fn components(self) -> int {
        match self {
            Attribute::Position => 3,
            Attribute::Texcoord => 2,
            Attribute::Normal => 3,
        }
    }
}

/// Which optional attributes follow the position of each vertex.
#[derive(Clone, Copy, Debug, PartialEq, Eq, Structural)]
pub struct VertexFormat {
    pub texcoord: bool,
    pub normal: bool,
}

/// Where one attribute lies inside the vertex buffer, in the units the
/// graphics interface takes: components per vertex, and stride and offset in
/// bytes.
#[derive(Clone, Copy, Debug, PartialEq, Eq, Structural)]
pub struct AttributePointer {
    pub index: u32,
    pub size: i32,
    pub stride: i32,
    pub offset: usize,
}

impl VertexFormat {
    /// Whether vertices of this format carry the attribute.
    pub open spec fn has(self, attribute: Attribute) -> bool {
        match attribute {
            Attribute::Position => true,
            Attribute::Texcoord => self.texcoord,
            Attribute::Normal => self.normal,
        }
    }

    /// Scalars of one vertex that come before the attribute.
    pub open spec fn offset_of(self, attribute: Attribute) -> int {
        match attribute {
            Attribute::Position => 0,
            Attribute::Texcoord => 3,
            Attribute::Normal => if self.texcoord { 5 } else { 3 },
        }
    }

    /// Scalars of one vertex.
    pub open spec fn scalars(self) -> int {
        3 + (if self.texcoord { 2int } else { 0 }) + (if self.normal { 3int } else { 0 })
    }

    /// Place in a vertex buffer of scalar `c` of the attribute of vertex `v`.
    pub open spec fn scalar_index(self, v: int, attribute: Attribute, c: int) -> int {
        v * self.scalars() + self.offset_of(attribute) + c
    }

    /// The pointer that binds the attribute to its slot.
    pub open spec fn pointer(self, attribute: Attribute) -> AttributePointer {
        AttributePointer {
            index: attribute.slot() as u32,
            size: attribute.components() as i32,
            stride: (SCALAR_BYTES * self.scalars()) as i32,
            offset: (SCALAR_BYTES * self.offset_of(attribute)) as usize,
        }
    }

    /// The pointers of the attributes the format carries, by rising slot.
    pub open spec fn pointers(self) -> Seq<AttributePointer> {
        seq![self.pointer(Attribute::Position)]
            + (if self.texcoord { seq![self.pointer(Attribute::Texcoord)] } else { seq![] })
            + (if self.normal { seq![self.pointer(Attribute::Normal)] } else { seq![] })
    }

    /// Scalars of one vertex.
    pub fn scalars_per_vertex(self) -> (count: usize)
        ensures
            count == self.scalars(),
    {
        let mut count: usize = 3;
        if self.texcoord {
            count = count + 2;
        }
        if self.normal {
            count = count + 3;
        }
        count
    }

    /// Lays out the attributes of one vertex: one pointer for each attribute
    /// the format carries, by rising slot.  The attributes follow each other
    /// without gaps and fill the stride exactly.
    pub fn attribute_pointers(self) -> (pointers: Vec<AttributePointer>)
        ensures
            pointers@ == self.pointers(),
            forall|i: int|
                0 <= i < pointers.len() ==> (#[trigger] pointers[i]).stride == SCALAR_BYTES
                    * self.scalars(),
            pointers[0].offset == 0,
            forall|i: int|
                0 <= i < pointers.len() - 1 ==> (#[trigger] pointers[i]).offset + SCALAR_BYTES
                    * pointers[i].size == pointers[i + 1].offset,
            pointers[pointers.len() - 1].offset + SCALAR_BYTES * pointers[pointers.len()
                - 1].size == SCALAR_BYTES * self.scalars(),
    {
        let scalars: usize = self.scalars_per_vertex();
        let stride: i32 = (SCALAR_BYTES * scalars) as i32;
        let mut pointers: Vec<AttributePointer> = Vec::new();
        pointers.push(AttributePointer { index: 0, size: 3, stride, offset: 0 });
        let mut before: usize = 3;
        if self.texcoord {
            pointers.push(
                AttributePointer { index: 1, size: 2, stride, offset: SCALAR_BYTES * before },
            );
            before = before + 2;
        }
        if self.normal {
            pointers.push(
                AttributePointer { index: 2, size: 3, stride, offset: SCALAR_BYTES * before },
            );
        }
        assert(pointers@ =~= self.pointers());
        pointers
    }
}

/// Why flat attribute arrays cannot be read as vertices.
#[derive(Clone, Copy, Debug, PartialEq, Eq, Structural)]
pub enum GeometryError {
    /// The position scalars do not come in threes.
    PositionCount,
    /// There are fewer than two texture scalars for some vertex.
    TexcoordCount,
    /// There are fewer than three normal scalars for some vertex.
    NormalCount,
}

/// The first fault of flat attribute arrays of the given lengths, if any.
pub open spec fn geometry_fault(
    format: VertexFormat,
    positions: nat,
    texcoords: nat,
    normals: nat,
) -> Option<GeometryError> {
    if positions % 3 != 0 {
        Some(GeometryError::PositionCount)
    } else if format.texcoord && texcoords < 2 * (positions / 3) {
        Some(GeometryError::TexcoordCount)
    } else if format.normal && normals < 3 * (positions / 3) {
        Some(GeometryError::NormalCount)
    } else {
        None
    }
}

/// The scalars of vertex `v`: its position, then its texture coordinate and
/// its normal as far as the format carries them.
pub open spec fn vertex_scalars<T>(
    format: VertexFormat,
    positions: Seq<T>,
    texcoords: Seq<T>,
    normals: Seq<T>,
    v: int,
) -> Seq<T> {
    positions.subrange(3 * v, 3 * v + 3) + (if format.texcoord {
        texcoords.subrange(2 * v, 2 * v + 2)
    } else {
        Seq::empty()
    }) + (if format.normal {
        normals.subrange(3 * v, 3 * v + 3)
    } else {
        Seq::empty()
    })
}

/// The scalars of the first `count` vertices, one vertex after the other.
pub open spec fn interleaved<T>(
    format: VertexFormat,
    positions: Seq<T>,
    texcoords: Seq<T>,
    normals: Seq<T>,
    count: nat,
) -> Seq<T>
    decreases count,
{
    if count == 0 {
        Seq::empty()
    } else {
        interleaved(format, positions, texcoords, normals, (count - 1) as nat) + vertex_scalars(
            format,
            positions,
            texcoords,
            normals,
            count - 1,
        )
    }
}

/// The flat array that holds the attribute.
pub open spec fn attribute_source<T>(
    attribute: Attribute,
    positions: Seq<T>,
    texcoords: Seq<T>,
    normals: Seq<T>,
) -> Seq<T> {
    match attribute {
        Attribute::Position => positions,
        Attribute::Texcoord => texcoords,
        Attribute::Normal => normals,
    }
}

/// The interleaved buffer holds `format.scalars()` scalars for each vertex,
/// and scalar `c` of an attribute of vertex `v` lies `format.offset_of` scalars
/// into the run of that vertex.
pub proof fn lemma_interleaved_layout<T>(
    format: VertexFormat,
    positions: Seq<T>,
    texcoords: Seq<T>,
    normals: Seq<T>,
    count: nat,
)
    requires
        3 * count <= positions.len(),
        format.texcoord ==> 2 * count <= texcoords.len(),
        format.normal ==> 3 * count <= normals.len(),
    ensures
        interleaved(format, positions, texcoords, normals, count).len() == count
            * format.scalars(),
        forall|v: int, attribute: Attribute, c: int|
            0 <= v < count && format.has(attribute) && 0 <= c < attribute.components() ==> {
                &&& 0 <= #[trigger] format.scalar_index(v, attribute, c) < count
                    * format.scalars()
                &&& interleaved(format, positions, texcoords, normals, count)[format.scalar_index(
                    v,
                    attribute,
                    c,
                )] == attribute_source(attribute, positions, texcoords, normals)[
                    attribute.components() * v + c]
            },
    decreases count,
{
    if count > 0 {
        let shorter = (count - 1) as nat;
        let head = interleaved(format, positions, texcoords, normals, shorter);
        let tail = vertex_scalars(format, positions, texcoords, normals, shorter as int);
        let s = format.scalars();
        lemma_interleaved_layout(format, positions, texcoords, normals, shorter);
        assert(shorter * s + s == count * s) by (nonlinear_arith)
            requires
                shorter + 1 == count,
        ;
        assert forall|v: int, attribute: Attribute, c: int|
            0 <= v < count && format.has(attribute) && 0 <= c < attribute.components() implies {
            &&& 0 <= #[trigger] format.scalar_index(v, attribute, c) < count * s
            &&& (head + tail)[format.scalar_index(v, attribute, c)] == attribute_source(
                attribute,
                positions,
                texcoords,
                normals,
            )[attribute.components() * v + c]
        } by {
            if v < shorter {
                assert(format.scalar_index(v, attribute, c) < shorter * s);
            } else {
                assert(format.scalar_index(v, attribute, c) == shorter * s + format.offset_of(
                    attribute,
                ) + c);
            }
        }
    }
}

/// Appends the scalars of vertex `v` to the buffer.
fn push_vertex<T: Copy>(
    buffer: &mut Vec<T>,
    format: VertexFormat,
    positions: &Vec<T>,
    texcoords: &Vec<T>,
    normals: &Vec<T>,
    v: usize,
)
    requires
        3 * v + 3 <= positions.len(),
        format.texcoord ==> 2 * v + 2 <= texcoords.len(),
        format.normal ==> 3 * v + 3 <= normals.len(),
    ensures
        final(buffer)@ == old(buffer)@ + vertex_scalars(
            format,
            positions@,
            texcoords@,
            normals@,
            v as int,
        ),
{
    buffer.push(positions[3 * v]);
    buffer.push(positions[3 * v + 1]);
    buffer.push(positions[3 * v + 2]);
    let ghost with_position = buffer@;
    assert(with_position =~= old(buffer)@ + positions@.subrange(3 * v, 3 * v + 3));
    if format.texcoord {
        buffer.push(texcoords[2 * v]);
        buffer.push(texcoords[2 * v + 1]);
        assert(buffer@ =~= with_position + texcoords@.subrange(2 * v, 2 * v + 2));
    } else {
        assert(buffer@ =~= with_position + Seq::<T>::empty());
    }
    let ghost with_texcoord = buffer@;
    if format.normal {
        buffer.push(normals[3 * v]);
        buffer.push(normals[3 * v + 1]);
        buffer.push(normals[3 * v + 2]);
        assert(buffer@ =~= with_texcoord + normals@.subrange(3 * v, 3 * v + 3));
    } else {
        assert(buffer@ =~= with_texcoord + Seq::<T>::empty());
    }
    assert(buffer@ =~= old(buffer)@ + vertex_scalars(
        format,
        positions@,
        texcoords@,
        normals@,
        v as int,
    ));
}

/// Tests flat attribute arrays before they are woven: tells their first
/// fault, if they have one.
pub fn check_geometry<T>(
    format: VertexFormat,
    positions: &Vec<T>,
    texcoords: &Vec<T>,
    normals: &Vec<T>,
) -> (result: Result<(), GeometryError>)
    ensures
        match result {
            Ok(_) => geometry_fault(format, positions@.len(), texcoords@.len(), normals@.len())
                is None,
            Err(error) => geometry_fault(
                format,
                positions@.len(),
                texcoords@.len(),
                normals@.len(),
            ) == Some(error),
        },
{
    let count: usize = positions.len() / 3;
    if positions.len() % 3 != 0 {
        return Err(GeometryError::PositionCount);
    }
    if format.texcoord && texcoords.len() < 2 * count {
        return Err(GeometryError::TexcoordCount);
    }
    if format.normal && normals.len() < 3 * count {
        return Err(GeometryError::NormalCount);
    }
    Ok(())
}

/// Weaves flat attribute arrays into one vertex buffer.
///
/// There is one vertex for every three position scalars.  An attribute that
/// the format does not carry is not read; of one that it carries, scalars
/// beyond the last vertex are ignored.  Arrays with a fault are not taken.
pub fn interleave<T: Copy>(
    format: VertexFormat,
    positions: &Vec<T>,
    texcoords: &Vec<T>,
    normals: &Vec<T>,
) -> (buffer: Vec<T>)
    requires
        geometry_fault(format, positions@.len(), texcoords@.len(), normals@.len()) is None,
    ensures
        buffer@ == interleaved(format, positions@, texcoords@, normals@, positions@.len() / 3),
        buffer@.len() == (positions@.len() / 3) * format.scalars(),
        forall|v: int, attribute: Attribute, c: int|
            0 <= v < positions@.len() / 3 && format.has(attribute) && 0 <= c
                < attribute.components() ==> buffer@[#[trigger] format.scalar_index(
                v,
                attribute,
                c,
            )] == attribute_source(attribute, positions@, texcoords@, normals@)[
                attribute.components() * v + c],
{
    let count: usize = positions.len() / 3;
    let mut buffer: Vec<T> = Vec::new();
    let mut v: usize = 0;
    while v < count
        invariant
            v <= count,
            count == positions@.len() / 3,
            3 * count <= positions.len(),
            format.texcoord ==> 2 * count <= texcoords.len(),
            format.normal ==> 3 * count <= normals.len(),
            buffer@ == interleaved(format, positions@, texcoords@, normals@, v as nat),
        decreases count - v,
    {
        push_vertex(&mut buffer, format, positions, texcoords, normals, v);
        v = v + 1;
    }
    proof {
        lemma_interleaved_layout(format, positions@, texcoords@, normals@, count as nat);
    }
    buffer
}

} // verus!
