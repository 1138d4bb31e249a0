use vstd::prelude::*;

verus! {

/// The number of cells along each side of a chunk.
pub const CHUNK_SIZE: usize = 16;

/// The world cell that local cell `local` of chunk `chunk` stands on, along one
/// axis.
pub open spec fn world_cell(chunk: int, local: int) -> int {
    chunk * (CHUNK_SIZE as int) + local
}

/// The world coordinate, along one axis, of local cell `local` of chunk
/// `chunk`. The result is exact for every chunk: it never overflows an `i64`.
pub fn world_coordinate(chunk: i32, local: usize) -> (r: i64)
    requires
        local < CHUNK_SIZE,
    ensures
        r == world_cell(chunk as int, local as int),
{
    let c = chunk as i64;
    assert(-0x8_0000_0000 <= c * 16 <= 0x8_0000_0000) by (nonlinear_arith)
        requires
            -0x8000_0000 <= c < 0x8000_0000,
    ;
    c * (CHUNK_SIZE as i64) + local as i64
}

/// The world point, as the pair of integers handed to a sampler, at which local
/// cell (`x`, `z`) of chunk (`chunk_x`, `chunk_z`) is sampled.
pub open spec fn lattice_point(chunk_x: int, chunk_z: int, x: int, z: int) -> (i64, i64) {
    (world_cell(chunk_x, x) as i64, world_cell(chunk_z, z) as i64)
}

/// `field` is a field of chunk (`chunk_x`, `chunk_z`) drawn from `sample`: it
/// has `CHUNK_SIZE` rows of `CHUNK_SIZE` cells each, and cell [x][z] is a value
/// that `sample` may return at the lattice point of local cell (x, z).
pub open spec fn is_chunk_field<T, F: Fn(i64, i64) -> T>(
    field: Seq<Vec<T>>,
    chunk_x: int,
    chunk_z: int,
    sample: F,
) -> bool {
    &&& field.len() == CHUNK_SIZE
    &&& forall|x: int| 0 <= x < CHUNK_SIZE ==> (#[trigger] field[x])@.len() == CHUNK_SIZE
    &&& forall|x: int, z: int|
        0 <= x < CHUNK_SIZE && 0 <= z < CHUNK_SIZE ==> call_ensures(
            sample,
            lattice_point(chunk_x, chunk_z, x, z),
            #[trigger] field[x]@[z],
        )
}

/// Builds the field of chunk (`chunk_x`, `chunk_z`): for each local cell
/// (x, z), row by row, `sample` is called once at the cell's world
/// coordinates and its value is stored at [x][z].
pub fn fill_chunk_field<T, F: Fn(i64, i64) -> T>(chunk_x: i32, chunk_z: i32, sample: F) -> (r: Vec<
    Vec<T>,
>)
    requires
        forall|x: int, z: int|
            0 <= x < CHUNK_SIZE && 0 <= z < CHUNK_SIZE ==> call_requires(
                sample,
                #[trigger] lattice_point(chunk_x as int, chunk_z as int, x, z),
            ),
    ensures
        r@.len() == CHUNK_SIZE,
        forall|x: int| 0 <= x < CHUNK_SIZE ==> (#[trigger] r@[x])@.len() == CHUNK_SIZE,
        is_chunk_field(r@, chunk_x as int, chunk_z as int, sample),
{
    let mut field: Vec<Vec<T>> = Vec::new();
    let mut x: usize = 0;
    while x < CHUNK_SIZE
        invariant
            x <= CHUNK_SIZE,
            field@.len() == x,
            forall|i: int, z: int|
                0 <= i < CHUNK_SIZE && 0 <= z < CHUNK_SIZE ==> call_requires(
                    sample,
                    #[trigger] lattice_point(chunk_x as int, chunk_z as int, i, z),
                ),
            forall|i: int| 0 <= i < x ==> (#[trigger] field@[i])@.len() == CHUNK_SIZE,
            forall|i: int, z: int|
                0 <= i < x && 0 <= z < CHUNK_SIZE ==> call_ensures(
                    sample,
                    lattice_point(chunk_x as int, chunk_z as int, i, z),
                    #[trigger] field@[i]@[z],
                ),
        decreases CHUNK_SIZE - x,
    {
        let world_x = world_coordinate(chunk_x, x);
        let mut row: Vec<T> = Vec::new();
        let mut z: usize = 0;
        while z < CHUNK_SIZE
            invariant
                x < CHUNK_SIZE,
                z <= CHUNK_SIZE,
                row@.len() == z,
                world_x == world_cell(chunk_x as int, x as int),
                forall|i: int, j: int|
                    0 <= i < CHUNK_SIZE && 0 <= j < CHUNK_SIZE ==> call_requires(
                        sample,
                        #[trigger] lattice_point(chunk_x as int, chunk_z as int, i, j),
                    ),
                forall|j: int|
                    0 <= j < z ==> call_ensures(
                        sample,
                        lattice_point(chunk_x as int, chunk_z as int, x as int, j),
                        #[trigger] row@[j],
                    ),
            decreases CHUNK_SIZE - z,
        {
            let world_z = world_coordinate(chunk_z, z);
            assert(lattice_point(chunk_x as int, chunk_z as int, x as int, z as int) == (
            world_x, world_z));
            let value = sample(world_x, world_z);
            row.push(value);
            z += 1;
        }
        field.push(row);
        x += 1;
    }
    field
}

/// Neighbouring chunks tile the world without a seam: local cell `local` of
/// one chunk is local cell `local - CHUNK_SIZE` of the next chunk along the same
/// axis, so the last cell of a chunk and the first cell of the next one are
/// one world unit apart.
pub proof fn lemma_chunks_tile_seamlessly(chunk: int, local: int)
    ensures
        world_cell(chunk, local) == world_cell(chunk + 1, local - CHUNK_SIZE),
        world_cell(chunk, CHUNK_SIZE - 1) + 1 == world_cell(chunk + 1, 0),
{
}

/// Two fields drawn from one sampler, of chunk (`chunk_x`, `chunk_z`) and of
/// the next chunk along x, meet without a seam: for each z, cell [15][z] of the
/// first is sampled at the world point just before that of cell [0][z] of the
/// second, on the same z.
pub proof fn lemma_field_edges_meet<T, F: Fn(i64, i64) -> T>(
    first: Seq<Vec<T>>,
    next: Seq<Vec<T>>,
    chunk_x: i32,
    chunk_z: i32,
    sample: F,
    z: int,
)
    requires
        chunk_x < i32::MAX,
        0 <= z < CHUNK_SIZE,
        is_chunk_field(first, chunk_x as int, chunk_z as int, sample),
        is_chunk_field(next, chunk_x + 1, chunk_z as int, sample),
    ensures
        ({
            let edge = lattice_point(chunk_x as int, chunk_z as int, CHUNK_SIZE - 1, z);
            &&& call_ensures(sample, edge, first[CHUNK_SIZE - 1]@[z])
            &&& call_ensures(sample, ((edge.0 + 1) as i64, edge.1), next[0]@[z])
        }),
{
    assert(-0x8_0000_0000 <= chunk_x * 16 <= 0x8_0000_0000) by (nonlinear_arith)
        requires
            -0x8000_0000 <= chunk_x < 0x8000_0000,
    ;
    assert(-0x8_0000_0000 <= chunk_z * 16 <= 0x8_0000_0000) by (nonlinear_arith)
        requires
            -0x8000_0000 <= chunk_z < 0x8000_0000,
    ;
    assert(call_ensures(sample, lattice_point(chunk_x as int, chunk_z as int, 15, z), first[15]@[z]));
    assert(call_ensures(sample, lattice_point(chunk_x + 1, chunk_z as int, 0, z), next[0]@[z]));
}

/// A chunk's field is determined by the chunk and the sampler: where the
/// sampler returns one value for each point, two fields of the same chunk
/// drawn from it agree in every cell.
pub proof fn lemma_field_deterministic<T, F: Fn(i64, i64) -> T>(
    a: Seq<Vec<T>>,
    b: Seq<Vec<T>>,
    chunk_x: i32,
    chunk_z: i32,
    sample: F,
)
    requires
        is_chunk_field(a, chunk_x as int, chunk_z as int, sample),
        is_chunk_field(b, chunk_x as int, chunk_z as int, sample),
        forall|p: (i64, i64), u: T, v: T|
            #[trigger] call_ensures(sample, p, u) && #[trigger] call_ensures(sample, p, v) ==> u
                == v,
    ensures
        forall|x: int, z: int|
            0 <= x < CHUNK_SIZE && 0 <= z < CHUNK_SIZE ==> #[trigger] a[x]@[z] == b[x]@[z],
{
    assert forall|x: int, z: int| 0 <= x < CHUNK_SIZE && 0 <= z < CHUNK_SIZE implies #[trigger] a[x]@[z]
        == b[x]@[z] by {
        assert(call_ensures(sample, lattice_point(chunk_x as int, chunk_z as int, x, z), a[x]@[z]));
        assert(call_ensures(sample, lattice_point(chunk_x as int, chunk_z as int, x, z), b[x]@[z]));
    }
}

} // verus!
