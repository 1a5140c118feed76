//! Vertex batching.

use vstd::prelude::*;

use crate::text::GlSubTexture;

verus! {

/// Maximum items to be drawn in a batch.
///
/// This is the closest number to `u16::MAX` dividable by 4 (amount of
/// vertices pushed for a subtexture), since `u16::MAX` is the maximum
/// possible index of a draw call.
pub const MAX_BATCH_SIZE: usize = 65532;

/// Exchange two elements of a vector.
///
/// Calls std's `<[T]>::swap`, which exchanges the elements at the two
/// indices and leaves all others in place. It panics on an index that is out
/// of bounds, which the precondition rules out.
#[verifier::external_body]
fn swap<T>(items: &mut Vec<T>, a: usize, b: usize)
    requires
        a < old(items).len(),
        b < old(items).len(),
    ensures
        final(items)@ == old(items)@.update(a as int, old(items)@[b as int]).update(
            b as int,
            old(items)@[a as int],
        ),
{
    items.swap(a, b);
}

/// The keys are in ascending order from `from` on.
pub open spec fn sorted_from(keys: Seq<u32>, from: int) -> bool {
    forall|a: int, b: int| from <= a < b < keys.len() ==> keys[a] <= keys[b]
}

/// `order` names each index below `len` exactly once.
pub open spec fn is_permutation(order: Seq<int>, len: int) -> bool {
    &&& order.len() == len
    &&& forall|k: int| 0 <= k < len ==> 0 <= #[trigger] order[k] < len
    &&& forall|a: int, b: int| 0 <= a < b < len ==> order[a] != order[b]
}

/// The keys and values `after` are the ones `before`, rearranged so that the
/// element at each index came from the index that `order` names: the keys
/// ascend, each value stays with its key, and elements with equal keys keep
/// their order.
pub open spec fn stably_sorted<U>(
    keys_before: Seq<u32>,
    values_before: Seq<U>,
    keys_after: Seq<u32>,
    values_after: Seq<U>,
    order: Seq<int>,
) -> bool {
    &&& keys_after.len() == keys_before.len()
    &&& values_after.len() == values_before.len()
    &&& is_permutation(order, keys_before.len() as int)
    &&& sorted_from(keys_after, 0)
    &&& forall|k: int|
        0 <= k < keys_before.len() ==> keys_after[k] == keys_before[#[trigger] order[k]]
            && values_after[k] == values_before[order[k]]
    &&& forall|a: int, b: int|
        0 <= a < b < keys_before.len() && keys_after[a] == keys_after[b] ==> order[a] < order[b]
    &&& forall|k: int| keys_before.len() <= k < values_before.len() ==> values_after[k] == values_before[k]
}

/// Insertion sort for multiple arrays.
///
/// This will use `v1` as a discriminant for sorting and perform the same
/// permutations on `v2`.
pub fn sort_multiple<U>(v1: &mut Vec<u32>, v2: &mut Vec<U>)
    requires
        old(v1).len() <= old(v2).len(),
    ensures
        exists|order: Seq<int>| stably_sorted(old(v1)@, old(v2)@, final(v1)@, final(v2)@, order),
{
    let len = v1.len();
    let ghost mut order: Seq<int> = Seq::new(len as nat, |k: int| k);
    if len < 2 {
        assert(stably_sorted(old(v1)@, old(v2)@, v1@, v2@, order));
        return ;
    }
    let mut i: usize = len - 1;
    while i > 0
        invariant
            0 <= i < len,
            len == old(v1).len(),
            v1.len() == len,
            v2.len() == old(v2).len(),
            len <= v2.len(),
            is_permutation(order, len as int),
            sorted_from(v1@, i as int),
            forall|k: int|
                0 <= k < len ==> v1@[k] == old(v1)@[#[trigger] order[k]] && v2@[k] == old(v2)@[order[k]],
            forall|k: int| 0 <= k < i ==> order[k] == k,
            forall|k: int| i <= k < len ==> order[k] >= i,
            forall|a: int, b: int| i <= a < b < len && v1@[a] == v1@[b] ==> order[a] < order[b],
            forall|k: int| len <= k < v2.len() ==> v2@[k] == old(v2)@[k],
        decreases i,
    {
        i -= 1;
        let mut j: usize = i;
        while j + 1 < len && v1[j] > v1[j + 1]
            invariant
                0 <= i <= j < len,
                len == old(v1).len(),
                v1.len() == len,
                v2.len() == old(v2).len(),
                len <= v2.len(),
                is_permutation(order, len as int),
                forall|k: int|
                    0 <= k < len ==> v1@[k] == old(v1)@[#[trigger] order[k]] && v2@[k] == old(v2)@[order[k]],
                forall|k: int| 0 <= k < i ==> order[k] == k,
                order[j as int] == i,
                forall|k: int| i <= k < len && k != j ==> order[k] > i,
                forall|a: int, b: int| i <= a < b < len && a != j && b != j ==> v1@[a] <= v1@[b],
                forall|a: int| i <= a < j ==> v1@[a] < v1@[j as int],
                forall|a: int, b: int|
                    i <= a < b < len && a != j && b != j && v1@[a] == v1@[b] ==> order[a] < order[b],
                forall|k: int| len <= k < v2.len() ==> v2@[k] == old(v2)@[k],
            decreases len - j,
        {
            swap(v1, j, j + 1);
            swap(v2, j, j + 1);
            proof {
                let moved = order[j as int];
                let passed = order[j + 1];
                order = order.update(j as int, passed).update(j + 1, moved);
            }
            j += 1;
        }
    }
    assert(stably_sorted(old(v1)@, old(v2)@, v1@, v2@, order));
}

/// Batch vertices by texture ID.
///
/// Groups together multiple vertices with the same texture ID into a
/// rendering batch and limits the maximum size of each batch.
#[derive(PartialEq, Eq, Debug)]
pub struct VertexBatcher<V> {
    pub texture_ids: Vec<u32>,
    pub vertices: Vec<V>,
}

/// Batch of vertices with consistent texture ID: the vertices from `start`
/// up to `end`.
#[derive(Copy, Clone, PartialEq, Eq, Debug)]
pub struct VertexBatch {
    pub texture_id: u32,
    pub start: usize,
    pub end: usize,
}

/// Walk over the batched vertex groups of a batcher.
#[derive(Copy, Clone, PartialEq, Eq, Debug)]
pub struct VertexBatches {
    pub offset: usize,
}

/// End of the batch that starts at `offset`: the first index from there on
/// that has another texture ID, or comes after as many vertices as a batch
/// may hold, or is the end of the list.
pub open spec fn batch_end(texture_ids: Seq<u32>, offset: int, end: int) -> bool {
    &&& offset < end <= texture_ids.len()
    &&& end - offset <= MAX_BATCH_SIZE
    &&& forall|k: int| offset <= k < end ==> texture_ids[k] == texture_ids[offset]
    &&& end == texture_ids.len() || end - offset == MAX_BATCH_SIZE || texture_ids[end]
        != texture_ids[offset]
}

impl<V> VertexBatcher<V> {
    /// Every vertex has a texture ID.
    pub open spec fn wf(&self) -> bool {
        self.texture_ids.len() == self.vertices.len()
    }

    /// Batcher without vertices.
    pub fn new() -> (batcher: Self)
        ensures
            batcher.texture_ids@.len() == 0,
            batcher.vertices@.len() == 0,
            batcher.wf(),
    {
        Self { texture_ids: Vec::new(), vertices: Vec::new() }
    }

    /// Add a vertex to the batcher.
    pub fn push(&mut self, texture_id: u32, vertex: V)
        ensures
            final(self).texture_ids@ == old(self).texture_ids@.push(texture_id),
            final(self).vertices@ == old(self).vertices@.push(vertex),
            old(self).wf() ==> final(self).wf(),
    {
        self.texture_ids.push(texture_id);
        self.vertices.push(vertex);
    }

    /// Get all vertex batches.
    ///
    /// The vertices are sorted by their texture ID, vertices of one texture
    /// keeping their order, and the walk starts at the first of them.
    pub fn batches(&mut self) -> (batches: VertexBatches)
        requires
            old(self).wf(),
        ensures
            final(self).wf(),
            batches.offset == 0,
            exists|order: Seq<int>|
                stably_sorted(
                    old(self).texture_ids@,
                    old(self).vertices@,
                    final(self).texture_ids@,
                    final(self).vertices@,
                    order,
                ),
    {
        sort_multiple(&mut self.texture_ids, &mut self.vertices);
        proof {
            let order = choose|order: Seq<int>|
                stably_sorted(
                    old(self).texture_ids@,
                    old(self).vertices@,
                    self.texture_ids@,
                    self.vertices@,
                    order,
                );
            assert(stably_sorted(
                old(self).texture_ids@,
                old(self).vertices@,
                self.texture_ids@,
                self.vertices@,
                order,
            ));
        }

        VertexBatches { offset: 0 }
    }

    /// Remove all vertices, once their batches were drawn.
    pub fn clear(&mut self)
        ensures
            final(self).texture_ids@.len() == 0,
            final(self).vertices@.len() == 0,
            final(self).wf(),
    {
        self.texture_ids.clear();
        self.vertices.clear();
    }
}

impl VertexBatches {
    /// Get the next vertex batch.
    ///
    /// Groups all vertices up to `MAX_BATCH_SIZE` with identical texture
    /// ID.
    pub fn next<V>(&mut self, batcher: &VertexBatcher<V>) -> (batch: Option<VertexBatch>)
        requires
            batcher.wf(),
        ensures
            old(self).offset >= batcher.vertices.len() ==> batch is None && *final(self) == *old(self),
            old(self).offset < batcher.vertices.len() ==> {
                &&& batch matches Some(batch)
                &&& batch.start == old(self).offset
                &&& batch.texture_id == batcher.texture_ids@[old(self).offset as int]
                &&& batch_end(batcher.texture_ids@, batch.start as int, batch.end as int)
                &&& final(self).offset == batch.end
            },
    {
        let vertex_count = batcher.vertices.len();
        if self.offset >= vertex_count {
            return None;
        }
        let texture_id = batcher.texture_ids[self.offset];
        let remaining = vertex_count - self.offset;
        let max_size = if remaining < MAX_BATCH_SIZE {
            remaining
        } else {
            MAX_BATCH_SIZE
        };
        let start = self.offset;
        let mut batch_size: usize = 1;
        while batch_size < max_size && batcher.texture_ids[start + batch_size] == texture_id
            invariant
                batcher.wf(),
                start < batcher.vertices.len(),
                vertex_count == batcher.vertices.len(),
                texture_id == batcher.texture_ids@[start as int],
                1 <= batch_size <= max_size,
                max_size <= MAX_BATCH_SIZE,
                start + max_size <= vertex_count,
                max_size == MAX_BATCH_SIZE || start + max_size == vertex_count,
                forall|k: int| start <= k < start + batch_size ==> batcher.texture_ids@[k] == texture_id,
            decreases max_size - batch_size,
        {
            batch_size += 1;
        }
        let batch_end = start + batch_size;
        self.offset = batch_end;

        Some(VertexBatch { texture_id, start, end: batch_end })
    }
}

impl VertexBatch {
    /// Number of indices that draw `vertex_count` vertices: six for each
    /// four of them.
    pub fn num_indices(vertex_count: usize) -> (indices: usize)
        requires
            vertex_count <= MAX_BATCH_SIZE,
        ensures
            indices == vertex_count / 4 * 6,
    {
        vertex_count / 4 * 6
    }
}

/// Vertex of a subtexture.
#[derive(Copy, Clone, PartialEq, Eq, Debug)]
pub struct GlyphVertex {
    /// Vertex position.
    pub x: i64,
    pub y: i64,
    /// Offsets into the atlas, in texels.
    pub u: i32,
    pub v: i32,
    /// The subtexture holds colors rather than coverage.
    pub multicolor: bool,
}

impl GlSubTexture {
    /// Vertices for the subtexture when it is drawn at `x` and `y`: its
    /// bottom-left, top-left, top-right and bottom-right corner.
    pub open spec fn corners(&self, x: int, y: int) -> Seq<GlyphVertex> {
        let left = x + self.left;
        let top = y - self.top;
        seq![
            GlyphVertex {
                x: left as i64,
                y: (top + self.height) as i64,
                u: self.atlas_x,
                v: (self.atlas_y + self.height) as i32,
                multicolor: self.multicolor,
            },
            GlyphVertex {
                x: left as i64,
                y: top as i64,
                u: self.atlas_x,
                v: self.atlas_y,
                multicolor: self.multicolor,
            },
            GlyphVertex {
                x: (left + self.width) as i64,
                y: top as i64,
                u: (self.atlas_x + self.width) as i32,
                v: self.atlas_y,
                multicolor: self.multicolor,
            },
            GlyphVertex {
                x: (left + self.width) as i64,
                y: (top + self.height) as i64,
                u: (self.atlas_x + self.width) as i32,
                v: (self.atlas_y + self.height) as i32,
                multicolor: self.multicolor,
            },
        ]
    }

    /// Vertices for this subtexture.
    ///
    /// A subtexture without area has none.
    pub fn vertices(&self, x: i64, y: i64) -> (vertices: Option<[GlyphVertex; 4]>)
        requires
            self.wf(),
            -0x4000_0000_0000_0000 <= x <= 0x4000_0000_0000_0000,
            -0x4000_0000_0000_0000 <= y <= 0x4000_0000_0000_0000,
        ensures
            self.width == 0 || self.height == 0 ==> vertices is None,
            self.width != 0 && self.height != 0 ==> vertices is Some && vertices->0@ == self.corners(
                x as int,
                y as int,
            ),
    {
        if self.width == 0 || self.height == 0 {
            return None;
        }
        let origin_x = x;
        let origin_y = y;
        let x = origin_x + self.left as i64;
        let y = origin_y - self.top as i64;
        let width = self.width as i64;
        let height = self.height as i64;
        let multicolor = self.multicolor;

        // Bottom-Left vertex.
        let bottom_left = GlyphVertex {
            x,
            y: y + height,
            u: self.atlas_x,
            v: self.atlas_y + self.height as i32,
            multicolor,
        };

        // Top-Left vertex.
        let top_left = GlyphVertex { x, y, u: self.atlas_x, v: self.atlas_y, multicolor };

        // Top-Right vertex.
        let top_right = GlyphVertex {
            x: x + width,
            y,
            u: self.atlas_x + self.width as i32,
            v: self.atlas_y,
            multicolor,
        };

        // Bottom-Right vertex.
        let bottom_right = GlyphVertex {
            x: x + width,
            y: y + height,
            u: self.atlas_x + self.width as i32,
            v: self.atlas_y + self.height as i32,
            multicolor,
        };

        let vertices = [bottom_left, top_left, top_right, bottom_right];
        assert(vertices@ =~= self.corners(origin_x as int, origin_y as int));
        Some(vertices)
    }
}

} // verus!
