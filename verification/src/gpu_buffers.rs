//! The bookkeeping of the buffers that hold the scene for the renderer: when a
//! buffer must grow, how large the buffers of a mesh are, and when a group of
//! buffers must be bound again.
use vstd::prelude::*;

verus! {

/// Whether writing `new_size` bytes into a buffer of `current_size` bytes needs
/// a new buffer: exactly when the data does not fit. A buffer never shrinks.
pub fn should_resize(current_size: u64, new_size: u64) -> (r: bool)
    ensures
        r == (new_size > current_size),
{
    new_size > current_size
}

/// The size of a buffer after `new_size` bytes were written into it.
pub fn size_after_write(current_size: u64, new_size: u64) -> (r: u64)
    ensures
        r == if new_size > current_size {
            new_size
        } else {
            current_size
        },
        r >= current_size,
        r >= new_size,
{
    if should_resize(current_size, new_size) {
        new_size
    } else {
        current_size
    }
}

/// The number of bytes of `per_item * item_size` bytes for each of `count`
/// items, with room for one item where there is none.
pub open spec fn mesh_bytes(count: int, item_size: int, per_item: int) -> int {
    (if count < 1 {
        1
    } else {
        count
    }) * item_size * per_item
}

/// The size in bytes of a buffer that holds `per_item` elements of `item_size`
/// bytes for each of `count` items, and for one item where `count` is zero;
/// `None` where that size does not fit in 64 bits.
pub fn mesh_buffer_size(count: usize, item_size: u64, per_item: u64) -> (r: Option<u64>)
    ensures
        match r {
            Some(size) => size == mesh_bytes(count as int, item_size as int, per_item as int),
            None => mesh_bytes(count as int, item_size as int, per_item as int) > u64::MAX,
        },
{
    let items: u64 = if count < 1 {
        1
    } else {
        count as u64
    };
    match items.checked_mul(item_size) {
        Some(bytes) => bytes.checked_mul(per_item),
        None => {
            proof {
                assert(items * item_size * per_item > u64::MAX || per_item == 0)
                    by (nonlinear_arith)
                    requires
                        items * item_size > u64::MAX,
                        per_item >= 0,
                ;
            }
            if per_item == 0 {
                proof {
                    assert(items * item_size * 0 == 0) by (nonlinear_arith);
                }
                Some(0)
            } else {
                None
            }
        },
    }
}

/// The size of the vertex buffer for the triangles cut from `count`
/// tetrahedra: four vertices for each.
pub fn tetrahedron_triangle_buffer_size(count: usize, vertex_size: u64) -> (r: Option<u64>)
    ensures
        match r {
            Some(size) => size == mesh_bytes(count as int, vertex_size as int, 4),
            None => mesh_bytes(count as int, vertex_size as int, 4) > u64::MAX,
        },
{
    mesh_buffer_size(count, vertex_size, 4)
}

/// The size of the index buffer for the triangles cut from `count` tetrahedra:
/// six indices for each.
pub fn tetrahedron_index_buffer_size(count: usize, index_size: u64) -> (r: Option<u64>)
    ensures
        match r {
            Some(size) => size == mesh_bytes(count as int, index_size as int, 6),
            None => mesh_bytes(count as int, index_size as int, 6) > u64::MAX,
        },
{
    mesh_buffer_size(count, index_size, 6)
}

/// Seals `BufferTuple`: the tuples that implement it are those of this module.
pub trait BufferTupleSealed {
}

/// What the buffers of a group report after a write: for each buffer, in
/// order, whether it had to be recreated.
pub trait BufferTuple: BufferTupleSealed {
    /// The reports as a sequence.
    spec fn recreated(&self) -> Seq<bool>;

    /// Whether any buffer of the group was recreated, so that the group must be
    /// bound again.
    fn any_recreated(&self) -> (r: bool)
        ensures
            r == self.recreated().contains(true),
    ;
}

impl BufferTupleSealed for () {
}

impl BufferTuple for () {
    open spec fn recreated(&self) -> Seq<bool> {
        Seq::empty()
    }

    fn any_recreated(&self) -> (r: bool) {
        false
    }
}

impl BufferTupleSealed for (bool,) {
}

impl BufferTuple for (bool,) {
    open spec fn recreated(&self) -> Seq<bool> {
        seq![self.0]
    }

    fn any_recreated(&self) -> (r: bool) {
        proof {
            assert(self.recreated()[0] == self.0);
        }
        self.0
    }
}

impl BufferTupleSealed for (bool, bool) {
}

impl BufferTuple for (bool, bool) {
    open spec fn recreated(&self) -> Seq<bool> {
        seq![self.0, self.1]
    }

    fn any_recreated(&self) -> (r: bool) {
        proof {
            assert(self.recreated()[0] == self.0);
            assert(self.recreated()[1] == self.1);
        }
        self.0 || self.1
    }
}

impl BufferTupleSealed for (bool, bool, bool) {
}

impl BufferTuple for (bool, bool, bool) {
    open spec fn recreated(&self) -> Seq<bool> {
        seq![self.0, self.1, self.2]
    }

    fn any_recreated(&self) -> (r: bool) {
        proof {
            assert(self.recreated()[0] == self.0);
            assert(self.recreated()[1] == self.1);
            assert(self.recreated()[2] == self.2);
        }
        self.0 || self.1 || self.2
    }
}

impl BufferTupleSealed for (bool, bool, bool, bool) {
}

impl BufferTuple for (bool, bool, bool, bool) {
    open spec fn recreated(&self) -> Seq<bool> {
        seq![self.0, self.1, self.2, self.3]
    }

    fn any_recreated(&self) -> (r: bool) {
        proof {
            assert(self.recreated()[0] == self.0);
            assert(self.recreated()[1] == self.1);
            assert(self.recreated()[2] == self.2);
            assert(self.recreated()[3] == self.3);
        }
        self.0 || self.1 || self.2 || self.3
    }
}

impl BufferTupleSealed for (bool, bool, bool, bool, bool) {
}

impl BufferTuple for (bool, bool, bool, bool, bool) {
    open spec fn recreated(&self) -> Seq<bool> {
        seq![self.0, self.1, self.2, self.3, self.4]
    }

    fn any_recreated(&self) -> (r: bool) {
        proof {
            assert(self.recreated()[0] == self.0);
            assert(self.recreated()[1] == self.1);
            assert(self.recreated()[2] == self.2);
            assert(self.recreated()[3] == self.3);
            assert(self.recreated()[4] == self.4);
        }
        self.0 || self.1 || self.2 || self.3 || self.4
    }
}

impl BufferTupleSealed for (bool, bool, bool, bool, bool, bool) {
}

impl BufferTuple for (bool, bool, bool, bool, bool, bool) {
    open spec fn recreated(&self) -> Seq<bool> {
        seq![self.0, self.1, self.2, self.3, self.4, self.5]
    }

    fn any_recreated(&self) -> (r: bool) {
        proof {
            assert(self.recreated()[0] == self.0);
            assert(self.recreated()[1] == self.1);
            assert(self.recreated()[2] == self.2);
            assert(self.recreated()[3] == self.3);
            assert(self.recreated()[4] == self.4);
            assert(self.recreated()[5] == self.5);
        }
        self.0 || self.1 || self.2 || self.3 || self.4 || self.5
    }
}

impl BufferTupleSealed for (bool, bool, bool, bool, bool, bool, bool) {
}

impl BufferTuple for (bool, bool, bool, bool, bool, bool, bool) {
    open spec fn recreated(&self) -> Seq<bool> {
        seq![self.0, self.1, self.2, self.3, self.4, self.5, self.6]
    }

    fn any_recreated(&self) -> (r: bool) {
        proof {
            assert(self.recreated()[0] == self.0);
            assert(self.recreated()[1] == self.1);
            assert(self.recreated()[2] == self.2);
            assert(self.recreated()[3] == self.3);
            assert(self.recreated()[4] == self.4);
            assert(self.recreated()[5] == self.5);
            assert(self.recreated()[6] == self.6);
        }
        self.0 || self.1 || self.2 || self.3 || self.4 || self.5 || self.6
    }
}

impl BufferTupleSealed for (bool, bool, bool, bool, bool, bool, bool, bool) {
}

impl BufferTuple for (bool, bool, bool, bool, bool, bool, bool, bool) {
    open spec fn recreated(&self) -> Seq<bool> {
        seq![self.0, self.1, self.2, self.3, self.4, self.5, self.6, self.7]
    }

    fn any_recreated(&self) -> (r: bool) {
        proof {
            assert(self.recreated()[0] == self.0);
            assert(self.recreated()[1] == self.1);
            assert(self.recreated()[2] == self.2);
            assert(self.recreated()[3] == self.3);
            assert(self.recreated()[4] == self.4);
            assert(self.recreated()[5] == self.5);
            assert(self.recreated()[6] == self.6);
            assert(self.recreated()[7] == self.7);
        }
        self.0 || self.1 || self.2 || self.3 || self.4 || self.5 || self.6 || self.7
    }
}

} // verus!
