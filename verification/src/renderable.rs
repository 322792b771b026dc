//! Objects that can be handed to the renderer: they give their indices, their
//! vertex attributes by name and their number of vertices.

use vstd::prelude::*;

use crate::static_mesh::{first_named, Attribute, StaticMesh};

verus! {

/// Something that can be rendered: it gives its indices, its attributes by name and
/// its number of vertices.
pub trait Renderable {
    /// The indices that the object renders with.
    spec fn index_view(&self) -> Seq<u32>;

    /// The attributes that the object holds, in order.
    spec fn attribute_view(&self) -> Seq<Attribute>;

    /// Whether the object can give its number of vertices.
    spec fn renders(&self) -> bool;

    /// The number of vertices that the object reports.
    spec fn vertex_count(&self) -> int;

    /// The indices, three per triangle.
    fn indices(&self) -> (r: Vec<u32>)
        ensures
            r@ == self.index_view(),
    ;

    /// A copy of the first attribute with the given name, if there is one.
    fn attribute(&self, name: &str) -> (r: Option<Attribute>)
        ensures
            match first_named(self.attribute_view(), name@) {
                Some(i) => r matches Some(a) && a.same_as(&self.attribute_view()[i]),
                None => r is None,
            },
    ;

    /// The number of vertices.
    fn no_vertices(&self) -> (r: usize)
        requires
            self.renders(),
        ensures
            r == self.vertex_count(),
    ;
}

impl Renderable for StaticMesh {
    open spec fn index_view(&self) -> Seq<u32> {
        self.spec_indices()
    }

    open spec fn attribute_view(&self) -> Seq<Attribute> {
        self.spec_attributes()
    }

    open spec fn renders(&self) -> bool {
        self.spec_attributes().len() > 0 ==> self.spec_attributes()[0].no_components > 0
    }

    open spec fn vertex_count(&self) -> int {
        (self.spec_attributes()[0].data@.len() / (self.spec_attributes()[0].no_components as nat)) as int
    }

    fn indices(&self) -> Vec<u32> {
        StaticMesh::indices(self).clone()
    }

    fn attribute(&self, name: &str) -> Option<Attribute> {
        match StaticMesh::attribute(self, name) {
            Some(a) => Some(a.clone()),
            None => None,
        }
    }

    fn no_vertices(&self) -> usize {
        StaticMesh::no_vertices(self)
    }
}

/// `p` is the first place at which `id` stands in `ids`.
pub open spec fn is_first_position(ids: Seq<usize>, id: usize, p: int) -> bool {
    &&& 0 <= p < ids.len()
    &&& ids[p] == id
    &&& forall|q: int| 0 <= q < p ==> ids[q] != id
}

/// The first place at which `id` stands in `ids` (meaningful when it stands there).
pub open spec fn first_position(ids: Seq<usize>, id: usize) -> int {
    choose|p: int| is_first_position(ids, id, p)
}

/// There is one first place.
proof fn lemma_first_position(ids: Seq<usize>, id: usize, p: int)
    requires
        is_first_position(ids, id, p),
    ensures
        first_position(ids, id) == p,
{
    let q = first_position(ids, id);
    assert(is_first_position(ids, id, q));
    if q < p {
        assert(ids[q] != id);
    } else if p < q {
        assert(ids[p] != id);
    }
}

/// The index buffer of a mesh that names its vertices by id: each corner of each
/// face, in order, becomes the position of its vertex in the list of all vertices.
/// Every corner must name a vertex of the list.
pub fn indices_by_position(vertex_ids: &Vec<usize>, corner_ids: &Vec<usize>) -> (r: Vec<u32>)
    requires
        forall|i: int| 0 <= i < corner_ids@.len() ==> vertex_ids@.contains(#[trigger] corner_ids@[i]),
    ensures
        r@.len() == corner_ids@.len(),
        forall|i: int|
            0 <= i < corner_ids@.len() ==> #[trigger] r@[i] == first_position(vertex_ids@, corner_ids@[i]) as u32,
{
    let mut r: Vec<u32> = Vec::new();
    let mut i: usize = 0;
    while i < corner_ids.len()
        invariant
            i <= corner_ids@.len(),
            r@.len() == i,
            forall|k: int| 0 <= k < corner_ids@.len() ==> vertex_ids@.contains(#[trigger] corner_ids@[k]),
            forall|k: int|
                0 <= k < i ==> #[trigger] r@[k] == first_position(vertex_ids@, corner_ids@[k]) as u32,
        decreases corner_ids@.len() - i,
    {
        let id = corner_ids[i];
        assert(vertex_ids@.contains(corner_ids@[i as int]));
        let mut p: usize = 0;
        while p < vertex_ids.len() && vertex_ids[p] != id
            invariant
                p <= vertex_ids@.len(),
                vertex_ids@.contains(id),
                forall|q: int| 0 <= q < p ==> vertex_ids@[q] != id,
            decreases vertex_ids@.len() - p,
        {
            p = p + 1;
        }
        proof {
            lemma_first_position(vertex_ids@, id, p as int);
        }
        r.push(p as u32);
        i = i + 1;
    }
    r
}

} // verus!
