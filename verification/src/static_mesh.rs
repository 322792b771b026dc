//! A mesh whose vertex data does not change: an index buffer and a list of named
//! vertex attributes, the first of which holds the positions.

use vstd::prelude::*;

verus! {

/// A named per-vertex attribute: `no_components` values for each vertex, stored one
/// after the other. Each value is a 32 bit float, held by its bit pattern.
#[derive(Debug)]
pub struct Attribute {
    /// The name the shaders know the attribute by.
    pub name: String,
    /// The number of values per vertex.
    pub no_components: usize,
    /// The bit patterns of the values.
    pub data: Vec<u32>,
}

impl Attribute {
    /// An attribute with the given name, number of values per vertex and data.
    pub fn new(name: &str, no_components: usize, data: Vec<u32>) -> (r: Attribute)
        ensures
            r.name@ == name@,
            r.no_components == no_components,
            r.data@ == data@,
    {
        Attribute { name: String::from_str(name), no_components, data }
    }

    /// Whether two attributes hold the same name, layout and values.
    pub open spec fn same_as(&self, other: &Attribute) -> bool {
        &&& self.name@ == other.name@
        &&& self.no_components == other.no_components
        &&& self.data@ == other.data@
    }
}

impl Clone for Attribute {
    fn clone(&self) -> (r: Self)
        ensures
            r.same_as(self),
    {
        Attribute { name: self.name.clone(), no_components: self.no_components, data: self.data.clone() }
    }
}

/// Why a mesh could not be made.
#[derive(Debug)]
pub enum Error {
    FailedToFindCustomAttribute { message: String },
    FailedToFindEntryForVertexID { message: String },
    WrongSizeOfAttribute { message: String },
    NeedPositionAttributeToCreateMesh { message: String },
}

/// A mesh with an index buffer and at least one attribute, the positions first.
#[derive(Debug)]
pub struct StaticMesh {
    indices: Vec<u32>,
    attributes: Vec<Attribute>,
}

/// The first position in `attributes` of an attribute with the given name.
pub open spec fn first_named(attributes: Seq<Attribute>, name: Seq<char>) -> Option<int> {
    if exists|i: int| 0 <= i < attributes.len() && attributes[i].name@ == name {
        Some(
            choose|i: int|
                0 <= i < attributes.len() && attributes[i].name@ == name && forall|j: int|
                    0 <= j < i ==> attributes[j].name@ != name,
        )
    } else {
        None
    }
}

impl StaticMesh {
    #[verifier::type_invariant]
    spec fn has_positions(&self) -> bool {
        self.attributes.len() > 0
    }

    /// The indices of the mesh.
    pub closed spec fn spec_indices(&self) -> Seq<u32> {
        self.indices@
    }

    /// The attributes of the mesh, the positions first.
    pub closed spec fn spec_attributes(&self) -> Seq<Attribute> {
        self.attributes@
    }

    /// Creates a mesh from its indices and attributes; fails when there is no
    /// attribute, since the first one must hold the positions.
    pub fn create(indices: Vec<u32>, attributes: Vec<Attribute>) -> (r: Result<StaticMesh, Error>)
        ensures
            attributes@.len() == 0 <==> r is Err,
            r matches Ok(m) ==> m.spec_indices() == indices@ && m.spec_attributes()
                == attributes@,
            r matches Err(e) ==> e matches Error::NeedPositionAttributeToCreateMesh { message }
                && message@ == "Need at least the position attribute to create a mesh."@,
    {
        if attributes.len() == 0 {
            return Err(
                Error::NeedPositionAttributeToCreateMesh {
                    message: String::from_str(
                        "Need at least the position attribute to create a mesh.",
                    ),
                },
            );
        }
        Ok(StaticMesh { indices, attributes })
    }

    /// The indices of the mesh.
    pub fn indices(&self) -> (r: &Vec<u32>)
        ensures
            r@ == self.spec_indices(),
    {
        &self.indices
    }

    /// The first attribute with the given name, if there is one.
    pub fn attribute(&self, name: &str) -> (r: Option<&Attribute>)
        ensures
            match first_named(self.spec_attributes(), name@) {
                Some(i) => r == Some(&self.spec_attributes()[i]),
                None => r is None,
            },
    {
        let wanted = String::from_str(name);
        let mut i: usize = 0;
        while i < self.attributes.len()
            invariant
                i <= self.attributes@.len(),
                wanted@ == name@,
                forall|j: int| 0 <= j < i ==> self.attributes@[j].name@ != name@,
            decreases self.attributes.len() - i,
        {
            if self.attributes[i].name == wanted {
                let ghost k = first_named(self.attributes@, name@);
                proof {
                    let c = k->0;
                    assert(c == i as int) by {
                        if c < i {
                            assert(self.attributes@[c].name@ != name@);
                        } else if c > i {
                            assert(self.attributes@[i as int].name@ == name@);
                        }
                    }
                }
                return Some(&self.attributes[i]);
            }
            i = i + 1;
        }
        None
    }

    /// The number of vertices: the length of the first attribute divided by its
    /// number of values per vertex.
    pub fn no_vertices(&self) -> (r: usize)
        requires
            self.spec_attributes().len() > 0 ==> self.spec_attributes()[0].no_components > 0,
        ensures
            r == self.spec_attributes()[0].data@.len() / (self.spec_attributes()[0].no_components as nat),
    {
        proof {
            use_type_invariant(self);
        }
        let att = &self.attributes[0];
        att.data.len() / att.no_components
    }

    /// The number of triangles: a third of the number of indices.
    pub fn no_faces(&self) -> (r: usize)
        ensures
            r == self.spec_indices().len() / 3,
    {
        self.indices.len() / 3
    }
}

impl Clone for StaticMesh {
    /// A copy with the same indices and attributes of the same names, layouts and
    /// values.
    fn clone(&self) -> (r: Self)
        ensures
            r.spec_indices() == self.spec_indices(),
            r.spec_attributes().len() == self.spec_attributes().len(),
            forall|i: int|
                0 <= i < self.spec_attributes().len() ==> #[trigger] r.spec_attributes()[i].same_as(
                    &self.spec_attributes()[i],
                ),
    {
        proof {
            use_type_invariant(self);
        }
        let mut attributes: Vec<Attribute> = Vec::new();
        let mut i: usize = 0;
        while i < self.attributes.len()
            invariant
                i <= self.attributes@.len(),
                attributes@.len() == i,
                forall|j: int| 0 <= j < i ==> #[trigger] attributes@[j].same_as(&self.attributes@[j]),
            decreases self.attributes@.len() - i,
        {
            attributes.push(self.attributes[i].clone());
            i = i + 1;
        }
        StaticMesh { indices: self.indices.clone(), attributes }
    }
}

/// The indices of a loaded model: its own when it has any, else one per vertex in
/// order, a vertex being three position values.
pub open spec fn spec_model_indices(indices: Seq<u32>, position_count: usize) -> Seq<u32> {
    if indices.len() > 0 {
        indices
    } else {
        Seq::new(((position_count as u32) / 3) as nat, |i: int| i as u32)
    }
}

/// Makes the mesh of one model of a loaded model file from its indices, its
/// position values and its normal values (bit patterns of 32 bit floats): the
/// model's indices, or one index per vertex when it has none; a position
/// attribute of three values per vertex, and a normal attribute likewise when the
/// model has normals.
pub fn mesh_from_model(indices: Vec<u32>, positions: Vec<u32>, normals: Vec<u32>) -> (r: Result<StaticMesh, Error>)
    ensures
        r matches Ok(m) && m.spec_indices() == spec_model_indices(indices@, positions.len())
            && m.spec_attributes().len() == (if normals@.len() > 0 { 2int } else { 1int })
            && m.spec_attributes()[0].name@ == "position"@
            && m.spec_attributes()[0].no_components == 3
            && m.spec_attributes()[0].data@ == positions@
            && (normals@.len() > 0 ==> m.spec_attributes()[1].name@ == "normal"@
                && m.spec_attributes()[1].no_components == 3
                && m.spec_attributes()[1].data@ == normals@),
{
    let mesh_indices = if indices.len() > 0 {
        indices
    } else {
        let n: u32 = (positions.len() as u32) / 3;
        let mut v: Vec<u32> = Vec::new();
        let mut i: u32 = 0;
        while i < n
            invariant
                i <= n,
                v@ == Seq::new(i as nat, |k: int| k as u32),
            decreases n - i,
        {
            v.push(i);
            i = i + 1;
            assert(v@ =~= Seq::new(i as nat, |k: int| k as u32));
        }
        v
    };
    let ghost expected = spec_model_indices(indices@, positions.len());
    assert(mesh_indices@ =~= expected);
    let has_normals = normals.len() > 0;
    let mut attributes: Vec<Attribute> = Vec::new();
    attributes.push(Attribute::new("position", 3, positions));
    if has_normals {
        attributes.push(Attribute::new("normal", 3, normals));
    }
    StaticMesh::create(mesh_indices, attributes)
}

} // verus!
