//! The scene model: a loaded mesh as it stands in memory before it is
//! submitted to the renderer.

use crate::error::RenderError;
use crate::numeric::Vec2;
use crate::numeric::Vec3;
use crate::numeric::Vec4;
use vstd::prelude::*;

verus! {

/// One corner of a triangle.
#[derive(Clone, Copy, Debug, PartialEq, Eq)]
pub struct Vertex {
    pub position: Vec3,
    pub normal: Vec3,
    pub uv: Vec2,
    /// The tangent in `x`, `y`, `z` and its handedness in `w`.
    pub tangent: Vec4,
}

/// The four textures of a surface, each named by the identity of its image
/// source. Materials may name the same source; the texture cache then gives
/// them the same texture.
#[derive(Clone, Debug, PartialEq, Eq)]
pub struct Material {
    /// Base color.
    pub albedo: String,
    /// Metallic and roughness, packed into one image.
    pub metaghness: String,
    /// Tangent-space normal map.
    pub normal: String,
    /// Ambient occlusion.
    pub occlusion: String,
}

/// An indivisible drawable unit: geometry, its placement and its material.
#[derive(Clone, Debug, PartialEq, Eq)]
pub struct Primitive {
    pub vertices: Vec<Vertex>,
    /// Three indices into `vertices` per triangle.
    pub indices: Vec<u32>,
    pub translation: Vec3,
    pub scaling: Vec3,
    pub material: Material,
}

/// Whether `indices` describes triangles over `vertex_count` vertices: they
/// come in threes and each names a vertex.
pub open spec fn forms_triangles(vertex_count: nat, indices: Seq<u32>) -> bool {
    &&& indices.len() % 3 == 0
    &&& forall|k: int| 0 <= k < indices.len() ==> indices[k] < vertex_count
}

impl Primitive {
    /// The indices describe triangles over the vertices.
    pub open spec fn is_drawable(&self) -> bool {
        forms_triangles(self.vertices@.len(), self.indices@)
    }

    /// Decides [`Primitive::is_drawable`].
    pub fn check(&self) -> (r: bool)
        ensures
            r == self.is_drawable(),
    {
        if self.indices.len() % 3 != 0 {
            return false;
        }
        let mut k: usize = 0;
        while k < self.indices.len()
            invariant
                k <= self.indices.len(),
                forall|j: int| 0 <= j < k ==> self.indices@[j] < self.vertices@.len(),
            decreases self.indices.len() - k,
        {
            if self.indices[k] as usize >= self.vertices.len() {
                return false;
            }
            k += 1;
        }
        true
    }
}

/// What a [`Mesh`] holds.
pub ghost struct MeshView {
    pub primitives: Seq<Primitive>,
    pub translation: Vec3,
    pub scaling: Vec3,
}

/// Whether every primitive of a sequence is drawable.
pub open spec fn all_drawable(primitives: Seq<Primitive>) -> bool {
    forall|i: int| 0 <= i < primitives.len() ==> (#[trigger] primitives[i]).is_drawable()
}

/// The primitives loaded from one source asset, in the order of the asset.
/// The primitives are siblings: there is no hierarchy among them. A mesh
/// does not change once it is built.
#[derive(Clone, Debug)]
pub struct Mesh {
    primitives: Vec<Primitive>,
    translation: Vec3,
    scaling: Vec3,
}

impl View for Mesh {
    type V = MeshView;

    closed spec fn view(&self) -> MeshView {
        MeshView {
            primitives: self.primitives@,
            translation: self.translation,
            scaling: self.scaling,
        }
    }
}

impl Mesh {
    /// Every primitive is drawable.
    pub open spec fn wf(&self) -> bool {
        all_drawable(self@.primitives)
    }

    /// Builds a mesh from loaded primitives. `translation` and `scaling`
    /// record where the asset was placed in world space; the loader has
    /// already applied them to the transform of each primitive.
    ///
    /// Fails with [`RenderError::AssetLoad`] exactly when some primitive is
    /// not drawable.
    pub fn new(primitives: Vec<Primitive>, translation: Vec3, scaling: Vec3) -> (r: Result<
        Mesh,
        RenderError,
    >)
        ensures
            match r {
                Ok(mesh) => {
                    &&& all_drawable(primitives@)
                    &&& mesh@ == (MeshView { primitives: primitives@, translation, scaling })
                    &&& mesh.wf()
                },
                Err(e) => e == RenderError::AssetLoad && !all_drawable(primitives@),
            },
    {
        let mut i: usize = 0;
        while i < primitives.len()
            invariant
                i <= primitives.len(),
                forall|j: int| 0 <= j < i ==> (#[trigger] primitives@[j]).is_drawable(),
            decreases primitives.len() - i,
        {
            if !primitives[i].check() {
                return Err(RenderError::AssetLoad);
            }
            i += 1;
        }
        Ok(Mesh { primitives, translation, scaling })
    }

    /// The number of primitives.
    pub fn primitive_count(&self) -> (n: usize)
        ensures
            n == self@.primitives.len(),
    {
        self.primitives.len()
    }

    /// The primitives, in the order of the asset.
    pub fn primitives(&self) -> (r: &Vec<Primitive>)
        ensures
            r@ == self@.primitives,
    {
        &self.primitives
    }

    /// The translation the asset was placed with.
    pub fn translation(&self) -> (r: Vec3)
        ensures
            r == self@.translation,
    {
        self.translation
    }

    /// The scaling the asset was placed with.
    pub fn scaling(&self) -> (r: Vec3)
        ensures
            r == self@.scaling,
    {
        self.scaling
    }
}

} // verus!
