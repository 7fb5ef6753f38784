use vstd::prelude::*;
use crate::geometry::geometry_of;
use crate::geometry::lemma_flat_grid;
use crate::geometry::lemma_geometry_counts;
use crate::geometry::lemma_geometry_in_bounds;
use crate::geometry::lemma_geometry_well_formed;
use crate::geometry::vertex_of;
use crate::geometry::GeometryBuffer;
use crate::geometry::GeometryView;
use crate::grid::lemma_grid_coords;
use crate::heightfield::sample_heights;
use crate::material::lemma_flat_material;
use crate::material::material_of;
use crate::material::summarize;
use crate::material::MaterialParameters;
use crate::params::MapParams;

verus! {

/// What one run of the generator holds: the parameters it ran on and the two
/// outputs made from them.
pub ghost struct GenerationView {
    pub source: MapParams,
    pub geometry: GeometryView,
    pub material: MaterialParameters,
}

/// The result of generating from `p`.
pub open spec fn generation_of(p: MapParams) -> GenerationView {
    GenerationView { source: p, geometry: geometry_of(p), material: material_of(p) }
}

impl GenerationView {
    /// Geometry and material both come from this generation's own parameters,
    /// and those parameters are valid.
    pub open spec fn is_consistent(self) -> bool {
        &&& self.source.is_valid()
        &&& self.geometry == geometry_of(self.source)
        &&& self.material == material_of(self.source)
    }
}

/// The outputs of one run of the generator, kept together.
///
/// A value of this type is only ever made by generating, and its parts cannot
/// be exchanged, so its geometry and its material always belong to the same
/// run.
#[derive(Debug, PartialEq, Eq)]
pub struct Generation {
    source: MapParams,
    geometry: GeometryBuffer,
    material: MaterialParameters,
}

impl View for Generation {
    type V = GenerationView;

    closed spec fn view(&self) -> GenerationView {
        GenerationView { source: self.source, geometry: self.geometry@, material: self.material }
    }
}

impl Clone for Generation {
    /// Copies the generation with both of its outputs.
    fn clone(&self) -> (copy: Generation)
        ensures
            copy@ == self@,
    {
        proof {
            use_type_invariant(self);
        }
        Generation {
            source: self.source,
            geometry: self.geometry.clone(),
            material: self.material,
        }
    }
}

impl Generation {
    #[verifier::type_invariant]
    closed spec fn inv(&self) -> bool {
        self@.is_consistent()
    }

    /// The parameters that this generation was made from.
    pub fn source(&self) -> (p: MapParams)
        ensures
            p == self@.source,
            self@.is_consistent(),
    {
        proof {
            use_type_invariant(self);
        }
        self.source
    }

    /// The generated surface.
    pub fn geometry(&self) -> (g: &GeometryBuffer)
        ensures
            g@ == self@.geometry,
            g@ == geometry_of(self@.source),
            g@.well_formed(),
    {
        proof {
            use_type_invariant(self);
            lemma_geometry_well_formed(self@.source);
        }
        &self.geometry
    }

    /// The shading inputs that belong to the generated surface.
    pub fn material(&self) -> (m: MaterialParameters)
        ensures
            m == self@.material,
            m == material_of(self@.source),
    {
        proof {
            use_type_invariant(self);
        }
        self.material
    }

    /// Takes the generation apart for a store that keeps the two outputs in
    /// separate places.
    pub fn into_parts(self) -> (parts: (GeometryBuffer, MaterialParameters))
        ensures
            parts.0@ == geometry_of(self@.source),
            parts.1 == material_of(self@.source),
            parts.0@ == self@.geometry,
            parts.1 == self@.material,
    {
        proof {
            use_type_invariant(&self);
        }
        (self.geometry, self.material)
    }
}

/// Generates the surface and its material from `params`.
///
/// The height field is sampled once; geometry and material are both made from
/// those samples.
pub fn generate(params: &MapParams) -> (g: Generation)
    requires
        params.is_valid(),
    ensures
        g@ == generation_of(*params),
        g@.is_consistent(),
{
    let heights: Vec<i64> = sample_heights(params);
    let geometry: GeometryBuffer = GeometryBuffer::from_heights(params, &heights);
    let material: MaterialParameters = summarize(params, &heights);
    Generation { source: *params, geometry, material }
}

/// Generating is a function of the parameters: any two results for equal
/// parameters are equal in every vertex, every index and the material.
pub proof fn lemma_generation_deterministic(
    first: GenerationView,
    second: GenerationView,
    p: MapParams,
    q: MapParams,
)
    requires
        p == q,
        first == generation_of(p),
        second == generation_of(q),
    ensures
        first == second,
        first.geometry.vertices == second.geometry.vertices,
        first.geometry.indices == second.geometry.indices,
        first.material == second.material,
{
}

/// The two outputs of a generation belong together: there is one parameter
/// record of which the geometry and the material are both the result.
pub proof fn lemma_outputs_of_one_run(g: GenerationView)
    requires
        g.is_consistent(),
    ensures
        g == generation_of(g.source),
        exists|p: MapParams|
            p.is_valid() && g.geometry == #[trigger] geometry_of(p) && g.material == material_of(p),
{
    assert(g.geometry == geometry_of(g.source));
}

/// Every generation of valid parameters is consistent and well formed, and has
/// one vertex for each grid point and two triangles for each cell, each index
/// naming one of the vertices.
pub proof fn lemma_generation_shape(p: MapParams)
    requires
        p.is_valid(),
    ensures
        generation_of(p).is_consistent(),
        generation_of(p).geometry.well_formed(),
        generation_of(p).geometry.vertices.len() == p.width * p.height,
        generation_of(p).geometry.triangle_count() == 2 * ((p.width - 1) * (p.height - 1)),
        forall|n: int|
            0 <= n < generation_of(p).geometry.indices.len() ==> (
            #[trigger] generation_of(p).geometry.indices[n]) < generation_of(
                p,
            ).geometry.vertices.len(),
{
    lemma_geometry_counts(p);
    lemma_geometry_in_bounds(p);
    lemma_geometry_well_formed(p);
}

/// With amplitude zero the generated surface is a flat plane: every vertex has
/// height zero and faces straight up, and the material records a height range
/// of zero.
pub proof fn lemma_flat_generation(p: MapParams)
    requires
        p.is_valid(),
        p.amplitude == 0,
    ensures
        forall|k: int|
            0 <= k < generation_of(p).geometry.vertices.len() ==> {
                let v = #[trigger] generation_of(p).geometry.vertices[k];
                v.y == 0 && v.nx == 0 && v.nz == 0 && v.ny > 0
            },
        generation_of(p).material.height_range() == 0,
        generation_of(p).material.min_height == 0,
        generation_of(p).material.max_height == 0,
{
    lemma_flat_material(p);
    lemma_geometry_counts(p);
    let g = generation_of(p).geometry;
    assert forall|k: int| 0 <= k < g.vertices.len() implies {
        let v = #[trigger] g.vertices[k];
        v.y == 0 && v.nx == 0 && v.nz == 0 && v.ny > 0
    } by {
        lemma_grid_coords(p.width as int, p.height as int, k);
        lemma_flat_grid(p, k % (p.width as int), k / (p.width as int));
        assert(g.vertices[k] == vertex_of(p, k % (p.width as int), k / (p.width as int)));
    }
}

} // verus!
