//! The visibility polygon: a triangle fan around the actor whose rim follows
//! the nearest obstruction along each ray of the sweep.
//!
//! Vertices are kept in polar form in the actor's local frame, an angle of
//! the sweep and a distance from the apex, so that the distance of a rim
//! point is exactly what its ray reported.

use vstd::prelude::*;
use crate::config::FovConfig;
use crate::config::MAX_HALF_ANGLE;
use crate::config::MAX_SAMPLE_COUNT;
use crate::config::MIN_SAMPLE_COUNT;
use crate::sweep::ray_angle;
use crate::sweep::sweep_angle_of;
use crate::sweep::SweepAngle;

verus! {

/// A point of the actor's local frame in polar form.
#[derive(Clone, Copy, Debug, PartialEq, Eq)]
pub struct PolarPoint {
    /// Direction, from the actor's forward direction.
    pub angle: SweepAngle,
    /// Distance from the apex, in distance units.
    pub radius: u32,
}

/// A vertex normal with whole components.
#[derive(Clone, Copy, Debug, PartialEq, Eq)]
pub struct Normal {
    pub x: i8,
    pub y: i8,
    pub z: i8,
}

/// A texture coordinate with whole components.
#[derive(Clone, Copy, Debug, PartialEq, Eq)]
pub struct TexCoord {
    pub u: u8,
    pub v: u8,
}

/// Why no mesh could be built from a set of ray results.
#[derive(Clone, Copy, Debug, PartialEq, Eq)]
pub enum MeshError {
    /// The number of ray results is not the number of rays of one sweep.
    SampleCountMismatch { expected: u32, found: usize },
}

/// The normal of every vertex: out of the plane, towards the viewer.
pub open spec fn facing_normal() -> Normal {
    Normal { x: 0, y: 0, z: 1 }
}

/// The texture coordinate of every vertex. The polygon is drawn in one flat
/// colour; the coordinate is there because the vertex layout asks for one.
pub open spec fn flat_uv() -> TexCoord {
    TexCoord { u: 1, v: 1 }
}

/// The apex of the fan: the actor's own position.
pub open spec fn apex_of(sample_count: u32) -> PolarPoint {
    PolarPoint { angle: SweepAngle { numerator: 0, denominator: sample_count }, radius: 0 }
}

/// How far a ray sees: to the hit that it reports, or to the maximum view
/// distance where it reports none.
pub open spec fn rim_radius_of(hit: Option<u32>, max_distance: u32) -> u32 {
    match hit {
        Some(distance) => distance,
        None => max_distance,
    }
}

/// The rim point of ray `ray`.
pub open spec fn rim_point_of(
    half_angle: u32,
    max_distance: u32,
    sample_count: u32,
    hits: Seq<Option<u32>>,
    ray: int,
) -> PolarPoint {
    PolarPoint {
        angle: sweep_angle_of(half_angle, sample_count, ray),
        radius: rim_radius_of(hits[ray], max_distance),
    }
}

/// The rim of the polygon, from the left edge of the cone to the right.
pub open spec fn rim_of(config: FovConfig, hits: Seq<Option<u32>>) -> Seq<PolarPoint> {
    Seq::new(
        config.spec_ray_count(),
        |ray: int|
            rim_point_of(
                config.spec_half_angle(),
                config.spec_max_distance(),
                config.spec_sample_count(),
                hits,
                ray,
            ),
    )
}

/// The index buffer of an open fan over `sample_count + 1` rim points:
/// triangle `t`, for `t` from 0 to `sample_count - 2`, joins the apex (vertex
/// 0) with the rim vertices `t + 1` and `t + 2`. The last rim vertex is joined
/// to nothing, and nothing closes the fan back to the first.
pub open spec fn fan_index_seq(sample_count: nat) -> Seq<u32> {
    Seq::new(
        if sample_count >= 1 {
            (3 * (sample_count - 1)) as nat
        } else {
            0
        },
        |k: int|
            if k % 3 == 0 {
                0u32
            } else {
                (k / 3 + k % 3) as u32
            },
    )
}

/// What a mesh holds.
#[verifier::ext_equal]
pub struct MeshView {
    /// The apex, then the rim points.
    pub positions: Seq<PolarPoint>,
    /// One normal for each vertex.
    pub normals: Seq<Normal>,
    /// One texture coordinate for each vertex.
    pub uvs: Seq<TexCoord>,
    /// Three vertex numbers for each triangle.
    pub indices: Seq<u32>,
}

/// The mesh of one sweep.
pub open spec fn mesh_of(config: FovConfig, hits: Seq<Option<u32>>) -> MeshView {
    MeshView {
        positions: seq![apex_of(config.spec_sample_count())] + rim_of(config, hits),
        normals: Seq::new(config.spec_ray_count() + 1, |i: int| facing_normal()),
        uvs: Seq::new(config.spec_ray_count() + 1, |i: int| flat_uv()),
        indices: fan_index_seq(config.spec_sample_count() as nat),
    }
}

impl MeshView {
    /// Number of angular steps of the cone that the mesh was built for.
    pub open spec fn sample_count(self) -> int {
        self.positions.len() - 2
    }

    /// The rim points stand, in order, at the angles of the sweep of a cone
    /// with this half-angle.
    pub open spec fn rim_follows_sweep(self, half_angle: u32) -> bool {
        &&& 0 < half_angle <= MAX_HALF_ANGLE
        &&& forall|ray: int|
            0 <= ray <= self.sample_count() ==> (#[trigger] self.positions[ray + 1]).angle
                == sweep_angle_of(half_angle, self.sample_count() as u32, ray)
    }

    /// The buffers fit together: an apex and at least three rim points, each
    /// at the angle that the sweep gives it; a normal and a texture coordinate
    /// for each vertex; and the indices of the open fan.
    pub open spec fn well_formed(self) -> bool {
        &&& MIN_SAMPLE_COUNT <= self.sample_count() <= MAX_SAMPLE_COUNT
        &&& self.positions[0] == apex_of(self.sample_count() as u32)
        &&& exists|half_angle: u32| #[trigger] self.rim_follows_sweep(half_angle)
        &&& self.normals == Seq::new(self.positions.len(), |i: int| facing_normal())
        &&& self.uvs == Seq::new(self.positions.len(), |i: int| flat_uv())
        &&& self.indices == fan_index_seq(self.sample_count() as nat)
    }
}

/// How far a ray sees: to the hit that it reports, or to the maximum view
/// distance where it reports none.
pub fn rim_radius(hit: Option<u32>, max_distance: u32) -> (radius: u32)
    ensures
        radius == rim_radius_of(hit, max_distance),
{
    match hit {
        Some(distance) => distance,
        None => max_distance,
    }
}

/// Builds the index buffer of the open fan over `sample_count + 1` rim
/// points.
pub fn fan_indices(sample_count: u32) -> (indices: Vec<u32>)
    requires
        sample_count <= MAX_SAMPLE_COUNT,
    ensures
        indices@ == fan_index_seq(sample_count as nat),
{
    let mut indices: Vec<u32> = Vec::new();
    let mut rim: u32 = 1;
    while rim < sample_count
        invariant
            sample_count <= MAX_SAMPLE_COUNT,
            1 <= rim,
            rim <= sample_count || rim == 1,
            indices@ == fan_index_seq(rim as nat),
        decreases sample_count - rim,
    {
        indices.push(0);
        indices.push(rim);
        indices.push(rim + 1);
        rim = rim + 1;
        assert(indices@ =~= fan_index_seq(rim as nat));
    }
    assert(fan_index_seq(rim as nat) =~= fan_index_seq(sample_count as nat));
    indices
}

/// The vertex and index buffers of the visibility polygon.
#[derive(Debug, PartialEq, Eq)]
pub struct VisibilityMesh {
    positions: Vec<PolarPoint>,
    normals: Vec<Normal>,
    uvs: Vec<TexCoord>,
    indices: Vec<u32>,
}

impl View for VisibilityMesh {
    type V = MeshView;

    closed spec fn view(&self) -> MeshView {
        MeshView {
            positions: self.positions@,
            normals: self.normals@,
            uvs: self.uvs@,
            indices: self.indices@,
        }
    }
}

impl VisibilityMesh {
    #[verifier::type_invariant]
    spec fn inv(&self) -> bool {
        self@.well_formed()
    }

    /// Assembles the buffers of one sweep from as many ray results as the
    /// sweep has rays.
    fn assemble(config: &FovConfig, hits: &Vec<Option<u32>>) -> (mesh: VisibilityMesh)
        requires
            hits@.len() == config.spec_ray_count(),
        ensures
            config.valid(),
            mesh@ == mesh_of(*config, hits@),
            mesh@.well_formed(),
    {
        let half_angle = config.half_angle();
        let max_distance = config.max_distance();
        let sample_count = config.sample_count();
        let ghost apex = apex_of(sample_count);
        let mut positions: Vec<PolarPoint> = Vec::new();
        let mut normals: Vec<Normal> = Vec::new();
        let mut uvs: Vec<TexCoord> = Vec::new();
        positions.push(
            PolarPoint { angle: SweepAngle { numerator: 0, denominator: sample_count }, radius: 0 },
        );
        normals.push(Normal { x: 0, y: 0, z: 1 });
        uvs.push(TexCoord { u: 1, v: 1 });
        let mut ray: u32 = 0;
        while ray <= sample_count
            invariant
                config.valid(),
                half_angle == config.spec_half_angle(),
                max_distance == config.spec_max_distance(),
                sample_count == config.spec_sample_count(),
                hits@.len() == sample_count + 1,
                ray <= sample_count + 1,
                positions@ == seq![apex] + Seq::new(
                    ray as nat,
                    |k: int| rim_point_of(half_angle, max_distance, sample_count, hits@, k),
                ),
                normals@ == Seq::new((ray + 1) as nat, |i: int| facing_normal()),
                uvs@ == Seq::new((ray + 1) as nat, |i: int| flat_uv()),
            decreases sample_count + 1 - ray,
        {
            let radius = rim_radius(hits[ray as usize], max_distance);
            positions.push(PolarPoint { angle: ray_angle(half_angle, sample_count, ray), radius });
            normals.push(Normal { x: 0, y: 0, z: 1 });
            uvs.push(TexCoord { u: 1, v: 1 });
            ray = ray + 1;
        }
        let indices = fan_indices(sample_count);
        proof {
            let view = MeshView {
                positions: positions@,
                normals: normals@,
                uvs: uvs@,
                indices: indices@,
            };
            assert(view =~= mesh_of(*config, hits@));
            lemma_mesh_well_formed(*config, hits@);
        }
        VisibilityMesh { positions, normals, uvs, indices }
    }

    /// Builds the mesh of one sweep from the results of its rays, in the
    /// order in which the rays are cast: `Some(distance)` where a ray hit an
    /// obstruction, `None` where it ran free. It fails exactly when the number
    /// of results is not the number of rays.
    pub fn from_samples(config: &FovConfig, hits: &Vec<Option<u32>>) -> (result: Result<
        VisibilityMesh,
        MeshError,
    >)
        ensures
            config.valid(),
            match result {
                Ok(mesh) => {
                    &&& hits@.len() == config.spec_ray_count()
                    &&& mesh@ == mesh_of(*config, hits@)
                    &&& mesh@.well_formed()
                },
                Err(MeshError::SampleCountMismatch { expected, found }) => {
                    &&& hits@.len() != config.spec_ray_count()
                    &&& expected == config.spec_ray_count()
                    &&& found == hits@.len()
                },
            },
    {
        let expected = config.ray_count();
        if hits.len() != expected as usize {
            Err(MeshError::SampleCountMismatch { expected, found: hits.len() })
        } else {
            Ok(Self::assemble(config, hits))
        }
    }

    /// Builds the mesh of a sweep in which no ray hits anything: every rim
    /// point lies at the maximum view distance.
    pub fn unobstructed(config: &FovConfig) -> (mesh: VisibilityMesh)
        ensures
            config.valid(),
            mesh@ == mesh_of(*config, Seq::new(config.spec_ray_count(), |ray: int| None::<u32>)),
            mesh@.well_formed(),
    {
        let ray_count = config.ray_count();
        let mut hits: Vec<Option<u32>> = Vec::new();
        let mut ray: u32 = 0;
        while ray < ray_count
            invariant
                ray <= ray_count,
                hits@ == Seq::new(ray as nat, |k: int| None::<u32>),
            decreases ray_count - ray,
        {
            hits.push(None);
            ray = ray + 1;
        }
        Self::assemble(config, &hits)
    }

    /// The apex, then the rim points from the left edge of the cone to the
    /// right.
    pub fn positions(&self) -> (positions: &Vec<PolarPoint>)
        ensures
            positions@ == self@.positions,
            self@.well_formed(),
    {
        proof {
            use_type_invariant(self);
        }
        &self.positions
    }

    /// One normal for each vertex.
    pub fn normals(&self) -> (normals: &Vec<Normal>)
        ensures
            normals@ == self@.normals,
            self@.well_formed(),
    {
        proof {
            use_type_invariant(self);
        }
        &self.normals
    }

    /// One texture coordinate for each vertex.
    pub fn uvs(&self) -> (uvs: &Vec<TexCoord>)
        ensures
            uvs@ == self@.uvs,
            self@.well_formed(),
    {
        proof {
            use_type_invariant(self);
        }
        &self.uvs
    }

    /// Three vertex numbers for each triangle of the fan.
    pub fn indices(&self) -> (indices: &Vec<u32>)
        ensures
            indices@ == self@.indices,
            self@.well_formed(),
    {
        proof {
            use_type_invariant(self);
        }
        &self.indices
    }

    /// Number of angular steps of the cone that the mesh was built for.
    pub fn sample_count(&self) -> (count: u32)
        ensures
            count == self@.sample_count(),
            self@.well_formed(),
    {
        proof {
            use_type_invariant(self);
        }
        (self.positions.len() - 2) as u32
    }

    /// Number of vertices: the apex and the rim points.
    pub fn vertex_count(&self) -> (count: usize)
        ensures
            count == self@.positions.len(),
            count == self@.sample_count() + 2,
            self@.well_formed(),
    {
        proof {
            use_type_invariant(self);
        }
        self.positions.len()
    }

    /// Number of triangles of the fan.
    pub fn triangle_count(&self) -> (count: usize)
        ensures
            count == self@.sample_count() - 1,
            3 * count == self@.indices.len(),
            self@.well_formed(),
    {
        proof {
            use_type_invariant(self);
        }
        self.positions.len() - 3
    }

    /// The rim point of ray `ray`, for each of the rays `0 ..= sample_count`;
    /// `None` for any other number.
    pub fn rim_point(&self, ray: u32) -> (point: Option<PolarPoint>)
        ensures
            self@.well_formed(),
            ray <= self@.sample_count() ==> point == Some(self@.positions[ray + 1]),
            ray > self@.sample_count() ==> point is None,
    {
        proof {
            use_type_invariant(self);
        }
        if (ray as usize) < self.positions.len() - 1 {
            Some(self.positions[ray as usize + 1])
        } else {
            None
        }
    }
}

/// The mesh of a sweep is well formed.
pub proof fn lemma_mesh_well_formed(config: FovConfig, hits: Seq<Option<u32>>)
    requires
        config.valid(),
    ensures
        mesh_of(config, hits).well_formed(),
        mesh_of(config, hits).sample_count() == config.spec_sample_count(),
{
    let mesh = mesh_of(config, hits);
    assert(mesh.positions.len() == config.spec_sample_count() + 2);
    assert(mesh.rim_follows_sweep(config.spec_half_angle())) by {
        assert forall|ray: int| 0 <= ray <= mesh.sample_count() implies (
        #[trigger] mesh.positions[ray + 1]).angle == sweep_angle_of(
            config.spec_half_angle(),
            mesh.sample_count() as u32,
            ray,
        ) by {
            assert(mesh.positions[ray + 1] == rim_of(config, hits)[ray]);
        }
    }
    assert(mesh.normals =~= Seq::new(mesh.positions.len(), |i: int| facing_normal()));
    assert(mesh.uvs =~= Seq::new(mesh.positions.len(), |i: int| flat_uv()));
}

/// In every well-formed mesh the rim runs clockwise: of two rim vertices
/// the later one stands at the strictly smaller angle, so no two rim points
/// share a direction.
pub proof fn lemma_rim_angles_decrease(mesh: MeshView, earlier: int, later: int)
    requires
        mesh.well_formed(),
        0 <= earlier < later <= mesh.sample_count(),
    ensures
        mesh.positions[later + 1].angle.less_than(mesh.positions[earlier + 1].angle),
        mesh.positions[later + 1].angle.numerator < mesh.positions[earlier + 1].angle.numerator,
        mesh.positions[later + 1].angle.denominator == mesh.sample_count(),
        mesh.positions[earlier + 1].angle.denominator == mesh.sample_count(),
{
    let half_angle = choose|half_angle: u32| #[trigger] mesh.rim_follows_sweep(half_angle);
    let n = mesh.sample_count();
    let h = half_angle as int;
    crate::sweep::lemma_sweep_numerator_bounds(half_angle, n as u32, earlier);
    crate::sweep::lemma_sweep_numerator_bounds(half_angle, n as u32, later);
    assert(mesh.positions[earlier + 1].angle == sweep_angle_of(half_angle, n as u32, earlier));
    assert(mesh.positions[later + 1].angle == sweep_angle_of(half_angle, n as u32, later));
    let a = h * (n - 2 * earlier);
    let b = h * (n - 2 * later);
    assert(b < a) by (nonlinear_arith)
        requires
            h > 0,
            earlier < later,
            a == h * (n - 2 * earlier),
            b == h * (n - 2 * later),
    ;
    assert(b * n < a * n) by (nonlinear_arith)
        requires
            b < a,
            n > 0,
    ;
}

/// Counts of a mesh: with `n` samples the rim has `n + 1` points, the fan has
/// `n - 1` triangles, so `3 * (n - 1)` indices, and no index reaches the
/// number of vertices, `n + 2`.
pub proof fn lemma_mesh_counts(config: FovConfig, hits: Seq<Option<u32>>)
    requires
        config.valid(),
    ensures
        rim_of(config, hits).len() == config.spec_sample_count() + 1,
        mesh_of(config, hits).positions.len() == config.spec_sample_count() + 2,
        mesh_of(config, hits).normals.len() == config.spec_sample_count() + 2,
        mesh_of(config, hits).uvs.len() == config.spec_sample_count() + 2,
        mesh_of(config, hits).indices.len() == 3 * (config.spec_sample_count() - 1),
        forall|k: int|
            0 <= k < mesh_of(config, hits).indices.len() ==> (#[trigger] mesh_of(
                config,
                hits,
            ).indices[k]) < config.spec_sample_count() + 2,
{
    lemma_fan_triangles(config.spec_sample_count() as nat);
    let indices = mesh_of(config, hits).indices;
    assert forall|k: int| 0 <= k < indices.len() implies (#[trigger] indices[k])
        < config.spec_sample_count() + 2 by {
        let t = k / 3;
        assert(k == 3 * t || k == 3 * t + 1 || k == 3 * t + 2);
        assert(0 <= t < config.spec_sample_count() - 1);
    }
}

/// Shape of the fan: for `sample_count` between 1 and the largest count, the
/// buffer holds `sample_count - 1` triangles, and triangle `t` joins the apex
/// with the rim vertices `t + 1` and `t + 2`. So every rim vertex but the
/// last is used, and two neighbouring triangles share one rim vertex.
pub proof fn lemma_fan_triangles(sample_count: nat)
    requires
        1 <= sample_count <= MAX_SAMPLE_COUNT,
    ensures
        fan_index_seq(sample_count).len() == 3 * (sample_count - 1),
        forall|t: int|
            0 <= t < sample_count - 1 ==> {
                &&& #[trigger] fan_index_seq(sample_count)[3 * t] == 0
                &&& fan_index_seq(sample_count)[3 * t + 1] == t + 1
                &&& fan_index_seq(sample_count)[3 * t + 2] == t + 2
            },
{
    assert forall|t: int| 0 <= t < sample_count - 1 implies {
        &&& #[trigger] fan_index_seq(sample_count)[3 * t] == 0
        &&& fan_index_seq(sample_count)[3 * t + 1] == t + 1
        &&& fan_index_seq(sample_count)[3 * t + 2] == t + 2
    } by {
        assert((3 * t) % 3 == 0);
        assert((3 * t + 1) % 3 == 1 && (3 * t + 1) / 3 == t);
        assert((3 * t + 2) % 3 == 2 && (3 * t + 2) / 3 == t);
    }
}

/// Distance of a rim point: a ray that reports a hit at distance `t` puts
/// its rim point at distance `t` from the apex, and a ray that reports no
/// hit puts it at the maximum view distance. The apex lies at distance 0.
pub proof fn lemma_rim_point_distance(config: FovConfig, hits: Seq<Option<u32>>, ray: int)
    requires
        config.valid(),
        0 <= ray <= config.spec_sample_count(),
    ensures
        mesh_of(config, hits).positions[0].radius == 0,
        mesh_of(config, hits).positions[ray + 1] == rim_of(config, hits)[ray],
        rim_of(config, hits)[ray].angle == config.spec_sweep_angle(ray),
        hits[ray] is Some ==> rim_of(config, hits)[ray].radius == hits[ray]->Some_0,
        hits[ray] is None ==> rim_of(config, hits)[ray].radius == config.spec_max_distance(),
{
}

/// Where no ray reports a hit beyond the maximum view distance, the whole
/// polygon lies within that distance of the apex.
pub proof fn lemma_polygon_within_view_distance(config: FovConfig, hits: Seq<Option<u32>>)
    requires
        config.valid(),
        forall|ray: int|
            0 <= ray <= config.spec_sample_count() && (#[trigger] hits[ray]) is Some ==> hits[ray]->Some_0
                <= config.spec_max_distance(),
    ensures
        forall|vertex: int|
            0 <= vertex < mesh_of(config, hits).positions.len() ==> (#[trigger] mesh_of(
                config,
                hits,
            ).positions[vertex]).radius <= config.spec_max_distance(),
{
    let mesh = mesh_of(config, hits);
    assert forall|vertex: int| 0 <= vertex < mesh.positions.len() implies (
    #[trigger] mesh.positions[vertex]).radius <= config.spec_max_distance() by {
        if vertex > 0 {
            let ray = vertex - 1;
            assert(mesh.positions[vertex] == rim_of(config, hits)[ray]);
            assert(hits[ray] is Some ==> hits[ray]->Some_0 <= config.spec_max_distance());
        }
    }
}

} // verus!
