//! The owner of the visibility mesh: it creates the mesh once the actor
//! exists and replaces its geometry on every frame afterwards.
//!
//! The embedding application finds the actor, casts the rays and uploads the
//! buffers; what to do in each frame is decided here.

use vstd::prelude::*;
use crate::config::FovConfig;
use crate::mesh::mesh_of;
use crate::mesh::MeshError;
use crate::mesh::MeshView;
use crate::mesh::VisibilityMesh;

verus! {

/// What the one-time setup did.
#[derive(Clone, Copy, Debug, PartialEq, Eq)]
pub enum SetupOutcome {
    /// The mesh was created with every rim point at the maximum view
    /// distance. The application spawns the render entity that shows it.
    Spawned,
    /// There is no actor yet: nothing was created.
    ActorMissing,
    /// The mesh exists already: nothing was created anew.
    AlreadySpawned,
}

/// Why a frame leaves the mesh as it is.
#[derive(Clone, Copy, Debug, PartialEq, Eq)]
pub enum SkipReason {
    /// The setup has not created the mesh yet.
    MeshMissing,
    /// There is no actor in this frame.
    ActorMissing,
}

/// What a frame does with the mesh.
#[derive(Clone, Copy, Debug, PartialEq, Eq)]
pub enum UpdatePlan {
    /// Leave the mesh as it is.
    Skip(SkipReason),
    /// Cast the rays of the sweep from the actor and hand the results to
    /// `resample`.
    Resample,
}

/// Why a set of ray results was not taken.
#[derive(Clone, Copy, Debug, PartialEq, Eq)]
pub enum UpdateError {
    /// The setup has not created the mesh yet.
    MeshMissing,
    /// The number of ray results is not the number of rays of one sweep.
    SampleCountMismatch { expected: u32, found: usize },
}

/// What an updater holds.
#[verifier::ext_equal]
pub struct UpdaterView {
    /// The cone that the mesh is built for.
    pub config: FovConfig,
    /// The mesh, once the setup has created it.
    pub mesh: Option<MeshView>,
    /// How often the geometry has been written; it wraps around at the end
    /// of its range.
    pub version: u64,
}

/// The version that follows `version`.
pub open spec fn next_version(version: u64) -> u64 {
    if version == u64::MAX {
        0
    } else {
        (version + 1) as u64
    }
}

/// What a frame does: nothing while the mesh is missing, nothing while the
/// actor is missing, a new sweep otherwise.
pub open spec fn plan_of(mesh_spawned: bool, actor_present: bool) -> UpdatePlan {
    if !mesh_spawned {
        UpdatePlan::Skip(SkipReason::MeshMissing)
    } else if !actor_present {
        UpdatePlan::Skip(SkipReason::ActorMissing)
    } else {
        UpdatePlan::Resample
    }
}

/// The single writer of the visibility mesh.
#[derive(Debug, PartialEq, Eq)]
pub struct MeshUpdater {
    config: FovConfig,
    mesh: Option<VisibilityMesh>,
    version: u64,
}

impl View for MeshUpdater {
    type V = UpdaterView;

    closed spec fn view(&self) -> UpdaterView {
        UpdaterView {
            config: self.config,
            mesh: match self.mesh {
                Some(mesh) => Some(mesh@),
                None => None,
            },
            version: self.version,
        }
    }
}

impl UpdaterView {
    /// The mesh, where there is one, is a well-formed mesh of this cone.
    pub open spec fn well_formed(self) -> bool {
        &&& self.config.valid()
        &&& self.mesh matches Some(mesh) ==> {
            &&& mesh.well_formed()
            &&& mesh.sample_count() == self.config.spec_sample_count()
        }
    }
}

impl MeshUpdater {
    #[verifier::type_invariant]
    spec fn inv(&self) -> bool {
        self@.well_formed()
    }

    /// An updater that has not created its mesh yet.
    pub fn new(config: FovConfig) -> (updater: MeshUpdater)
        ensures
            updater@ == (UpdaterView { config, mesh: None, version: 0 }),
            updater@.well_formed(),
    {
        proof {
            use_type_invariant(&config);
        }
        MeshUpdater { config, mesh: None, version: 0 }
    }

    /// The one-time setup. With an actor and no mesh yet, it creates the mesh
    /// of an unobstructed sweep; in every other case it changes nothing.
    pub fn setup(&mut self, actor_present: bool) -> (outcome: SetupOutcome)
        ensures
            final(self)@.well_formed(),
            final(self)@.config == old(self)@.config,
            !actor_present ==> outcome == SetupOutcome::ActorMissing && final(self)@ == old(self)@,
            actor_present && old(self)@.mesh is Some ==> outcome == SetupOutcome::AlreadySpawned
                && final(self)@ == old(self)@,
            actor_present && old(self)@.mesh is None ==> {
                &&& outcome == SetupOutcome::Spawned
                &&& final(self)@.mesh == Some(
                    mesh_of(
                        old(self)@.config,
                        Seq::new(old(self)@.config.spec_ray_count(), |ray: int| None::<u32>),
                    ),
                )
                &&& final(self)@.version == next_version(old(self)@.version)
            },
    {
        proof {
            use_type_invariant(&*self);
        }
        if !actor_present {
            SetupOutcome::ActorMissing
        } else if self.mesh.is_some() {
            SetupOutcome::AlreadySpawned
        } else {
            let mesh = VisibilityMesh::unobstructed(&self.config);
            proof {
                crate::mesh::lemma_mesh_well_formed(
                    self.config,
                    Seq::new(self.config.spec_ray_count(), |ray: int| None::<u32>),
                );
            }
            self.mesh = Some(mesh);
            self.version = self.version.wrapping_add(1);
            SetupOutcome::Spawned
        }
    }

    /// What this frame does with the mesh.
    pub fn plan(&self, actor_present: bool) -> (plan: UpdatePlan)
        ensures
            plan == plan_of(self@.mesh is Some, actor_present),
    {
        if self.mesh.is_none() {
            UpdatePlan::Skip(SkipReason::MeshMissing)
        } else if !actor_present {
            UpdatePlan::Skip(SkipReason::ActorMissing)
        } else {
            UpdatePlan::Resample
        }
    }

    /// Replaces the geometry of the mesh by that of a new sweep and returns
    /// the new version. The ray results come in the order in which the rays
    /// are cast. It fails, and changes nothing, while the mesh is missing or
    /// when the number of results is not the number of rays.
    pub fn resample(&mut self, hits: &Vec<Option<u32>>) -> (result: Result<u64, UpdateError>)
        ensures
            final(self)@.well_formed(),
            final(self)@.config == old(self)@.config,
            match result {
                Ok(version) => {
                    &&& old(self)@.mesh is Some
                    &&& hits@.len() == old(self)@.config.spec_ray_count()
                    &&& final(self)@.mesh == Some(mesh_of(old(self)@.config, hits@))
                    &&& final(self)@.version == next_version(old(self)@.version)
                    &&& version == final(self)@.version
                },
                Err(UpdateError::MeshMissing) => {
                    &&& old(self)@.mesh is None
                    &&& final(self)@ == old(self)@
                },
                Err(UpdateError::SampleCountMismatch { expected, found }) => {
                    &&& old(self)@.mesh is Some
                    &&& hits@.len() != old(self)@.config.spec_ray_count()
                    &&& expected == old(self)@.config.spec_ray_count()
                    &&& found == hits@.len()
                    &&& final(self)@ == old(self)@
                },
            },
    {
        proof {
            use_type_invariant(&*self);
        }
        if self.mesh.is_none() {
            return Err(UpdateError::MeshMissing);
        }
        match VisibilityMesh::from_samples(&self.config, hits) {
            Ok(mesh) => {
                proof {
                    crate::mesh::lemma_mesh_well_formed(self.config, hits@);
                }
                self.mesh = Some(mesh);
                self.version = self.version.wrapping_add(1);
                Ok(self.version)
            },
            Err(MeshError::SampleCountMismatch { expected, found }) => Err(
                UpdateError::SampleCountMismatch { expected, found },
            ),
        }
    }

    /// Drops the mesh when the scene is left. A later setup creates it anew.
    pub fn despawn(&mut self)
        ensures
            final(self)@ == (UpdaterView { mesh: None, ..old(self)@ }),
            final(self)@.well_formed(),
    {
        proof {
            use_type_invariant(&*self);
        }
        self.mesh = None;
    }

    /// The cone that the mesh is built for.
    pub fn config(&self) -> (config: FovConfig)
        ensures
            config == self@.config,
            config.valid(),
    {
        proof {
            use_type_invariant(self);
        }
        self.config
    }

    /// The mesh, once the setup has created it.
    pub fn mesh(&self) -> (mesh: Option<&VisibilityMesh>)
        ensures
            self@.well_formed(),
            match mesh {
                Some(mesh) => self@.mesh == Some(mesh@),
                None => self@.mesh is None,
            },
    {
        proof {
            use_type_invariant(self);
        }
        self.mesh.as_ref()
    }

    /// The setup has created the mesh.
    pub fn is_spawned(&self) -> (spawned: bool)
        ensures
            spawned == (self@.mesh is Some),
    {
        self.mesh.is_some()
    }

    /// How often the geometry has been written.
    pub fn version(&self) -> (version: u64)
        ensures
            version == self@.version,
    {
        self.version
    }

    /// Whether the geometry has been written since it had the version
    /// `uploaded`: whether whoever holds a copy of that version has to fetch
    /// the buffers again.
    pub fn changed_since(&self, uploaded: u64) -> (changed: bool)
        ensures
            changed == (self@.version != uploaded),
    {
        self.version != uploaded
    }
}

} // verus!
