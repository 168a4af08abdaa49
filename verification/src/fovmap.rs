//! Simple FOV maps: eight octants of 16-bit FOV nodes for one fixed
//! configuration.
//!
//! Building an FOV map:
//! - Generate the sightline list once; it is shared by all octants.
//! - Build the node list once; for Simple FOV it is identical in every
//!   octant.
//! - Wrap the node list in eight `FovOctant16` instances, one per octant.

use vstd::prelude::*;

use crate::builder::body_nodes_canonical;
use crate::builder::build_fov_nodes_q16;
use crate::builder::FovOctant16;
use crate::fov::FovLines;
use crate::fov::FovRadius;
use crate::fov::Octant;
use crate::fov::QFactor;
use crate::math::SCALE;

verus! {

/// Errors raised when an FOV map is configured incorrectly.
#[derive(Debug, Clone, Copy, PartialEq, Eq, Structural)]
pub enum FovError {
    /// The fixed-bit-width map builder was given a radius or Q-factor that
    /// does not match its bit width.
    ConfigMismatch,
}

/// FOV map of eight FOV octants, each comprised of 16-bit FOV nodes.
pub struct FovMap16 {
    pub rfov: FovRadius,
    pub capacity: usize,
    pub octant_1: FovOctant16,
    pub octant_2: FovOctant16,
    pub octant_3: FovOctant16,
    pub octant_4: FovOctant16,
    pub octant_5: FovOctant16,
    pub octant_6: FovOctant16,
    pub octant_7: FovOctant16,
    pub octant_8: FovOctant16,
}

impl FovMap16 {
    /// Every octant is well-formed, agrees on the radius, carries its own
    /// octant tag, and holds the same node list; `capacity` counts the nodes
    /// of all eight octants.
    pub open spec fn wf(&self) -> bool {
        &&& self.octant_1.wf() && self.octant_1.rfov == self.rfov && self.octant_1.octant
            == Octant::O1
        &&& self.octant_2.wf() && self.octant_2.rfov == self.rfov && self.octant_2.octant
            == Octant::O2
        &&& self.octant_3.wf() && self.octant_3.rfov == self.rfov && self.octant_3.octant
            == Octant::O3
        &&& self.octant_4.wf() && self.octant_4.rfov == self.rfov && self.octant_4.octant
            == Octant::O4
        &&& self.octant_5.wf() && self.octant_5.rfov == self.rfov && self.octant_5.octant
            == Octant::O5
        &&& self.octant_6.wf() && self.octant_6.rfov == self.rfov && self.octant_6.octant
            == Octant::O6
        &&& self.octant_7.wf() && self.octant_7.rfov == self.rfov && self.octant_7.octant
            == Octant::O7
        &&& self.octant_8.wf() && self.octant_8.rfov == self.rfov && self.octant_8.octant
            == Octant::O8
        &&& self.octant_2.nodes@ == self.octant_1.nodes@
        &&& self.octant_3.nodes@ == self.octant_1.nodes@
        &&& self.octant_4.nodes@ == self.octant_1.nodes@
        &&& self.octant_5.nodes@ == self.octant_1.nodes@
        &&& self.octant_6.nodes@ == self.octant_1.nodes@
        &&& self.octant_7.nodes@ == self.octant_1.nodes@
        &&& self.octant_8.nodes@ == self.octant_1.nodes@
        &&& self.capacity == self.octant_1.nodes@.len() * 8
    }

    /// Creates a new _Simple_ `FovMap` with Q-value `16`.
    ///
    /// This is the 16-bit specialization: it accepts exactly the
    /// configuration whose mask width is 16 bits — radius 16 with a Single
    /// Q-factor — and fails fast with `ConfigMismatch` on any other.
    ///
    /// Note: `circ_adj` is the circular culling adjustment used to define
    /// FOV shape, in fixed-point units of a tile (`SCALE / 2` is the
    /// recommended half-tile).
    pub fn new(rfov: FovRadius, qfactor: QFactor, circ_adj: i64) -> (res: Result<
        FovMap16,
        FovError,
    >)
        requires
            0 <= circ_adj <= SCALE,
        ensures
            res is Ok <==> (rfov == FovRadius::R16 && qfactor == QFactor::Single),
            res matches Err(e) ==> e == FovError::ConfigMismatch,
            res matches Ok(m) ==> ({
                &&& m.wf()
                &&& m.rfov == rfov
                &&& body_nodes_canonical(
                    m.octant_1.nodes@,
                    FovRadius::R16,
                    QFactor::Single,
                    circ_adj as int,
                )
            }),
    {
        if !(matches!(rfov, FovRadius::R16) && matches!(qfactor, QFactor::Single)) {
            return Err(FovError::ConfigMismatch);
        }

        let fov_lines = FovLines::new(rfov, qfactor);
        let nodes = build_fov_nodes_q16(rfov, &fov_lines, circ_adj);
        proof {
            crate::builder::lemma_canonical_nodes_cover(nodes@, circ_adj as int);
        }
        let capacity = nodes.len() * 8;

        Ok(
            FovMap16 {
                rfov,
                capacity,
                octant_1: FovOctant16::new(&nodes, rfov, Octant::O1),
                octant_2: FovOctant16::new(&nodes, rfov, Octant::O2),
                octant_3: FovOctant16::new(&nodes, rfov, Octant::O3),
                octant_4: FovOctant16::new(&nodes, rfov, Octant::O4),
                octant_5: FovOctant16::new(&nodes, rfov, Octant::O5),
                octant_6: FovOctant16::new(&nodes, rfov, Octant::O6),
                octant_7: FovOctant16::new(&nodes, rfov, Octant::O7),
                octant_8: FovOctant16::new(&nodes, rfov, Octant::O8),
            },
        )
    }

    /// Returns the maximum number of FOV nodes in the FOV map: the node
    /// count of one octant times eight.
    pub fn capacity(&self) -> (c: usize)
        ensures
            c == self.capacity,
    {
        self.capacity
    }
}

} // verus!
