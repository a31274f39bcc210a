use vstd::prelude::*;
use crate::mech::{MechAssemblyResult, MechParts};

verus! {

/// One entity of the scene: its parent, the entity it attacks, and whether it
/// still exists. An attack target is a plain index and may name an entity that
/// has since been despawned.
#[derive(Clone, Copy, Debug, PartialEq, Eq, Structural)]
pub struct EntityNode {
    pub parent: Option<usize>,
    pub attack_target: Option<usize>,
    pub alive: bool,
}

/// An arena of entities. A child is always spawned after its parent, so every
/// parent index is smaller than the index of its child and the parent links
/// form a forest.
pub struct Hierarchy {
    pub nodes: Vec<EntityNode>,
}

/// Every parent link points to an earlier entity.
pub open spec fn parents_precede(s: Seq<EntityNode>) -> bool {
    forall|i: int|
        0 <= i < s.len() ==> match #[trigger] s[i].parent {
            Some(p) => p < i,
            None => true,
        }
}

/// The attack target that entity `i` ends up with once targets have been copied
/// down the hierarchy: its own, else the one of its nearest ancestor that has one.
pub open spec fn inherited_target(s: Seq<EntityNode>, i: int) -> Option<usize>
    decreases i,
{
    if i < 0 || i >= s.len() {
        None
    } else if s[i].attack_target.is_some() {
        s[i].attack_target
    } else {
        match s[i].parent {
            Some(p) => if p < i {
                inherited_target(s, p as int)
            } else {
                None
            },
            None => None,
        }
    }
}

/// Every proper ancestor of entity `i` holds an attack target.
pub open spec fn ancestors_hold_target(s: Seq<EntityNode>, i: int) -> bool
    decreases i,
{
    if i < 0 || i >= s.len() {
        true
    } else {
        match s[i].parent {
            Some(p) => if p < i {
                s[p as int].attack_target.is_some() && ancestors_hold_target(s, p as int)
            } else {
                true
            },
            None => true,
        }
    }
}

/// The valid attack target of the parent of entity `i`: the parent's target when
/// that entity exists.
pub open spec fn parent_valid_target(s: Seq<EntityNode>, i: int) -> Option<usize> {
    match s[i].parent {
        Some(p) => match s[p as int].attack_target {
            Some(t) => if t < s.len() && s[t as int].alive {
                Some(t)
            } else {
                None
            },
            None => None,
        },
        None => None,
    }
}

impl Hierarchy {
    pub open spec fn wf(&self) -> bool {
        parents_precede(self.nodes@)
    }

    /// An empty scene.
    pub fn new() -> (r: Hierarchy)
        ensures
            r.wf(),
            r.nodes@.len() == 0,
    {
        Hierarchy { nodes: Vec::new() }
    }

    /// Adds a living entity under `parent` (or as a root) and returns its index.
    pub fn spawn(&mut self, parent: Option<usize>) -> (id: usize)
        requires
            old(self).wf(),
            old(self).nodes@.len() < usize::MAX,
            match parent {
                Some(p) => p < old(self).nodes@.len(),
                None => true,
            },
        ensures
            final(self).wf(),
            id == old(self).nodes@.len(),
            final(self).nodes@ == old(self).nodes@.push(
                EntityNode { parent: parent, attack_target: None, alive: true },
            ),
    {
        let id = self.nodes.len();
        self.nodes.push(EntityNode { parent: parent, attack_target: None, alive: true });
        proof {
            assert forall|i: int| 0 <= i < self.nodes@.len() implies match #[trigger] self.nodes@[i].parent {
                Some(p) => p < i,
                None => true,
            } by {
                if i < id {
                    assert(self.nodes@[i] == old(self).nodes@[i]);
                }
            }
        }
        id
    }

    /// Marks entity `id` as despawned. References to it remain and become stale.
    pub fn despawn(&mut self, id: usize)
        requires
            old(self).wf(),
            id < old(self).nodes@.len(),
        ensures
            final(self).wf(),
            final(self).nodes@ == old(self).nodes@.update(
                id as int,
                EntityNode { alive: false, ..old(self).nodes@[id as int] },
            ),
    {
        let mut n = self.nodes[id];
        n.alive = false;
        self.nodes.set(id, n);
        proof {
            assert forall|i: int| 0 <= i < self.nodes@.len() implies match #[trigger] self.nodes@[i].parent {
                Some(p) => p < i,
                None => true,
            } by {
                assert(self.nodes@[i].parent == old(self).nodes@[i].parent);
            }
        }
    }

    /// Sets or clears the attack target of entity `id`.
    pub fn set_attack_target(&mut self, id: usize, target: Option<usize>)
        requires
            old(self).wf(),
            id < old(self).nodes@.len(),
        ensures
            final(self).wf(),
            final(self).nodes@ == old(self).nodes@.update(
                id as int,
                EntityNode { attack_target: target, ..old(self).nodes@[id as int] },
            ),
    {
        let mut n = self.nodes[id];
        n.attack_target = target;
        self.nodes.set(id, n);
        proof {
            assert forall|i: int| 0 <= i < self.nodes@.len() implies match #[trigger] self.nodes@[i].parent {
                Some(p) => p < i,
                None => true,
            } by {
                assert(self.nodes@[i].parent == old(self).nodes@[i].parent);
            }
        }
    }

    /// Copies attack targets down the hierarchy, to every depth in one pass: an
    /// entity without a target takes the target of its nearest ancestor that has
    /// one. Entities that already have a target keep it.
    pub fn propagate_attack_target_system(&mut self)
        requires
            old(self).wf(),
        ensures
            final(self).wf(),
            final(self).nodes@.len() == old(self).nodes@.len(),
            forall|i: int|
                0 <= i < old(self).nodes@.len() ==> (#[trigger] final(self).nodes@[i]) == (EntityNode {
                    attack_target: inherited_target(old(self).nodes@, i),
                    ..old(self).nodes@[i]
                }),
    {
        let ghost before = self.nodes@;
        let n = self.nodes.len();
        let mut i: usize = 0;
        while i < n
            invariant
                0 <= i <= n,
                n == before.len(),
                parents_precede(before),
                self.nodes@.len() == n,
                forall|j: int|
                    0 <= j < i ==> (#[trigger] self.nodes@[j]) == (EntityNode {
                        attack_target: inherited_target(before, j),
                        ..before[j]
                    }),
                forall|j: int| i <= j < n ==> (#[trigger] self.nodes@[j]) == before[j],
            decreases n - i,
        {
            let node = self.nodes[i];
            if node.attack_target.is_none() {
                match node.parent {
                    Some(p) => {
                        assert(before[i as int].parent == Some(p));
                        let inherited = self.nodes[p].attack_target;
                        let mut updated = node;
                        updated.attack_target = inherited;
                        self.nodes.set(i, updated);
                    },
                    None => {},
                }
            }
            i = i + 1;
        }
        proof {
            assert forall|j: int| 0 <= j < self.nodes@.len() implies match #[trigger] self.nodes@[j].parent {
                Some(p) => p < j,
                None => true,
            } by {
                assert(self.nodes@[j].parent == before[j].parent);
            }
        }
    }

    /// Takes the attack target away from every entity that has an ancestor
    /// without one, so that clearing a target at the top clears the whole subtree.
    pub fn cleanup_attack_target_system(&mut self)
        requires
            old(self).wf(),
        ensures
            final(self).wf(),
            final(self).nodes@.len() == old(self).nodes@.len(),
            forall|i: int|
                0 <= i < old(self).nodes@.len() ==> (#[trigger] final(self).nodes@[i]) == (EntityNode {
                    attack_target: if ancestors_hold_target(old(self).nodes@, i) {
                        old(self).nodes@[i].attack_target
                    } else {
                        None
                    },
                    ..old(self).nodes@[i]
                }),
    {
        let ghost before = self.nodes@;
        let n = self.nodes.len();
        let mut i: usize = 0;
        while i < n
            invariant
                0 <= i <= n,
                n == before.len(),
                parents_precede(before),
                self.nodes@.len() == n,
                forall|j: int|
                    0 <= j < i ==> (#[trigger] self.nodes@[j]) == (EntityNode {
                        attack_target: if ancestors_hold_target(before, j) {
                            before[j].attack_target
                        } else {
                            None
                        },
                        ..before[j]
                    }),
                forall|j: int| i <= j < n ==> (#[trigger] self.nodes@[j]) == before[j],
            decreases n - i,
        {
            let node = self.nodes[i];
            match node.parent {
                Some(p) => {
                    assert(before[i as int].parent == Some(p));
                    if self.nodes[p].attack_target.is_none() {
                        let mut updated = node;
                        updated.attack_target = None;
                        self.nodes.set(i, updated);
                    }
                },
                None => {},
            }
            i = i + 1;
        }
        proof {
            assert forall|j: int| 0 <= j < self.nodes@.len() implies match #[trigger] self.nodes@[j].parent {
                Some(p) => p < j,
                None => true,
            } by {
                assert(self.nodes@[j].parent == before[j].parent);
            }
        }
    }

    /// The target the turret `child` should aim at: its parent's attack
    /// target, when the entity it names still exists.
    pub fn valid_parent_target(&self, child: usize) -> (r: Option<usize>)
        requires
            self.wf(),
            child < self.nodes@.len(),
        ensures
            r == parent_valid_target(self.nodes@, child as int),
    {
        match self.nodes[child].parent {
            Some(p) => match self.nodes[p].attack_target {
                Some(t) => if t < self.nodes.len() && self.nodes[t].alive {
                    Some(t)
                } else {
                    None
                },
                None => None,
            },
            None => None,
        }
    }
    /// Spawns a mech: a root under `parent` (or as a root of the scene), its
    /// lower and upper bodies as children of the root, and a barrel as a child
    /// of the upper body. Returns the four entities and the parts record of
    /// the root.
    pub fn spawn_mech(&mut self, parent: Option<usize>) -> (r: (MechAssemblyResult, MechParts))
        requires
            old(self).wf(),
            old(self).nodes@.len() + 4 < usize::MAX,
            match parent {
                Some(p) => p < old(self).nodes@.len(),
                None => true,
            },
        ensures
            final(self).wf(),
            ({
                let n = old(self).nodes@.len();
                let a = r.0;
                &&& a.root_entity == n
                &&& a.lower_entity == n + 1
                &&& a.upper_entity == n + 2
                &&& a.barrel_entity == n + 3
                &&& final(self).nodes@ == old(self).nodes@
                    .push(EntityNode { parent: parent, attack_target: None, alive: true })
                    .push(EntityNode { parent: Some(a.root_entity), attack_target: None, alive: true })
                    .push(EntityNode { parent: Some(a.root_entity), attack_target: None, alive: true })
                    .push(EntityNode { parent: Some(a.upper_entity), attack_target: None, alive: true })
                &&& r.1 == (MechParts { lower: Some(a.lower_entity), upper: Some(a.upper_entity) })
            }),
    {
        let root_entity = self.spawn(parent);
        let lower_entity = self.spawn(Some(root_entity));
        let upper_entity = self.spawn(Some(root_entity));
        let barrel_entity = self.spawn(Some(upper_entity));
        (
            MechAssemblyResult { root_entity, lower_entity, upper_entity, barrel_entity },
            MechParts { lower: Some(lower_entity), upper: Some(upper_entity) },
        )
    }
}

} // verus!
