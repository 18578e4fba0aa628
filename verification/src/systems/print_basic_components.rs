use crate::components::{ComponentKind, ComponentView};
use crate::world::{carries, Entity, World};
use vstd::prelude::*;

verus! {

/// The system that shows the entities which carry every basic component.
#[derive(Debug)]
pub struct PrintBasicComponents;

/// Whether an entity carries a component of each of the five basic kinds.
pub open spec fn carries_all_basic(components: Seq<ComponentView>) -> bool {
    &&& carries(components, ComponentKind::Boolean)
    &&& carries(components, ComponentKind::Number)
    &&& carries(components, ComponentKind::Text)
    &&& carries(components, ComponentKind::Vector)
    &&& carries(components, ComponentKind::Mapping)
}

/// The handles of the entities that carry every basic component, in the
/// order of the world.
pub open spec fn printed(entities: Seq<Seq<ComponentView>>) -> Seq<Entity>
    decreases entities.len(),
{
    if entities.len() == 0 {
        Seq::empty()
    } else if carries_all_basic(entities.last()) {
        printed(entities.drop_last()).push(Entity { index: (entities.len() - 1) as usize })
    } else {
        printed(entities.drop_last())
    }
}

impl PrintBasicComponents {
    /// Picks the entities that are to be printed: those that carry a
    /// component of each of the five basic kinds.
    pub fn run(&mut self, world: &World) -> (entities: Vec<Entity>)
        ensures
            entities@ == printed(world@.entities),
    {
        let mut entities: Vec<Entity> = Vec::new();
        let count = world.entity_count();
        let mut i: usize = 0;
        assert(world@.entities.take(0) =~= Seq::<Seq<ComponentView>>::empty());
        while i < count
            invariant
                i <= count,
                count == world@.entities.len(),
                entities@ == printed(world@.entities.take(i as int)),
            decreases count - i,
        {
            let entity = Entity { index: i };
            proof {
                let all = world@.entities;
                assert(all.take(i + 1).drop_last() =~= all.take(i as int));
                assert(all.take(i + 1).last() == all[i as int]);
            }
            let all_five = world.component(entity, ComponentKind::Boolean).is_some()
                && world.component(entity, ComponentKind::Number).is_some() && world.component(
                entity,
                ComponentKind::Text,
            ).is_some() && world.component(entity, ComponentKind::Vector).is_some()
                && world.component(entity, ComponentKind::Mapping).is_some();
            if all_five {
                entities.push(entity);
            }
            i += 1;
        }
        assert(world@.entities.take(count as int) =~= world@.entities);
        entities
    }
}

} // verus!
