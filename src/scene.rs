//! The scene: an ordered list of game objects, each of which may carry one
//! logic component of type `C`.
use vstd::prelude::*;

verus! {

/// An entity of the scene.
pub struct GameObject<C> {
    logic_component: Option<C>,
}

impl<C> GameObject<C> {
    /// The object's logic component, if it has one.
    pub closed spec fn component(&self) -> Option<C> {
        self.logic_component
    }

    fn new() -> (r: Self)
        ensures
            r.component() is None,
    {
        GameObject { logic_component: None }
    }

    /// Gives the object a logic component, replacing any earlier one.
    pub fn add_logic_component(&mut self, component: C)
        ensures
            final(self).component() == Some(component),
    {
        self.logic_component = Some(component);
    }

    /// Takes the object's logic component away.
    pub fn remove_logic_component(&mut self)
        ensures
            final(self).component() is None,
    {
        self.logic_component = None;
    }

    /// The object's logic component, if it has one.
    pub fn logic_component(&self) -> (r: Option<&C>)
        ensures
            match r {
                Some(c) => self.component() == Some(*c),
                None => self.component() is None,
            },
    {
        match &self.logic_component {
            Some(c) => Some(c),
            None => None,
        }
    }

    /// Whether the object has a logic component to run.
    pub fn has_logic_component(&self) -> (r: bool)
        ensures
            r == self.component() is Some,
    {
        self.logic_component.is_some()
    }
}

/// Positions, in order, of the objects that carry a logic component.
pub open spec fn active_indices<C>(objects: Seq<GameObject<C>>) -> Seq<usize>
    decreases objects.len(),
{
    if objects.len() == 0 {
        Seq::empty()
    } else {
        let init = active_indices(objects.drop_last());
        if objects.last().component() is Some {
            init.push((objects.len() - 1) as usize)
        } else {
            init
        }
    }
}

/// The game objects of a level, in order of creation.
pub struct Scene<C> {
    game_objects: Vec<GameObject<C>>,
}

impl<C> Scene<C> {
    pub closed spec fn objects(&self) -> Seq<GameObject<C>> {
        self.game_objects@
    }

    /// An empty scene.
    pub fn new() -> (r: Self)
        ensures
            r.objects() == Seq::<GameObject<C>>::empty(),
    {
        Scene { game_objects: Vec::new() }
    }

    /// Adds an object without a logic component at the end, and lends it
    /// out so that the caller can equip it.
    pub fn add_game_object(&mut self) -> (r: &mut GameObject<C>)
        ensures
            r.component() is None,
            final(self).objects() == old(self).objects().push(*final(r)),
    {
        let n = self.game_objects.len();
        self.game_objects.push(GameObject::new());
        &mut self.game_objects[n]
    }

    /// The objects, in order of creation.
    pub fn game_objects(&self) -> (r: &Vec<GameObject<C>>)
        ensures
            r@ == self.objects(),
    {
        &self.game_objects
    }

    /// Lends out the object at position `index`.
    pub fn game_object_mut(&mut self, index: usize) -> (r: &mut GameObject<C>)
        requires
            index < old(self).objects().len(),
        ensures
            *r == old(self).objects()[index as int],
            final(self).objects() == old(self).objects().update(index as int, *final(r)),
    {
        &mut self.game_objects[index]
    }

    /// Positions of the objects whose logic runs this frame: those with a
    /// logic component, in order of creation.
    pub fn active_game_objects(&self) -> (r: Vec<usize>)
        ensures
            r@ == active_indices(self.objects()),
    {
        let mut r: Vec<usize> = Vec::new();
        let mut i: usize = 0;
        while i < self.game_objects.len()
            invariant
                0 <= i <= self.objects().len(),
                r@ == active_indices(self.objects().take(i as int)),
            decreases self.objects().len() - i,
        {
            proof {
                assert(self.objects().take(i as int + 1).drop_last() =~= self.objects().take(
                    i as int,
                ));
            }
            if self.game_objects[i].has_logic_component() {
                r.push(i);
            }
            i = i + 1;
        }
        proof {
            assert(self.objects().take(i as int) =~= self.objects());
        }
        r
    }
}

} // verus!
