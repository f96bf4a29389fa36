//! The stack of screens of the client: the screen on top is shown; a new
//! screen goes on top, and going back removes the top one.

use vstd::prelude::*;

verus! {

/// A change of screen, carrying the model of the screen to show.
pub enum StateChange<M> {
    /// Show the list of times (or any screen pushed on top).
    ToSelect(M),
    /// Show one times.
    ToTimes(M),
    /// Leave the screen on top.
    Back,
}

/// The models of the screens, the one shown last.
pub struct ModelStack<M> {
    models: Vec<M>,
}

impl<M> ModelStack<M> {
    /// The models, from the bottom to the one shown.
    pub closed spec fn models(&self) -> Seq<M> {
        self.models@
    }

    /// The stack holding the first screen only.
    pub fn new(start: M) -> (r: Self)
        ensures
            r.models() == seq![start],
    {
        let mut models: Vec<M> = Vec::new();
        models.push(start);
        ModelStack { models }
    }

    /// Whether no screen is left.
    pub fn is_empty(&self) -> (r: bool)
        ensures
            r == (self.models().len() == 0),
    {
        self.models.len() == 0
    }

    /// The model of the screen shown, to update.
    pub fn front_mut(&mut self) -> (r: Option<&mut M>)
        ensures
            old(self).models().len() == 0 ==> r is None && final(self).models() == old(self).models(),
            old(self).models().len() > 0 ==> (r matches Some(m) && *m == old(self).models().last()
                && final(self).models() == old(self).models().update(old(self).models().len() - 1, *final(m))),
    {
        let n = self.models.len();
        if n == 0 {
            None
        } else {
            Some(&mut self.models[n - 1])
        }
    }

    /// Applies a change of screen: a new screen goes on top; going back
    /// removes the top screen, which must exist.
    pub fn apply(&mut self, change: StateChange<M>)
        requires
            change is Back ==> old(self).models().len() > 0,
        ensures
            match change {
                StateChange::ToSelect(m) => final(self).models() == old(self).models().push(m),
                StateChange::ToTimes(m) => final(self).models() == old(self).models().push(m),
                StateChange::Back => final(self).models() == old(self).models().drop_last(),
            },
    {
        match change {
            StateChange::ToSelect(m) => self.models.push(m),
            StateChange::ToTimes(m) => self.models.push(m),
            StateChange::Back => {
                let _ = self.models.pop();
            },
        }
    }
}

/// Going to a screen and back returns to the screens before.
pub proof fn law_push_then_back<M>(before: Seq<M>, m: M)
    ensures
        before.push(m).drop_last() == before,
{
    assert(before.push(m).drop_last() =~= before);
}

} // verus!
