//! Switching between scenes: the active scene, the one asked for next and the one left last.
use vstd::prelude::*;

verus! {

/// What a scene's tick asks for: the scene to switch to, if any.
pub struct SceneOutput<S> {
    pub next_scene: Option<S>,
}

impl<S> SceneOutput<S> {
    /// Asks to switch to `scene`.
    pub fn new(scene: S) -> (r: Self)
        ensures
            r.next_scene == Some(scene),
    {
        SceneOutput { next_scene: Some(scene) }
    }

    /// Asks for no switch.
    pub fn none() -> (r: Self)
        ensures
            r.next_scene is None,
    {
        SceneOutput { next_scene: None }
    }
}

/// The calls a tick of the scene manager asks for on the scenes, in this order: set up
/// the scene that was active when the tick began (on the first tick), then, when a switch
/// happened, tear down that scene (now the last scene) and set up the new active scene.
#[derive(Clone, Copy, Debug, PartialEq, Eq, Structural)]
pub struct SceneSteps {
    pub setup_first: bool,
    pub switched: bool,
}

/// The active scene, the next scene asked for, and the scene left last.
pub struct SceneManger<S> {
    first_loop: bool,
    next_scene: Option<S>,
    active_scene: S,
    last_scene: Option<S>,
}

impl<S> SceneManger<S> {
    pub closed spec fn is_first_loop(self) -> bool {
        self.first_loop
    }

    pub closed spec fn pending(self) -> Option<S> {
        self.next_scene
    }

    pub closed spec fn active(self) -> S {
        self.active_scene
    }

    pub closed spec fn last(self) -> Option<S> {
        self.last_scene
    }

    /// A manager whose active scene is `active`, not yet set up.
    pub fn new(active: S) -> (r: Self)
        ensures
            r.is_first_loop(),
            r.pending() is None,
            r.active() == active,
            r.last() is None,
    {
        SceneManger { first_loop: true, next_scene: None, active_scene: active, last_scene: None }
    }

    /// Sets up the active scene on the first tick, then switches to the next scene if one
    /// was asked for: the old active scene becomes the last scene.
    pub fn tick(&mut self) -> (r: SceneSteps)
        ensures
            r.setup_first == old(self).is_first_loop(),
            r.switched == old(self).pending() is Some,
            !final(self).is_first_loop(),
            final(self).pending() is None,
            match old(self).pending() {
                Some(next) => final(self).active() == next && final(self).last() == Some(
                    old(self).active(),
                ),
                None => final(self).active() == old(self).active() && final(self).last() == old(
                    self,
                ).last(),
            },
    {
        let setup_first = self.first_loop;
        self.first_loop = false;
        match self.next_scene.take() {
            Some(next_scene) => {
                let mut old_scene = next_scene;
                core::mem::swap(&mut self.active_scene, &mut old_scene);
                self.last_scene = Some(old_scene);
                SceneSteps { setup_first, switched: true }
            },
            None => SceneSteps { setup_first, switched: false },
        }
    }

    /// Asks to switch to `next` on the next tick.
    pub fn set_next(&mut self, next: S)
        ensures
            final(self).pending() == Some(next),
            final(self).active() == old(self).active(),
            final(self).last() == old(self).last(),
            final(self).is_first_loop() == old(self).is_first_loop(),
    {
        self.next_scene = Some(next);
    }

    /// Takes the last scene out of the manager.
    pub fn take_last_scene(&mut self) -> (r: Option<S>)
        ensures
            r == old(self).last(),
            final(self).last() is None,
            final(self).active() == old(self).active(),
            final(self).pending() == old(self).pending(),
            final(self).is_first_loop() == old(self).is_first_loop(),
    {
        self.last_scene.take()
    }

    /// Puts `last_scene` back as the last scene.
    pub fn restore_last_scene(&mut self, last_scene: Option<S>)
        ensures
            final(self).last() == last_scene,
            final(self).active() == old(self).active(),
            final(self).pending() == old(self).pending(),
            final(self).is_first_loop() == old(self).is_first_loop(),
    {
        self.last_scene = last_scene;
    }

    pub fn scene_enum(&self) -> (r: &S)
        ensures
            *r == self.active(),
    {
        &self.active_scene
    }

    pub fn scene_enum_mut(&mut self) -> (r: &mut S)
        ensures
            *r == old(self).active(),
            final(self).active() == *final(r),
            final(self).pending() == old(self).pending(),
            final(self).last() == old(self).last(),
            final(self).is_first_loop() == old(self).is_first_loop(),
    {
        &mut self.active_scene
    }
}

/// Taking the last scene out and putting it back leaves the manager as it was.
pub proof fn lemma_take_then_restore<S>(m: SceneManger<S>, taken: SceneManger<S>, restored: SceneManger<S>)
    requires
        taken.last() is None,
        taken.active() == m.active(),
        taken.pending() == m.pending(),
        taken.is_first_loop() == m.is_first_loop(),
        restored.last() == m.last(),
        restored.active() == taken.active(),
        restored.pending() == taken.pending(),
        restored.is_first_loop() == taken.is_first_loop(),
    ensures
        restored == m,
{
}

} // verus!
