use vstd::prelude::*;

use crate::scene::{Draw, Scene};
use crate::timer::{millis, Timer};

verus! {

/// A key event from the input collaborator, carrying the key code.
#[derive(Clone, Copy, Debug, PartialEq, Eq, Structural)]
pub enum KeyEvent {
    Press(u16),
    Release(u16),
}

/// The live scene after one key event; an ended application stays ended.
pub open spec fn after_event(s: Option<Scene>, e: KeyEvent) -> Option<Scene> {
    match s {
        Some(sc) => match e {
            KeyEvent::Press(k) => Some(sc.pressed(k)),
            KeyEvent::Release(k) => Some(sc.released(k)),
        },
        None => None,
    }
}

/// The live scene after the events `es`, delivered in order.
pub open spec fn after_events(s: Option<Scene>, es: Seq<KeyEvent>) -> Option<Scene>
    decreases es.len(),
{
    if es.len() == 0 {
        s
    } else {
        after_event(after_events(s, es.drop_last()), es.last())
    }
}

/// No event brings an ended application back.
pub proof fn lemma_ended_stays_ended(es: Seq<KeyEvent>)
    ensures
        after_events(None, es) is None,
    decreases es.len(),
{
    if es.len() > 0 {
        lemma_ended_stays_ended(es.drop_last());
    }
}

/// The scene driver: owns the one live scene and forwards time and keys to it.
/// `scene` is `None` once the application has ended.
pub struct App {
    pub scene: Option<Scene>,
    pub timer: Timer,
}

impl App {
    /// The live scene, if any, is well-formed.
    pub open spec fn wf(&self) -> bool {
        self.scene matches Some(s) ==> s.wf()
    }

    /// Start the application on the main menu.
    pub fn new() -> (r: App)
        ensures
            r.wf(),
            r.scene matches Some(Scene::MainMenu(m)) && m.is_fresh(),
    {
        App { scene: Some(Scene::new()), timer: Timer::new() }
    }

    /// Advance the live scene by `dt` milliseconds and adopt its successor.
    pub fn advance(&mut self, dt: u64)
        requires
            old(self).wf(),
        ensures
            final(self).timer == old(self).timer,
            final(self).wf(),
            old(self).scene matches Some(s) ==> s.ticked_to(dt as int, final(self).scene),
            old(self).scene is None ==> final(self).scene is None,
    {
        if let Some(s) = self.scene.take() {
            self.scene = s.tick(dt);
        }
    }

    /// One frame of `dt` milliseconds: advance the live scene and adopt its
    /// successor, then deliver the buffered key events in order, adopting the
    /// result of each before the next.
    pub fn step(&mut self, dt: u64, events: &Vec<KeyEvent>)
        requires
            old(self).wf(),
        ensures
            final(self).timer == old(self).timer,
            final(self).wf(),
            old(self).scene matches Some(s) ==> exists|mid: Option<Scene>|
                s.ticked_to(dt as int, mid) && final(self).scene == after_events(mid, events@),
            old(self).scene is None ==> final(self).scene is None,
    {
        self.advance(dt);
        let ghost mid = self.scene;
        let ghost timer = self.timer;
        let n = events.len();
        let mut i: usize = 0;
        while i < n
            invariant
                i <= n,
                n == events@.len(),
                self.wf(),
                self.timer == timer,
                self.scene == after_events(mid, events@.subrange(0, i as int)),
            decreases n - i,
        {
            proof {
                assert(events@.subrange(0, i + 1).drop_last() =~= events@.subrange(0, i as int));
            }
            match events[i] {
                KeyEvent::Press(k) => self.key_down(k),
                KeyEvent::Release(k) => self.key_up(k),
            }
            i = i + 1;
        }
        proof {
            assert(events@.subrange(0, n as int) =~= events@);
            lemma_ended_stays_ended(events@);
        }
    }

    /// One frame with the time measured since the previous frame, as `step`
    /// states it for that time.
    pub fn frame(&mut self, events: &Vec<KeyEvent>)
        requires
            old(self).wf(),
        ensures
            final(self).wf(),
            old(self).scene matches Some(s) ==> exists|dt: u64, mid: Option<Scene>|
                s.ticked_to(dt as int, mid) && final(self).scene == after_events(mid, events@),
            old(self).scene is None ==> final(self).scene is None,
    {
        let elapsed = self.timer.time();
        let dt = millis(&elapsed);
        self.step(dt, events);
    }

    /// Advance the live scene by the time measured since the previous tick.
    pub fn tick(&mut self)
        requires
            old(self).wf(),
        ensures
            final(self).wf(),
            old(self).scene matches Some(s) ==> exists|dt: u64|
                s.ticked_to(dt as int, final(self).scene),
            old(self).scene is None ==> final(self).scene is None,
    {
        let elapsed = self.timer.time();
        let dt = millis(&elapsed);
        self.advance(dt);
    }

    /// Tell the live scene that a key is being pressed.
    pub fn key_down(&mut self, key: u16)
        requires
            old(self).wf(),
        ensures
            final(self).timer == old(self).timer,
            final(self).wf(),
            old(self).scene matches Some(s) ==> final(self).scene == Some(s.pressed(key)),
            old(self).scene is None ==> final(self).scene is None,
    {
        if let Some(s) = self.scene.take() {
            self.scene = Some(s.key_down(key));
        }
    }

    /// Tell the live scene that a key is being released.
    pub fn key_up(&mut self, key: u16)
        requires
            old(self).wf(),
        ensures
            final(self).timer == old(self).timer,
            final(self).wf(),
            old(self).scene matches Some(s) ==> final(self).scene == Some(s.released(key)),
            old(self).scene is None ==> final(self).scene is None,
    {
        if let Some(s) = self.scene.take() {
            self.scene = Some(s.key_up(key));
        }
    }

    /// The draw requests of the live scene; none once the application ended.
    pub fn draw(&self) -> (r: Vec<Draw>)
        ensures
            self.scene matches Some(s) ==> s.shown_by(r@),
            self.scene is None ==> r@.len() == 0,
    {
        match &self.scene {
            Some(s) => s.draw(),
            None => Vec::new(),
        }
    }

    /// Whether the application has a live scene, i.e. is running.
    pub fn running(&self) -> (r: bool)
        ensures
            r == self.scene is Some,
    {
        self.scene.is_some()
    }
}

} // verus!
