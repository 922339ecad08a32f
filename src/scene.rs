use vstd::prelude::*;

use crate::court::Court;
use crate::end_game::EndGame;
use crate::geometry::{Rectangle, Text};
use crate::main_menu::MainMenu;

verus! {

/// Key code of the UP arrow (Windows virtual-key code).
pub const KEY_UP: u16 = 0x26;

/// Key code of the DOWN arrow.
pub const KEY_DOWN: u16 = 0x28;

/// Key code of the W key.
pub const KEY_W: u16 = 0x57;

/// Key code of the S key.
pub const KEY_S: u16 = 0x53;

/// Key code of the ENTER key.
pub const KEY_ENTER: u16 = 0x0D;

/// One draw request, issued to the graphics collaborator in list order.
pub enum Draw {
    Rect(Rectangle),
    Label(Text),
}

/// `d` fills the rectangle `r`.
pub open spec fn draws_rect(d: Draw, r: Rectangle) -> bool {
    d == Draw::Rect(r)
}

/// `d` writes the text `t`: same position, size tier and content.
pub open spec fn draws_text(d: Draw, t: Text) -> bool {
    d matches Draw::Label(u) && u.x == t.x && u.y == t.y && u.size == t.size && u.text@ == t.text@
}

/// The active mode of the application. Each operation consumes the scene and
/// hands back its successor, so exactly one scene is live at any time.
pub enum Scene {
    MainMenu(MainMenu),
    Court(Court),
    EndGame(EndGame),
}

impl Scene {
    /// The scene's own invariant holds.
    pub open spec fn wf(&self) -> bool {
        match self {
            Scene::MainMenu(m) => m.wf(),
            Scene::Court(c) => c.wf(),
            Scene::EndGame(e) => e.wf(),
        }
    }
}

impl Scene {
    /// The scene after the key `key` was pressed.
    pub open spec fn pressed(self, key: u16) -> Scene {
        match self {
            Scene::Court(c) => Scene::Court(Court { play: c.play.pressed(key), ..c }),
            _ => self,
        }
    }

    /// The scene after the key `key` was released.
    pub open spec fn released(self, key: u16) -> Scene {
        match self {
            Scene::MainMenu(m) => Scene::MainMenu(m.released(key)),
            Scene::Court(c) => Scene::Court(Court { play: c.play.released(key), ..c }),
            Scene::EndGame(e) => Scene::EndGame(
                EndGame { selected: e.selected || key == KEY_ENTER, ..e },
            ),
        }
    }

    /// `r` is what `advance(dt)` owes for this scene; `None` ends the application.
    pub open spec fn ticked_to(self, dt: int, r: Option<Scene>) -> bool {
        match self {
            Scene::MainMenu(m) => m.ticked_to(r),
            Scene::Court(c) => r matches Some(n) && c.ticked_to(dt, n),
            Scene::EndGame(e) => r matches Some(n) && e.ticked_to(n),
        }
    }

    /// `d` is the list of draw requests of this scene.
    pub open spec fn shown_by(&self, d: Seq<Draw>) -> bool {
        match self {
            Scene::MainMenu(m) => m.shown_by(d),
            Scene::Court(c) => c.shown_by(d),
            Scene::EndGame(e) => e.shown_by(d),
        }
    }

    /// The first scene of the application: the main menu.
    pub fn new() -> (r: Scene)
        ensures
            r matches Scene::MainMenu(m) && m.is_fresh(),
    {
        Scene::MainMenu(MainMenu::new())
    }

    /// Advance the scene by `dt` milliseconds. `None` ends the application.
    pub fn tick(self, dt: u64) -> (r: Option<Scene>)
        requires
            self.wf(),
        ensures
            self.ticked_to(dt as int, r),
            r matches Some(n) ==> n.wf(),
    {
        match self {
            Scene::MainMenu(m) => m.tick(dt),
            Scene::Court(c) => Some(c.tick(dt)),
            Scene::EndGame(e) => Some(e.tick(dt)),
        }
    }

    /// Tell the scene that a key is being pressed.
    pub fn key_down(self, key: u16) -> (r: Scene)
        requires
            self.wf(),
        ensures
            r == self.pressed(key),
            r.wf(),
    {
        match self {
            Scene::MainMenu(m) => Scene::MainMenu(m.key_down(key)),
            Scene::Court(c) => Scene::Court(c.key_down(key)),
            Scene::EndGame(e) => e.key_down(key),
        }
    }

    /// Tell the scene that a key is being released.
    pub fn key_up(self, key: u16) -> (r: Scene)
        requires
            self.wf(),
        ensures
            r == self.released(key),
            r.wf(),
    {
        match self {
            Scene::MainMenu(m) => Scene::MainMenu(m.key_up(key)),
            Scene::Court(c) => Scene::Court(c.key_up(key)),
            Scene::EndGame(e) => e.key_up(key),
        }
    }

    /// The draw requests of the scene, in drawing order.
    pub fn draw(&self) -> (r: Vec<Draw>)
        ensures
            self.shown_by(r@),
    {
        match self {
            Scene::MainMenu(m) => m.draw(),
            Scene::Court(c) => c.draw(),
            Scene::EndGame(e) => e.draw(),
        }
    }
}

} // verus!
