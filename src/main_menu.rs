use vstd::prelude::*;

use crate::court::{centered_ball, centered_l_paddle, centered_r_paddle, Court};
use crate::geometry::{units_of, utf16, Rectangle, Text, TextSize, UNIT};
use crate::scene::{draws_rect, draws_text, Draw, Scene, KEY_DOWN, KEY_ENTER, KEY_UP};

verus! {

/// Horizontal centre of the menu's texts.
pub const MENU_X: i64 = 500_000;

/// Vertical position of the title.
pub const TITLE_Y: i64 = 200_000;

/// Vertical position of the help line.
pub const HELP_Y: i64 = 400_000;

/// Height of the header and footer bars.
pub const BAR_H: i64 = 30_000;

/// Horizontal position of the highlighter.
pub const HIGHLIGHT_X: i64 = 300_000;

/// Width and height of the highlighter.
pub const HIGHLIGHT_SIZE: i64 = 30_000;

/// Vertical position of the "START" label.
pub const START_Y: i64 = 525_000;

/// Vertical position of the "QUIT" label.
pub const QUIT_Y: i64 = 700_000;

/// Highlighter position when "START" is selected.
pub const HIGHLIGHT_START_Y: i64 = 510_000;

/// Highlighter position when "QUIT" is selected.
pub const HIGHLIGHT_QUIT_Y: i64 = 685_000;

/// The highlighter position after one toggle from `y`.
pub open spec fn toggled(y: i64, start_y: i64) -> i64 {
    if y < start_y {
        HIGHLIGHT_QUIT_Y
    } else {
        HIGHLIGHT_START_Y
    }
}

/// The menu where the player can select to start or quit the game.
pub struct MainMenu {
    pub header: Rectangle,
    pub topic: Text,
    pub help: Text,
    pub start: Text,
    pub quit: Text,
    pub highlighter: Rectangle,
    pub footer: Rectangle,
    pub selected: bool,
}

impl MainMenu {
    /// The highlighter stands at one of its two positions.
    pub open spec fn wf(&self) -> bool {
        &&& self.start.y == START_Y
        &&& self.highlighter.y == HIGHLIGHT_START_Y || self.highlighter.y == HIGHLIGHT_QUIT_Y
    }

    /// The highlighter marks "START" (it stands above the label).
    pub open spec fn start_highlighted(&self) -> bool {
        self.highlighter.y < self.start.y
    }

    /// A menu as built: "START" highlighted and nothing selected yet.
    pub open spec fn is_fresh(&self) -> bool {
        self.wf() && self.start_highlighted() && !self.selected
    }

    /// The menu after the key `key` was released: UP or DOWN toggles the
    /// highlighter unless a choice was made, ENTER sets the selection latch.
    pub open spec fn released(self, key: u16) -> MainMenu {
        if (key == KEY_UP || key == KEY_DOWN) && !self.selected {
            MainMenu {
                highlighter: Rectangle {
                    y: toggled(self.highlighter.y, self.start.y),
                    ..self.highlighter
                },
                ..self
            }
        } else if key == KEY_ENTER {
            MainMenu { selected: true, ..self }
        } else {
            self
        }
    }

    /// `d` draws header, footer and highlighter, then title, help and the two
    /// labels, in that order: text comes last.
    pub open spec fn shown_by(&self, d: Seq<Draw>) -> bool {
        &&& d.len() == 7
        &&& draws_rect(d[0], self.header)
        &&& draws_rect(d[1], self.footer)
        &&& draws_rect(d[2], self.highlighter)
        &&& draws_text(d[3], self.topic)
        &&& draws_text(d[4], self.help)
        &&& draws_text(d[5], self.start)
        &&& draws_text(d[6], self.quit)
    }

    /// `r` is what `advance` owes: once a choice is latched, a new court for
    /// "START" and the end of the application (`None`) for "QUIT"; otherwise
    /// the menu itself.
    pub open spec fn ticked_to(self, r: Option<Scene>) -> bool {
        &&& self.selected && self.start_highlighted() ==> (r matches Some(Scene::Court(c))
            && c.is_fresh())
        &&& self.selected && !self.start_highlighted() ==> r is None
        &&& !self.selected ==> r == Some(Scene::MainMenu(self))
    }

    /// Build the menu with "START" highlighted: header and footer bars along
    /// the top and bottom edges, the title, the help line, the two labels and
    /// the highlighter beside "START".
    pub fn new() -> (r: MainMenu)
        ensures
            r.is_fresh(),
            r.header == (Rectangle { x: 0, y: 0, w: UNIT, h: BAR_H }),
            r.footer == (Rectangle { x: 0, y: (UNIT - BAR_H) as i64, w: UNIT, h: BAR_H }),
            r.highlighter == (Rectangle {
                x: HIGHLIGHT_X,
                y: HIGHLIGHT_START_Y,
                w: HIGHLIGHT_SIZE,
                h: HIGHLIGHT_SIZE,
            }),
            r.topic.x == MENU_X && r.topic.y == TITLE_Y && r.topic.size == TextSize::Big,
            r.topic.text@ == units_of("PONG"@),
            r.help.x == MENU_X && r.help.y == HELP_Y && r.help.size == TextSize::Tiny,
            r.help.text@ == units_of("Select a menu item with UP or DOWN arrows and press ENTER."@),
            r.start.x == MENU_X && r.start.y == START_Y && r.start.size == TextSize::Medium,
            r.start.text@ == units_of("START"@),
            r.quit.x == MENU_X && r.quit.y == QUIT_Y && r.quit.size == TextSize::Medium,
            r.quit.text@ == units_of("QUIT"@),
    {
        proof {
            reveal_strlit("PONG");
            reveal_strlit("START");
            reveal_strlit("QUIT");
            reveal_strlit("Select a menu item with UP or DOWN arrows and press ENTER.");
        }
        MainMenu {
            header: Rectangle { x: 0, y: 0, w: UNIT, h: BAR_H },
            topic: Text { x: MENU_X, y: TITLE_Y, text: utf16("PONG"), size: TextSize::Big },
            help: Text { x: MENU_X, y: HELP_Y, text: utf16("Select a menu item with UP or DOWN arrows and press ENTER."), size: TextSize::Tiny },
            start: Text { x: MENU_X, y: START_Y, text: utf16("START"), size: TextSize::Medium },
            quit: Text { x: MENU_X, y: QUIT_Y, text: utf16("QUIT"), size: TextSize::Medium },
            highlighter: Rectangle {
                x: HIGHLIGHT_X,
                y: HIGHLIGHT_START_Y,
                w: HIGHLIGHT_SIZE,
                h: HIGHLIGHT_SIZE,
            },
            footer: Rectangle { x: 0, y: UNIT - BAR_H, w: UNIT, h: BAR_H },
            selected: false,
        }
    }

    /// Move the highlighter to the other item.
    fn toggle_selection(&mut self)
        ensures
            *final(self) == (MainMenu {
                highlighter: Rectangle {
                    y: toggled(old(self).highlighter.y, old(self).start.y),
                    ..old(self).highlighter
                },
                ..*old(self)
            }),
    {
        if self.highlighter.y < self.start.y {
            self.highlighter.y = HIGHLIGHT_QUIT_Y;
        } else {
            self.highlighter.y = HIGHLIGHT_START_Y;
        }
    }

    /// Once a choice is latched: a new court for "START", the end of the
    /// application (`None`) for "QUIT". Otherwise the menu stays.
    pub fn tick(self, dt: u64) -> (r: Option<Scene>)
        requires
            self.wf(),
        ensures
            self.ticked_to(r),
    {
        if self.selected {
            if self.highlighter.y < self.start.y {
                Some(Scene::Court(Court::new()))
            } else {
                None
            }
        } else {
            Some(Scene::MainMenu(self))
        }
    }

    /// Pressing a key has no effect.
    pub fn key_down(self, key: u16) -> (r: MainMenu)
        ensures
            r == self,
    {
        self
    }

    /// Handle a released key, as `released` states it.
    pub fn key_up(self, key: u16) -> (r: MainMenu)
        requires
            self.wf(),
        ensures
            r == self.released(key),
            r.wf(),
    {
        let mut m = self;
        if (key == KEY_UP || key == KEY_DOWN) && !m.selected {
            m.toggle_selection();
        } else if key == KEY_ENTER {
            m.selected = true;
        }
        m
    }

    /// Draw requests, as `shown_by` lists them.
    pub fn draw(&self) -> (r: Vec<Draw>)
        ensures
            self.shown_by(r@),
    {
        let mut out: Vec<Draw> = Vec::new();
        out.push(Draw::Rect(self.header));
        out.push(Draw::Rect(self.footer));
        out.push(Draw::Rect(self.highlighter));
        out.push(Draw::Label(self.topic.duplicate()));
        out.push(Draw::Label(self.help.duplicate()));
        out.push(Draw::Label(self.start.duplicate()));
        out.push(Draw::Label(self.quit.duplicate()));
        out
    }
}

/// From a menu with "START" highlighted, releasing ENTER and then advancing
/// always yields a fresh court: both scores zero, ball and paddles centred.
pub proof fn lemma_start_then_enter(m: MainMenu)
    requires
        m.wf(),
        m.start_highlighted(),
    ensures
        forall|r: Option<Scene>| #[trigger]
            m.released(KEY_ENTER).ticked_to(r) ==> (r matches Some(Scene::Court(c))
                && c.is_fresh() && c.play.left.points == 0 && c.play.right.points == 0
                && c.play.ball == centered_ball() && c.play.l_paddle == centered_l_paddle()
                && c.play.r_paddle == centered_r_paddle()),
{
}

} // verus!
