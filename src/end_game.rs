use vstd::prelude::*;

use crate::geometry::{decimal, push_decimal, units_of, utf16, Text, TextSize};
use crate::main_menu::MainMenu;
use crate::scene::{draws_text, Draw, Scene, KEY_ENTER};

verus! {

/// Horizontal centre of the texts.
pub const TEXT_X: i64 = 500_000;

/// Vertical position of the title.
pub const TOPIC_Y: i64 = 250_000;

/// Vertical position of the result line.
pub const RESULT_Y: i64 = 525_000;

/// Vertical position of the help line.
pub const HELP_Y: i64 = 750_000;

/// The result line: the right player's points, `" - "`, the left player's points.
pub open spec fn result_text(l_score: u8, r_score: u8) -> Seq<u16> {
    decimal(r_score as nat) + seq![32u16, 45u16, 32u16] + decimal(l_score as nat)
}

/// The scene which shows the end game results.
pub struct EndGame {
    pub topic: Text,
    pub result: Text,
    pub help: Text,
    pub l_score: u8,
    pub r_score: u8,
    pub selected: bool,
}

impl EndGame {
    /// The result text shows the two final scores.
    pub open spec fn wf(&self) -> bool {
        self.result.text@ == result_text(self.l_score, self.r_score)
    }

    /// `d` draws topic, result and help texts, in that order.
    pub open spec fn shown_by(&self, d: Seq<Draw>) -> bool {
        &&& d.len() == 3
        &&& draws_text(d[0], self.topic)
        &&& draws_text(d[1], self.result)
        &&& draws_text(d[2], self.help)
    }

    /// `r` is what `advance` owes: a new main menu once ENTER was released,
    /// otherwise the results scene itself.
    pub open spec fn ticked_to(self, r: Scene) -> bool {
        &&& r.wf()
        &&& self.selected ==> (r matches Scene::MainMenu(m) && m.is_fresh())
        &&& !self.selected ==> r == Scene::EndGame(self)
    }

    /// Build the results scene for the given final scores: the title, the
    /// result line and the help line, centred one under the other.
    pub fn new(l_score: u8, r_score: u8) -> (r: EndGame)
        ensures
            r.wf(),
            r.l_score == l_score,
            r.r_score == r_score,
            !r.selected,
            r.topic.x == TEXT_X && r.topic.y == TOPIC_Y && r.topic.size == TextSize::Big,
            r.topic.text@ == units_of("GAME OVER"@),
            r.result.x == TEXT_X && r.result.y == RESULT_Y && r.result.size == TextSize::Big,
            r.help.x == TEXT_X && r.help.y == HELP_Y && r.help.size == TextSize::Small,
            r.help.text@ == units_of("Press ENTER to go back to main menu"@),
    {
        proof {
            reveal_strlit("GAME OVER");
            reveal_strlit("Press ENTER to go back to main menu");
        }
        let mut line: Vec<u16> = Vec::new();
        push_decimal(&mut line, r_score as u64);
        line.push(32);
        line.push(45);
        line.push(32);
        let ghost mid = line@;
        push_decimal(&mut line, l_score as u64);
        proof {
            assert(mid =~= decimal(r_score as nat) + seq![32u16, 45u16, 32u16]);
        }
        EndGame {
            topic: Text { x: TEXT_X, y: TOPIC_Y, text: utf16("GAME OVER"), size: TextSize::Big },
            result: Text { x: TEXT_X, y: RESULT_Y, text: line, size: TextSize::Big },
            help: Text {
                x: TEXT_X,
                y: HELP_Y,
                text: utf16("Press ENTER to go back to main menu"),
                size: TextSize::Small,
            },
            l_score,
            r_score,
            selected: false,
        }
    }

    /// Leave for a new main menu once ENTER was released; otherwise stay.
    pub fn tick(self, dt: u64) -> (r: Scene)
        requires
            self.wf(),
        ensures
            self.ticked_to(r),
    {
        if self.selected {
            Scene::MainMenu(MainMenu::new())
        } else {
            Scene::EndGame(self)
        }
    }

    /// Pressing a key has no effect.
    pub fn key_down(self, key: u16) -> (r: Scene)
        ensures
            r == Scene::EndGame(self),
    {
        Scene::EndGame(self)
    }

    /// Releasing ENTER sets the selection latch; other keys are ignored.
    pub fn key_up(self, key: u16) -> (r: Scene)
        requires
            self.wf(),
        ensures
            r.wf(),
            r == Scene::EndGame(EndGame { selected: self.selected || key == KEY_ENTER, ..self }),
    {
        let mut s = self;
        if key == KEY_ENTER {
            s.selected = true;
        }
        Scene::EndGame(s)
    }

    /// Draw requests, as `shown_by` lists them.
    pub fn draw(&self) -> (r: Vec<Draw>)
        ensures
            self.shown_by(r@),
    {
        let mut out: Vec<Draw> = Vec::new();
        out.push(Draw::Label(self.topic.duplicate()));
        out.push(Draw::Label(self.result.duplicate()));
        out.push(Draw::Label(self.help.duplicate()));
        out
    }
}

} // verus!
