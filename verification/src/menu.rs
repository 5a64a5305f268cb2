//! The main menu: which screen it shows, the connection form, the splash
//! text, and what a button press asks of the game.

use vstd::prelude::*;
use crate::text::{chars_of, split_chars, split_on, string_of};

verus! {

#[verifier::external_type_specification]
#[verifier::external_body]
pub struct ExInstant(std::time::Instant);

/// `Instant::now`: the current time. Nothing is stated of the value.
#[verifier::external_body]
fn now() -> std::time::Instant {
    std::time::Instant::now()
}

/// What the menu asks of the game.
pub enum MenuAction {
    /// Nothing to do.
    Nothing,
    /// Connect to `server` as `username`.
    Connect { server: String, username: String },
    /// Quit the game.
    Quit,
}

/// The screen the menu shows.
#[derive(Clone, Copy, PartialEq, Eq, Debug, Structural)]
pub enum Screen {
    Main,
    Multiplayer,
}

/// A button or key press on the menu.
#[derive(Clone, Copy, PartialEq, Eq, Debug, Structural)]
pub enum MenuEvent {
    Singleplayer,
    Multiplayer,
    Language,
    Options,
    QuitGame,
    Accessibility,
    Back,
    /// The connect button, or Enter in the server address field.
    Connect,
}

/// The main menu.
pub struct MainMenu {
    server_address: String,
    username: String,
    screen: Screen,
    splash: Option<String>,
    start_time: std::time::Instant,
}

/// The lines of a text as `str::lines` yields them: split at each `\n`, a
/// `\r` before the `\n` dropped, and no empty last line after a final `\n`.
pub open spec fn text_lines(s: Seq<char>) -> Seq<Seq<char>> {
    let pieces = split_on(s, '\n');
    let ended = Seq::new(
        (pieces.len() - 1) as nat,
        |i: int|
            if pieces[i].len() > 0 && pieces[i].last() == '\r' {
                pieces[i].drop_last()
            } else {
                pieces[i]
            },
    );
    if pieces.last().len() > 0 {
        ended.push(pieces.last())
    } else {
        ended
    }
}

/// The non-empty lines of `s`, in order.
pub open spec fn nonempty_lines(lines: Seq<Seq<char>>) -> Seq<Seq<char>>
    decreases lines.len(),
{
    if lines.len() == 0 {
        lines
    } else {
        let rest = nonempty_lines(lines.drop_last());
        if lines.last().len() > 0 {
            rest.push(lines.last())
        } else {
            rest
        }
    }
}

/// The splash candidates of a splash file: its non-empty lines.
pub open spec fn splash_candidates(contents: Seq<char>) -> Seq<Seq<char>> {
    nonempty_lines(text_lines(contents))
}

impl MainMenu {
    /// The screen shown.
    pub closed spec fn screen_of(&self) -> Screen {
        self.screen
    }

    /// The server address in the form.
    pub closed spec fn server_of(&self) -> Seq<char> {
        self.server_address@
    }

    /// The user name in the form.
    pub closed spec fn username_of(&self) -> Seq<char> {
        self.username@
    }

    /// The splash text, where one was chosen.
    pub closed spec fn splash_of(&self) -> Option<Seq<char>> {
        match self.splash {
            Some(s) => Some(s@),
            None => None,
        }
    }

    /// The moment the menu was created.
    pub closed spec fn started_at(&self) -> std::time::Instant {
        self.start_time
    }

    /// The menu as the game opens it: the main screen, the form filled with
    /// `localhost:25565` and `Steve`, and no splash yet.
    pub fn new() -> (m: Self)
        ensures
            m.screen_of() == Screen::Main,
            m.server_of() == "localhost:25565"@,
            m.username_of() == "Steve"@,
            m.splash_of() is None,
    {
        MainMenu {
            server_address: string_of(&chars_of("localhost:25565")),
            username: string_of(&chars_of("Steve")),
            screen: Screen::Main,
            splash: None,
            start_time: now(),
        }
    }

    /// The moment the menu was created, which seeds the splash choice and
    /// times its animation.
    pub fn start_time(&self) -> (t: std::time::Instant)
        ensures
            t == self.started_at(),
    {
        self.start_time
    }

    /// The screen shown.
    pub fn screen(&self) -> (s: Screen)
        ensures
            s == self.screen_of(),
    {
        self.screen
    }

    /// The server address in the form.
    pub fn server_address(&self) -> (s: &String)
        ensures
            s@ == self.server_of(),
    {
        &self.server_address
    }

    /// The user name in the form.
    pub fn username(&self) -> (s: &String)
        ensures
            s@ == self.username_of(),
    {
        &self.username
    }

    /// The splash text, where one was chosen.
    pub fn splash(&self) -> (s: Option<&String>)
        ensures
            match s {
                Some(t) => self.splash_of() == Some(t@),
                None => self.splash_of() is None,
            },
    {
        match &self.splash {
            Some(t) => Some(t),
            None => None,
        }
    }

    /// Replaces the server address, as the form's text field edits it.
    pub fn set_server_address(&mut self, s: String)
        ensures
            final(self).server_of() == s@,
            final(self).username_of() == old(self).username_of(),
            final(self).screen_of() == old(self).screen_of(),
            final(self).started_at() == old(self).started_at(),
            final(self).splash_of() == old(self).splash_of(),
    {
        self.server_address = s;
    }

    /// Replaces the user name, as the form's text field edits it.
    pub fn set_username(&mut self, s: String)
        ensures
            final(self).username_of() == s@,
            final(self).server_of() == old(self).server_of(),
            final(self).screen_of() == old(self).screen_of(),
            final(self).started_at() == old(self).started_at(),
            final(self).splash_of() == old(self).splash_of(),
    {
        self.username = s;
    }

    /// Chooses the splash text from the contents of the splash file: the
    /// candidate at `seed` modulo their number. A file without candidates
    /// leaves the splash as it was.
    pub fn choose_splash(&mut self, contents: &str, seed: usize)
        ensures
            final(self).screen_of() == old(self).screen_of(),
            final(self).started_at() == old(self).started_at(),
            final(self).server_of() == old(self).server_of(),
            final(self).username_of() == old(self).username_of(),
            splash_candidates(contents@).len() == 0 ==> final(self).splash_of() == old(self).splash_of(),
            splash_candidates(contents@).len() > 0 ==> final(self).splash_of() == Some(
                splash_candidates(contents@)[seed as int % splash_candidates(contents@).len() as int],
            ),
    {
        let lines = splash_lines(contents);
        if lines.len() == 0 {
            return;
        }
        let index = seed % lines.len();
        self.splash = Some(string_of(&lines[index]));
    }

    /// What a press asks of the game, and the screen it leads to. On the main
    /// screen, Multiplayer opens the connection form and Quit Game quits; on
    /// the form, Back returns to the main screen and Connect connects to the
    /// address in the form with the name in the form. Other presses do
    /// nothing.
    pub fn handle(&mut self, event: MenuEvent) -> (a: MenuAction)
        ensures
            final(self).server_of() == old(self).server_of(),
            final(self).username_of() == old(self).username_of(),
            final(self).splash_of() == old(self).splash_of(),
            final(self).started_at() == old(self).started_at(),
            final(self).screen_of() == match (old(self).screen_of(), event) {
                (Screen::Main, MenuEvent::Multiplayer) => Screen::Multiplayer,
                (Screen::Multiplayer, MenuEvent::Back) => Screen::Main,
                (s, _) => s,
            },
            match (old(self).screen_of(), event) {
                (Screen::Main, MenuEvent::QuitGame) => a is Quit,
                (Screen::Multiplayer, MenuEvent::Connect) => match a {
                    MenuAction::Connect { server, username } => server@ == old(self).server_of()
                        && username@ == old(self).username_of(),
                    _ => false,
                },
                _ => a is Nothing,
            },
    {
        match (self.screen, event) {
            (Screen::Main, MenuEvent::Multiplayer) => {
                self.screen = Screen::Multiplayer;
                MenuAction::Nothing
            },
            (Screen::Main, MenuEvent::QuitGame) => MenuAction::Quit,
            (Screen::Multiplayer, MenuEvent::Back) => {
                self.screen = Screen::Main;
                MenuAction::Nothing
            },
            (Screen::Multiplayer, MenuEvent::Connect) => MenuAction::Connect {
                server: self.server_address.clone(),
                username: self.username.clone(),
            },
            _ => MenuAction::Nothing,
        }
    }
}

fn strip_cr(p: &Vec<char>) -> (r: Vec<char>)
    ensures
        r@ == if p@.len() > 0 && p@.last() == '\r' {
            p@.drop_last()
        } else {
            p@
        },
{
    if p.len() > 0 && p[p.len() - 1] == '\r' {
        let mut v: Vec<char> = Vec::new();
        for k in 0..p.len() - 1
            invariant
                k <= p@.len() - 1,
                v@ == p@.take(k as int),
        {
            v.push(p[k]);
            assert(v@ =~= p@.take(k + 1));
        }
        assert(p@.take(p@.len() - 1) =~= p@.drop_last());
        v
    } else {
        p.clone()
    }
}

/// The splash candidates of a splash file.
pub fn splash_lines(contents: &str) -> (r: Vec<Vec<char>>)
    ensures
        r@.map_values(|l: Vec<char>| l@) == splash_candidates(contents@),
{
    let chars = chars_of(contents);
    let pieces = split_chars(&chars, '\n');
    let ghost pv = pieces@.map_values(|p: Vec<char>| p@);
    proof {
        crate::text::lemma_split_on_nonempty(contents@, '\n');
    }
    let ghost tl = text_lines(contents@);
    let n = pieces.len();
    let mut out: Vec<Vec<char>> = Vec::new();
    for i in 0..n - 1
        invariant
            n == pieces@.len(),
            n >= 1,
            pv == pieces@.map_values(|p: Vec<char>| p@),
            pv == split_on(contents@, '\n'),
            tl == text_lines(contents@),
            out@.map_values(|l: Vec<char>| l@) == nonempty_lines(tl.take(i as int)),
    {
        let line = strip_cr(&pieces[i]);
        let ghost lv = line@;
        assert(tl[i as int] == lv);
        assert(tl.take(i + 1).drop_last() =~= tl.take(i as int));
        let ghost before = out@.map_values(|l: Vec<char>| l@);
        if line.len() > 0 {
            out.push(line);
            assert(out@.map_values(|l: Vec<char>| l@) =~= before.push(lv));
        }
    }
    let last = pieces[n - 1].clone();
    let ghost before = out@.map_values(|l: Vec<char>| l@);
    if last.len() > 0 {
        let ghost lv = last@;
        assert(tl.take(n - 1) =~= tl.drop_last());
        assert(tl.last() == lv);
        out.push(last);
        assert(out@.map_values(|l: Vec<char>| l@) =~= before.push(lv));
    } else {
        assert(tl.take(n - 1) =~= tl);
    }
    out
}

} // verus!
