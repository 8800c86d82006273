//! The navigation state machine: which view is shown, where the selection
//! cursor stands, and how discrete key events move both.

use crate::extract::ArticleError;
use crate::extract::text_result_view;
use crate::story::Story;
use crate::story::content_after;
use crate::story::content_result;
use vstd::arithmetic::div_mod::lemma_mod_bound;
use vstd::arithmetic::div_mod::lemma_mod_self_0;
use vstd::arithmetic::div_mod::lemma_small_mod;
use vstd::prelude::*;

verus! {

/// Which of the two screens is active.
#[derive(Clone, Copy, Debug, PartialEq, Eq, Structural)]
pub enum Window {
    Home,
    Article,
}

/// The discrete input events the state machine recognises; every other key
/// arrives as `Other` and is ignored.
#[derive(Clone, Copy, Debug, PartialEq, Eq, Structural)]
pub enum NavEvent {
    Quit,
    Down,
    Up,
    Enter,
    Next,
    Previous,
    Other,
}

/// The next index when moving forward through `modulus` entries: one step
/// down, wrapping from the last entry to the first.
pub fn increment_modulus(lhs: usize, modulus: usize) -> (r: usize)
    requires
        modulus > 0,
        lhs < modulus,
    ensures
        r == (lhs + 1) % (modulus as int),
{
    (lhs + 1) % modulus
}

/// The next index when moving backward through `modulus` entries: one step
/// up, wrapping from the first entry to the last.
pub fn decrement_modulus(lhs: usize, modulus: usize) -> (r: usize)
    requires
        modulus > 0,
        lhs < modulus,
    ensures
        r == (lhs - 1 + modulus) % (modulus as int),
{
    proof {
        if lhs == 0 {
            lemma_small_mod((modulus - 1) as nat, modulus as nat);
        } else {
            lemma_small_mod((lhs - 1) as nat, modulus as nat);
            assert((lhs - 1 + modulus) % (modulus as int) == (lhs - 1) % (modulus as int))
                by (nonlinear_arith)
                requires
                    modulus > 0,
                    lhs >= 1,
            ;
        }
    }
    if lhs == 0 {
        modulus - 1
    } else {
        lhs - 1
    }
}

/// Whether `ev` moves the selection forward in window `w`: down on the home
/// list, next in the article view.
pub open spec fn moves_forward(w: Window, ev: NavEvent) -> bool {
    (w is Home && ev is Down) || (w is Article && ev is Next)
}

/// Whether `ev` moves the selection backward in window `w`: up on the home
/// list, previous in the article view.
pub open spec fn moves_backward(w: Window, ev: NavEvent) -> bool {
    (w is Home && ev is Up) || (w is Article && ev is Previous)
}

/// The selection after one event: wrap-around arithmetic on the moves, and
/// the old selection on everything else.
pub open spec fn step_selected(w: Window, selected: int, n: int, ev: NavEvent) -> int {
    if moves_forward(w, ev) {
        (selected + 1) % n
    } else if moves_backward(w, ev) {
        (selected - 1 + n) % n
    } else {
        selected
    }
}

/// The window after one event: enter toggles between the two screens, and
/// every other event leaves the window alone.
pub open spec fn step_window(w: Window, ev: NavEvent) -> Window {
    if ev is Enter {
        match w {
            Window::Home => Window::Article,
            Window::Article => Window::Home,
        }
    } else {
        w
    }
}

/// The state reached by feeding a whole sequence of events, first one first.
pub open spec fn run_state(w: Window, selected: int, n: int, events: Seq<NavEvent>) -> (
    Window,
    int,
)
    decreases events.len(),
{
    if events.len() == 0 {
        (w, selected)
    } else {
        run_state(
            step_window(w, events[0]),
            step_selected(w, selected, n, events[0]),
            n,
            events.drop_first(),
        )
    }
}

/// One event keeps the selection inside `[0, n)`.
pub proof fn lemma_step_selected_in_bounds(w: Window, selected: int, n: int, ev: NavEvent)
    requires
        n > 0,
        0 <= selected < n,
    ensures
        0 <= step_selected(w, selected, n, ev) < n,
{
    lemma_mod_bound(selected + 1, n);
    lemma_mod_bound(selected - 1 + n, n);
}

/// Selection-validity law: from any valid state, any sequence of events —
/// ups, downs, nexts, previouses, enters and ignored keys in any order —
/// leaves the selection inside `[0, n)`.
pub proof fn lemma_selection_stays_in_bounds(
    w: Window,
    selected: int,
    n: int,
    events: Seq<NavEvent>,
)
    requires
        n > 0,
        0 <= selected < n,
    ensures
        0 <= run_state(w, selected, n, events).1 < n,
    decreases events.len(),
{
    if events.len() > 0 {
        lemma_step_selected_in_bounds(w, selected, n, events[0]);
        lemma_selection_stays_in_bounds(
            step_window(w, events[0]),
            step_selected(w, selected, n, events[0]),
            n,
            events.drop_first(),
        );
    }
}

/// Wrap-around law: a backward move from the first entry lands on the last,
/// and a forward move from the last entry lands on the first.
pub proof fn lemma_wrap_around(w: Window, n: int, ev: NavEvent)
    requires
        n > 0,
    ensures
        moves_backward(w, ev) ==> step_selected(w, 0, n, ev) == n - 1,
        moves_forward(w, ev) ==> step_selected(w, n - 1, n, ev) == 0,
{
    lemma_small_mod((n - 1) as nat, n as nat);
    lemma_mod_self_0(n);
}

/// The whole interface state: the stories, the selection cursor and the
/// active window. The selection is always a valid index, and the story
/// collection is never empty while the interface runs.
pub struct App {
    pub stories: Vec<Story>,
    pub selected: usize,
    pub window: Window,
}

impl App {
    /// The state invariant: there is at least one story and the selection
    /// points at one of them.
    pub open spec fn wf(self) -> bool {
        0 < self.stories@.len() && (self.selected as int) < self.stories@.len()
    }

    /// Builds the initial state: selection on the first story, home list
    /// shown.
    pub fn new(stories: Vec<Story>) -> (app: App)
        requires
            stories@.len() > 0,
        ensures
            app.wf(),
            app.stories@ == stories@,
            app.selected == 0,
            app.window is Home,
    {
        App { stories, selected: 0, window: Window::Home }
    }

    /// The ordered headlines, for the home list.
    pub fn get_items(&self) -> (items: Vec<String>)
        ensures
            items@.len() == self.stories@.len(),
            forall|i: int|
                0 <= i < items@.len() ==> (#[trigger] items@[i])@ == self.stories@[i]@.headline,
    {
        let mut items: Vec<String> = Vec::new();
        let mut i: usize = 0;
        while i < self.stories.len()
            invariant
                i <= self.stories@.len(),
                items@.len() == i,
                forall|j: int|
                    0 <= j < i ==> (#[trigger] items@[j])@ == self.stories@[j]@.headline,
            decreases self.stories@.len() - i,
        {
            items.push(self.stories[i].headline.clone());
            i += 1;
        }
        items
    }

    /// The story the selection cursor stands on.
    pub fn current_story(&self) -> (story: &Story)
        requires
            self.wf(),
        ensures
            *story == self.stories@[self.selected as int],
    {
        &self.stories[self.selected]
    }

    /// Whether showing the article view would need a fetch first: true
    /// exactly when the selected story has no cached content.
    pub fn current_needs_fetch(&self) -> (r: bool)
        requires
            self.wf(),
        ensures
            r == !(self.stories@[self.selected as int]@.content is Fetched),
    {
        self.current_story().needs_fetch()
    }

    /// Runs one `get_content` step of the selected story on a fetched copy
    /// of its page: every other story, the selection and the window stay
    /// untouched.
    pub fn load_current_content(&mut self, page_html: &str) -> (r: Result<String, ArticleError>)
        requires
            old(self).wf(),
        ensures
            final(self).wf(),
            final(self).window == old(self).window,
            final(self).selected == old(self).selected,
            final(self).stories@.len() == old(self).stories@.len(),
            forall|i: int|
                0 <= i < old(self).stories@.len() && i != old(self).selected as int
                    ==> final(self).stories@[i] == old(self).stories@[i],
            final(self).stories@[old(self).selected as int]@.headline == old(self).stories@[old(
                self,
            ).selected as int]@.headline,
            final(self).stories@[old(self).selected as int]@.link == old(self).stories@[old(
                self,
            ).selected as int]@.link,
            final(self).stories@[old(self).selected as int]@.content == content_after(
                old(self).stories@[old(self).selected as int]@.content,
                page_html@,
            ),
            text_result_view(r) == content_result(
                old(self).stories@[old(self).selected as int]@.content,
                page_html@,
            ),
    {
        let idx = self.selected;
        let mut story = self.stories.remove(idx);
        let r = story.get_content(page_html);
        self.stories.insert(idx, story);
        proof {
            assert(forall|i: int|
                0 <= i < old(self).stories@.len() && i != idx as int
                    ==> final(self).stories@[i] == old(self).stories@[i]);
        }
        r
    }

    /// Feeds one key event through the transition table: moves wrap the
    /// selection, enter toggles the window, quit asks the caller to stop,
    /// and any other key changes nothing. The stories themselves are never
    /// touched here.
    pub fn handle_event(&mut self, ev: NavEvent) -> (quit: bool)
        requires
            old(self).wf(),
        ensures
            final(self).wf(),
            final(self).stories@ == old(self).stories@,
            final(self).window == step_window(old(self).window, ev),
            final(self).selected as int == step_selected(
                old(self).window,
                old(self).selected as int,
                old(self).stories@.len() as int,
                ev,
            ),
            quit == (ev is Quit),
    {
        let n = self.stories.len();
        proof {
            lemma_step_selected_in_bounds(
                self.window,
                self.selected as int,
                n as int,
                ev,
            );
        }
        match ev {
            NavEvent::Quit => true,
            NavEvent::Down => {
                if self.window == Window::Home {
                    self.selected = increment_modulus(self.selected, n);
                }
                false
            },
            NavEvent::Up => {
                if self.window == Window::Home {
                    self.selected = decrement_modulus(self.selected, n);
                }
                false
            },
            NavEvent::Enter => {
                self.window = match self.window {
                    Window::Home => Window::Article,
                    Window::Article => Window::Home,
                };
                false
            },
            NavEvent::Next => {
                if self.window == Window::Article {
                    self.selected = increment_modulus(self.selected, n);
                }
                false
            },
            NavEvent::Previous => {
                if self.window == Window::Article {
                    self.selected = decrement_modulus(self.selected, n);
                }
                false
            },
            NavEvent::Other => false,
        }
    }
}

} // verus!
