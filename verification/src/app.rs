//! The calculator's state machine: one owned value holds the input buffer,
//! the append-only history with its browsing cursor, the pending edit saved
//! while browsing, and the displayed output with its validity flag. The host
//! feeds events in once per tick and reads the displayed state back.

use vstd::prelude::*;
use crate::eval::{eval_to_fixed, spec_response, OUTPUT_PRECISION};
use crate::text::{
    clean_display, is_exit_seq, is_exit_trimmed, lemma_trimmed_idempotent, trim_spaces, trimmed,
};

verus! {

/// The abstract state of one calculator session.
#[verifier::ext_equal]
pub struct State {
    /// One-shot request that the host give the input field focus.
    pub autofocus: bool,
    /// Committed expressions, oldest first; entries are trimmed, never empty.
    pub history: Seq<Seq<char>>,
    /// Browsing cursor: an index into `history`, or `None` when not browsing.
    pub cursor: Option<usize>,
    /// The input buffer.
    pub input: Seq<char>,
    /// Snapshot of the buffer taken when browsing began.
    pub pending: Seq<char>,
    /// The displayed output.
    pub response: Seq<char>,
    /// The buffer text of the previous tick.
    pub previous: Seq<char>,
    /// Whether the last evaluated input failed to evaluate.
    pub invalid: bool,
}

impl State {
    /// Cursor in bounds, and every stored entry trimmed and non-empty.
    pub open spec fn wf(self) -> bool {
        &&& (self.cursor matches Some(i) ==> i < self.history.len())
        &&& (forall|k: int|
            0 <= k < self.history.len() ==> trimmed(#[trigger] self.history[k])
                == self.history[k] && self.history[k].len() > 0)
    }

    /// A fresh session: everything empty, autofocus pending.
    pub open spec fn init() -> State {
        State {
            autofocus: true,
            history: Seq::empty(),
            cursor: None,
            input: Seq::empty(),
            pending: Seq::empty(),
            response: Seq::empty(),
            previous: Seq::empty(),
            invalid: false,
        }
    }

    /// One step toward older entries. Entering browsing snapshots the buffer
    /// as the pending edit; at the oldest entry nothing changes.
    pub open spec fn nav_up(self) -> State {
        match self.cursor {
            Some(i) => if i > 0 {
                State {
                    cursor: Some((i - 1) as usize),
                    input: self.history[i as int - 1],
                    ..self
                }
            } else {
                self
            },
            None => if self.history.len() == 0 {
                self
            } else {
                State {
                    pending: self.input,
                    cursor: Some((self.history.len() - 1) as usize),
                    input: self.history.last(),
                    ..self
                }
            },
        }
    }

    /// One step toward newer entries. Past the newest entry browsing ends and
    /// the pending edit returns to the buffer; when not browsing nothing
    /// changes.
    pub open spec fn nav_down(self) -> State {
        match self.cursor {
            Some(i) => if i + 1 < self.history.len() {
                State {
                    cursor: Some((i + 1) as usize),
                    input: self.history[i as int + 1],
                    ..self
                }
            } else {
                State { cursor: None, input: self.pending, ..self }
            },
            None => self,
        }
    }

    /// The displayed output after evaluating the buffer: a valid result
    /// replaces it and clears the invalidity flag; on failure the flag is
    /// set and the output is the fallback message in commit mode, or is kept
    /// in live-preview mode.
    pub open spec fn responded(self, show_invalid: bool) -> State {
        match spec_response(self.input) {
            Some(t) => State { invalid: false, response: t, ..self },
            None => State {
                invalid: true,
                response: if show_invalid {
                    invalid_message()
                } else {
                    self.response
                },
                ..self
            },
        }
    }

    /// The state after committing the buffer: browsing ends, the trimmed
    /// text joins the history, the buffer is evaluated in commit mode, and
    /// then cleared.
    pub open spec fn committed(self) -> State {
        let recorded = State {
            cursor: None,
            history: self.history.push(trimmed(self.input)),
            ..self
        };
        let evaluated = recorded.responded(true);
        State { input: Seq::empty(), ..evaluated }
    }
}

/// The fallback output shown when a committed expression fails to evaluate.
pub open spec fn invalid_message() -> Seq<char> {
    "Invalid input"@
}

/// The calculator. All session state lives in one owned value; the host
/// hands it the events of each tick and renders from its accessors.
pub struct MyApp {
    autofocus: bool,
    history: Vec<String>,
    current_history_selection: Option<usize>,
    input_equation: String,
    non_history_element: String,
    response: String,
    previous_input: String,
    is_input_invalid: bool,
}

impl View for MyApp {
    type V = State;

    closed spec fn view(&self) -> State {
        State {
            autofocus: self.autofocus,
            history: self.history.deep_view(),
            cursor: self.current_history_selection,
            input: self.input_equation@,
            pending: self.non_history_element@,
            response: self.response@,
            previous: self.previous_input@,
            invalid: self.is_input_invalid,
        }
    }
}

impl MyApp {
    /// The state invariant, seen through the abstraction.
    pub open spec fn wf(&self) -> bool {
        self@.wf()
    }

    /// A fresh session.
    pub fn new() -> (r: MyApp)
        ensures
            r@ == State::init(),
            r.wf(),
    {
        let r = MyApp {
            autofocus: true,
            history: Vec::new(),
            current_history_selection: None,
            input_equation: String::new(),
            non_history_element: String::new(),
            response: String::new(),
            previous_input: String::new(),
            is_input_invalid: false,
        };
        proof {
            assert(r@ =~= State::init());
        }
        r
    }

    /// Recall the previous (older) history entry into the buffer, saving the
    /// in-progress edit when browsing begins.
    pub fn navigate_up(&mut self)
        requires
            old(self).wf(),
        ensures
            final(self)@ == old(self)@.nav_up(),
            final(self).wf(),
    {
        match self.current_history_selection {
            Some(index) => {
                if index > 0 {
                    self.input_equation = self.history[index - 1].clone();
                    self.current_history_selection = Some(index - 1);
                }
            },
            None => {
                if self.history.len() > 0 {
                    self.non_history_element = self.input_equation.clone();
                    self.current_history_selection = Some(self.history.len() - 1);
                    self.input_equation = self.history[self.history.len() - 1].clone();
                }
            },
        }
        proof {
            assert(self@ =~= old(self)@.nav_up());
        }
    }

    /// Recall the next (newer) history entry into the buffer, or end browsing
    /// and restore the pending edit once past the newest entry.
    pub fn navigate_down(&mut self)
        requires
            old(self).wf(),
        ensures
            final(self)@ == old(self)@.nav_down(),
            final(self).wf(),
    {
        match self.current_history_selection {
            Some(index) => {
                let n = self.history.len();
                proof {
                    assert(index < self@.history.len());
                }
                if index + 1 < n {
                    self.input_equation = self.history[index + 1].clone();
                    self.current_history_selection = Some(index + 1);
                } else {
                    self.current_history_selection = None;
                    self.input_equation = self.non_history_element.clone();
                }
            },
            None => {},
        }
        proof {
            assert(self@ =~= old(self)@.nav_down());
        }
    }

    /// Evaluate `input` through the outside evaluator and clean its
    /// fixed-precision rendering into the display string; `None` classifies
    /// the input as invalid. Empty or whitespace-only text is never passed
    /// to evaluation; the controller filters it upstream.
    pub fn calculate_response(input: &str) -> (r: Option<String>)
        requires
            trimmed(input@).len() > 0,
        ensures
            r.deep_view() == spec_response(input@),
    {
        match eval_to_fixed(input, OUTPUT_PRECISION) {
            Some(fixed) => Some(clean_display(fixed.as_str())),
            None => None,
        }
    }

    /// Evaluate the buffer and refresh the displayed output: a valid result
    /// replaces it; on failure only the validity flag drops, unless
    /// `show_invalid` asks for the fallback message. The buffer must not be
    /// empty or whitespace-only; the tick and submit handlers filter such
    /// text before evaluation.
    pub fn update_response(&mut self, show_invalid: bool)
        requires
            trimmed(old(self)@.input).len() > 0,
        ensures
            final(self)@ == old(self)@.responded(show_invalid),
    {
        let response = Self::calculate_response(self.input_equation.as_str());
        self.is_input_invalid = response.is_none();
        match response {
            Some(text) => {
                self.response = text;
            },
            None => {
                if show_invalid {
                    self.response = "Invalid input".to_owned();
                }
            },
        }
        proof {
            assert(self@ =~= old(self)@.responded(show_invalid));
        }
    }
}

/// What handling a submit event led to.
pub enum SubmitOutcome {
    /// The buffer was empty or whitespace-only; nothing happened.
    Ignored,
    /// The buffer spelled the exit command; the host should end the session.
    Exit,
    /// The carried (trimmed) expression was committed to history.
    Committed(String),
}

impl MyApp {
    /// Handle a submit: an empty buffer is ignored, the exit command asks
    /// the host to end the session, and anything else is evaluated in commit
    /// mode, recorded in history, and cleared from the buffer.
    pub fn submit(&mut self) -> (out: SubmitOutcome)
        requires
            old(self).wf(),
        ensures
            final(self).wf(),
            ({
                let t = trimmed(old(self)@.input);
                if t.len() == 0 {
                    out is Ignored && final(self)@ == old(self)@
                } else if is_exit_seq(t) {
                    out is Exit && final(self)@ == old(self)@
                } else {
                    (out matches SubmitOutcome::Committed(a) && a@ == t) && final(self)@ == old(
                        self,
                    )@.committed()
                }
            }),
    {
        let t = trim_spaces(self.input_equation.as_str());
        if t.as_str().is_empty() {
            return SubmitOutcome::Ignored;
        }
        if is_exit_trimmed(t.as_str()) {
            return SubmitOutcome::Exit;
        }
        proof {
            lemma_trimmed_idempotent(old(self)@.input);
        }
        self.current_history_selection = None;
        self.history.push(t.clone());
        proof {
            assert(self@ =~= (State {
                cursor: None,
                history: old(self)@.history.push(trimmed(old(self)@.input)),
                ..old(self)@
            }));
        }
        self.update_response(true);
        self.input_equation = String::new();
        proof {
            assert(self@ =~= old(self)@.committed());
        }
        SubmitOutcome::Committed(t)
    }
}

/// The events one tick can carry: at most one key is honored, in the order
/// given here, and a lost focus counts as a submit.
#[derive(Clone, Copy)]
pub struct FrameEvents {
    pub up: bool,
    pub down: bool,
    pub escape: bool,
    pub submitted: bool,
}

/// What one tick asks of the host: whether to end the session, and the
/// committed expression to report, if any.
pub struct FrameOutput {
    pub terminate: bool,
    pub accepted: Option<String>,
}

impl State {
    /// The live preview: evaluate only when the buffer changed since the
    /// previous tick and does not trim to empty.
    pub open spec fn previewed(self) -> State {
        if self.input != self.previous && trimmed(self.input).len() > 0 {
            self.responded(false)
        } else {
            self
        }
    }

    /// The end of a tick: remember the buffer for the next tick's change
    /// detection.
    pub open spec fn finished(self) -> State {
        State { previous: self.input, ..self }
    }
}

/// What the preview and the submit handling make of the state `s` once the
/// keys of the tick are honored: the state at the end of the tick, whether
/// the session ends, and the committed expression, if one was accepted.
pub open spec fn after_keys(s: State, ev: FrameEvents) -> (State, bool, Option<Seq<char>>) {
    let p = s.previewed();
    if ev.submitted {
        let t = trimmed(p.input);
        if t.len() == 0 {
            (p.finished(), false, None::<Seq<char>>)
        } else if is_exit_seq(t) {
            (p, true, None::<Seq<char>>)
        } else {
            (p.committed().finished(), false, Some(t))
        }
    } else {
        (p.finished(), false, None::<Seq<char>>)
    }
}

/// One whole tick over the state `s0`: the edited text replaces the buffer,
/// at most one key acts (escape ends the session at once), then the live
/// preview and the submit handling run.
pub open spec fn frame_step(s0: State, typed: Seq<char>, ev: FrameEvents) -> (
    State,
    bool,
    Option<Seq<char>>,
) {
    let s1 = State { input: typed, ..s0 };
    if ev.up {
        after_keys(s1.nav_up(), ev)
    } else if ev.down {
        after_keys(s1.nav_down(), ev)
    } else if ev.escape {
        (s1, true, None::<Seq<char>>)
    } else {
        after_keys(s1, ev)
    }
}

impl MyApp {
    /// One tick: install the edited text, honor at most one key, run the
    /// live preview, and handle a submit; reports whether to end the session
    /// and any accepted expression for the host's log.
    pub fn process_frame(&mut self, typed: String, ev: FrameEvents) -> (out: FrameOutput)
        requires
            old(self).wf(),
        ensures
            final(self).wf(),
            ({
                let (s, term, accepted) = frame_step(old(self)@, typed@, ev);
                &&& final(self)@ == s
                &&& out.terminate == term
                &&& out.accepted.deep_view() == accepted
            }),
    {
        self.input_equation = typed;
        proof {
            assert(self@ =~= (State { input: typed@, ..old(self)@ }));
        }
        if ev.up {
            self.navigate_up();
        } else if ev.down {
            self.navigate_down();
        } else if ev.escape {
            return FrameOutput { terminate: true, accepted: None };
        }
        let ghost keyed = self@;
        if !(self.previous_input == self.input_equation) {
            let t = trim_spaces(self.input_equation.as_str());
            if !t.as_str().is_empty() {
                self.update_response(false);
            }
        }
        proof {
            assert(self@ =~= keyed.previewed());
        }
        if ev.submitted {
            match self.submit() {
                SubmitOutcome::Ignored => {
                    self.previous_input = self.input_equation.clone();
                    proof {
                        assert(self@ =~= keyed.previewed().finished());
                    }
                    FrameOutput { terminate: false, accepted: None }
                },
                SubmitOutcome::Exit => FrameOutput { terminate: true, accepted: None },
                SubmitOutcome::Committed(text) => {
                    self.previous_input = self.input_equation.clone();
                    proof {
                        assert(self@ =~= keyed.previewed().committed().finished());
                    }
                    FrameOutput { terminate: false, accepted: Some(text) }
                },
            }
        } else {
            self.previous_input = self.input_equation.clone();
            proof {
                assert(self@ =~= keyed.previewed().finished());
            }
            FrameOutput { terminate: false, accepted: None }
        }
    }

    /// Hand out the one-shot autofocus request for the host to honor.
    pub fn take_autofocus(&mut self) -> (b: bool)
        ensures
            b == old(self)@.autofocus,
            final(self)@ == (State { autofocus: false, ..old(self)@ }),
    {
        let b = self.autofocus;
        self.autofocus = false;
        proof {
            assert(self@ =~= (State { autofocus: false, ..old(self)@ }));
        }
        b
    }

    /// The input buffer, for the host to render and edit.
    pub fn input_text(&self) -> (r: &String)
        ensures
            r@ == self@.input,
    {
        &self.input_equation
    }

    /// The displayed output.
    pub fn response_text(&self) -> (r: &String)
        ensures
            r@ == self@.response,
    {
        &self.response
    }

    /// Whether the output should be rendered dimmed: the last evaluated
    /// input was invalid.
    pub fn output_dimmed(&self) -> (b: bool)
        ensures
            b == self@.invalid,
    {
        self.is_input_invalid
    }

    /// How many expressions the history holds.
    pub fn history_len(&self) -> (n: usize)
        ensures
            n == self@.history.len(),
    {
        self.history.len()
    }

    /// The history entry at `index`, oldest first.
    pub fn history_entry(&self, index: usize) -> (r: &String)
        requires
            index < self@.history.len(),
        ensures
            r@ == self@.history[index as int],
    {
        &self.history[index]
    }

    /// The browsing cursor: an index into the history, or `None` when not
    /// browsing.
    pub fn current_selection(&self) -> (r: Option<usize>)
        ensures
            r == self@.cursor,
    {
        self.current_history_selection
    }
}

} // verus!
