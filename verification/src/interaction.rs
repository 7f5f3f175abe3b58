//! The prompt interaction surface and the event-driving loop.
//!
//! A concrete prompt implements [`PromptInteraction`]: `on` maps one key
//! event to a new render state, `render` maps the current state to one
//! full frame. [`drive`] feeds a sequence of already-decoded key events to
//! a prompt until a terminal state is reached. The blocking terminal
//! reads, the raw-mode handling and the frame output live outside the
//! library; they hand decoded events in and write rendered frames out.

use vstd::prelude::*;

verus! {

/// One decoded key event. Decoding raw terminal bytes into events is the
/// terminal collaborator's job, not the engine's.
#[derive(Clone, Copy, Debug, PartialEq, Eq)]
pub enum KeyEvent {
    /// A printable codepoint was typed.
    Character(char),
    /// The key that deletes left of the caret.
    Backspace,
    /// The key that submits the prompt.
    Enter,
    /// The key that cancels the prompt.
    Escape,
    /// Any other key: absorbed silently, never an error.
    Other,
}

/// The render state of a prompt. Produced anew on every event; `Submit`
/// and `Cancel` are terminal, `Error` keeps the prompt interactive.
#[derive(Clone, Debug, PartialEq)]
pub enum State<T> {
    /// The prompt is accepting input.
    Active,
    /// The interaction was cancelled; no value is carried.
    Cancel,
    /// The prompt was submitted with the accepted value.
    Submit(T),
    /// Validation vetoed a submission; the message is shown inline.
    Error(String),
}

/// The mathematical shadow of a [`State`]: payloads are replaced by
/// their views.
pub enum StateModel<V> {
    /// The prompt is accepting input.
    Active,
    /// The interaction was cancelled; no value is carried.
    Cancel,
    /// The prompt was submitted with the accepted value.
    Submit(V),
    /// Validation vetoed a submission.
    Error(Seq<char>),
}

impl<T: View> View for State<T> {
    type V = StateModel<T::V>;

    open spec fn view(&self) -> StateModel<T::V> {
        match self {
            State::Active => StateModel::Active,
            State::Cancel => StateModel::Cancel,
            State::Submit(t) => StateModel::Submit(t@),
            State::Error(m) => StateModel::Error(m@),
        }
    }
}

/// Whether a state ends the interaction.
pub open spec fn is_terminal<V>(s: StateModel<V>) -> bool {
    s is Cancel || s is Submit
}

/// The surface every concrete prompt implements.
///
/// `step` is the specification of `on`: it relates the prompt before an
/// event to the prompt after it and to the produced render state. A
/// concrete prompt's `step` pins both down, so the one ensures clause of
/// `on` is a full functional contract. `frame` is the specification of
/// `render`: the frame is a pure function of the prompt and the render
/// state, so byte-identical inputs give byte-identical frames.
pub trait PromptInteraction<T: View>: Sized {
    /// The prompt's internal well-formedness.
    spec fn inv(&self) -> bool;

    /// The transition relation: absorbing `event` may turn the prompt
    /// into `next`, producing the render state `s`.
    spec fn step(&self, event: KeyEvent, next: Self, s: StateModel<T::V>) -> bool;

    /// The frame rendered for `state`.
    spec fn frame(&self, state: StateModel<T::V>) -> Seq<char>;

    /// Absorbs one key event and produces the new render state.
    fn on(&mut self, event: &KeyEvent) -> (s: State<T>)
        requires
            old(self).inv(),
        ensures
            final(self).inv(),
            old(self).step(*event, *final(self), s@);

    /// Renders one full frame for `state`.
    fn render(&self, state: &State<T>) -> (r: String)
        requires
            self.inv(),
        ensures
            r@ == self.frame((*state)@);
}

/// Whether feeding `events` to `p`, one by one, may end with the prompt
/// `q` and the outcome `r`: a terminal state stops the run and is
/// returned, exhausted events leave `None`. An `Escape` event cancels
/// without consulting the prompt; every other event goes through the
/// prompt's transition relation.
pub open spec fn drive_rel<T: View, P: PromptInteraction<T>>(
    p: P,
    events: Seq<KeyEvent>,
    q: P,
    r: Option<StateModel<T::V>>,
) -> bool
    decreases events.len(),
{
    if events.len() == 0 {
        q == p && r is None
    } else {
        let event = events[0];
        if event is Escape {
            q == p && r == Some(StateModel::<T::V>::Cancel)
        } else {
            exists|next: P, s: StateModel<T::V>|
                {
                    &&& #[trigger] p.step(event, next, s)
                    &&& if is_terminal(s) {
                        q == next && r == Some(s)
                    } else {
                        drive_rel(next, events.subrange(1, events.len() as int), q, r)
                    }
                }
        }
    }
}

/// Whether `s` ends the interaction.
pub fn terminal<T: View>(s: &State<T>) -> (b: bool)
    ensures
        b == is_terminal((*s)@),
{
    match s {
        State::Cancel => true,
        State::Submit(_) => true,
        _ => false,
    }
}

/// The view of a driving outcome.
pub open spec fn outcome_view<T: View>(r: Option<State<T>>) -> Option<StateModel<T::V>> {
    match r {
        Option::None => Option::None,
        Option::Some(s) => Option::Some(s@),
    }
}

/// Feeds `events` to the prompt until a terminal state is reached,
/// returning that state, or `None` when the events run out first.
///
/// This is the decision core of the interaction loop: an unverified front
/// end blocks on the terminal for each key, renders and emits the frames,
/// and otherwise follows exactly this transition discipline.
pub fn drive<T: View, P: PromptInteraction<T>>(prompt: &mut P, events: &Vec<KeyEvent>) -> (r:
    Option<State<T>>)
    requires
        old(prompt).inv(),
    ensures
        final(prompt).inv(),
        drive_rel(*old(prompt), events@, *final(prompt), outcome_view(r)),
{
    let n = events.len();
    let mut i: usize = 0;
    proof {
        assert(events@.subrange(0, n as int) =~= events@);
    }
    while i < n
        invariant
            prompt.inv(),
            i <= n,
            n == events@.len(),
            forall|q: P, rr: Option<StateModel<T::V>>|
                #[trigger] drive_rel(*prompt, events@.subrange(i as int, n as int), q, rr)
                    ==> drive_rel(*old(prompt), events@, q, rr),
        decreases n - i,
    {
        let ghost rest = events@.subrange(i as int, n as int);
        let ghost p_before = *prompt;
        let event = events[i];
        proof {
            assert(rest[0] == events@[i as int]);
            assert(rest.subrange(1, rest.len() as int) =~= events@.subrange(
                i + 1 as int,
                n as int,
            ));
        }
        let s: State<T> = match event {
            KeyEvent::Escape => State::Cancel,
            _ => prompt.on(&event),
        };
        if terminal(&s) {
            proof {
                if !(event is Escape) {
                    assert(p_before.step(event, *prompt, s@));
                }
                assert(drive_rel(p_before, rest, *prompt, Some(s@)));
            }
            return Some(s);
        }
        proof {
            let ghost p_now = *prompt;
            assert forall|q: P, rr: Option<StateModel<T::V>>|
                #[trigger] drive_rel(p_now, events@.subrange(i + 1 as int, n as int), q, rr)
                    implies drive_rel(*old(prompt), events@, q, rr) by {
                if event is Escape {
                    assert(p_now == p_before);
                    assert(drive_rel(p_before, rest, q, rr));
                } else {
                    assert(p_before.step(event, p_now, s@));
                    assert(drive_rel(p_before, rest, q, rr));
                }
            }
        }
        i = i + 1;
    }
    proof {
        assert(events@.subrange(n as int, n as int) =~= Seq::<KeyEvent>::empty());
        assert(drive_rel(
            *prompt,
            events@.subrange(n as int, n as int),
            *prompt,
            Option::<StateModel<T::V>>::None,
        ));
    }
    None
}

/// A cancellation key is terminal: whatever the prompt holds, a run over
/// events that start with `Escape` leaves the prompt untouched and ends
/// the interaction with `Cancel`, which carries no value.
pub proof fn lemma_cancel_is_terminal<T: View, P: PromptInteraction<T>>(
    p: P,
    events: Seq<KeyEvent>,
    q: P,
    r: Option<StateModel<T::V>>,
)
    requires
        events.len() > 0,
        events[0] is Escape,
        drive_rel(p, events, q, r),
    ensures
        q == p,
        r == Some(StateModel::<T::V>::Cancel),
{
}

} // verus!
