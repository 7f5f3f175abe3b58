//! The masked-input prompt: a labelled text buffer whose rendering shows
//! one mask glyph per typed codepoint, with an optional validator that
//! may veto submission.

use vstd::prelude::*;
use crate::cursor::StringCursor;
use crate::cursor::buffer_insert;
use crate::cursor::buffer_delete_left;
use crate::interaction::KeyEvent;
use crate::interaction::State;
use crate::interaction::StateModel;
use crate::interaction::PromptInteraction;
use crate::interaction::drive;
use crate::interaction::drive_rel;
use crate::interaction::outcome_view;
use crate::theme::Theme;
use crate::theme::ThemeState;
use crate::theme::theme_state_of;
use crate::theme::reset_theme;
use crate::theme::is_default_theme;
use crate::validate::Validator;
use crate::validate::NoValidator;

verus! {

/// Whether `c` is an ASCII control character: a codepoint below the
/// space, or delete.
pub open spec fn spec_is_ascii_control(c: char) -> bool {
    (c as u32) < 32 || (c as u32) == 127
}

/// Whether `c` is an ASCII control character.
fn is_ascii_control_char(c: char) -> (b: bool)
    ensures
        b == spec_is_ascii_control(c),
{
    let u = c as u32;
    u < 32 || u == 127
}

/// A password prompt: a label, the typed buffer, the mask shown per
/// codepoint, an optional validator, and the theme its frames use.
pub struct Password<V: Validator> {
    prompt: String,
    input: StringCursor,
    mask: String,
    validate: Option<V>,
    theme: Theme,
}

impl<V: Validator> Password<V> {
    /// The prompt's label.
    pub closed spec fn label(&self) -> Seq<char> {
        self.prompt@
    }

    /// The typed buffer, as codepoints.
    pub closed spec fn buffer(&self) -> Seq<char> {
        self.input.content()
    }

    /// The edit position inside the buffer.
    pub closed spec fn caret(&self) -> int {
        self.input.pos()
    }

    /// The mask shown in place of each typed codepoint.
    pub closed spec fn mask_glyphs(&self) -> Seq<char> {
        self.mask@
    }

    /// The configured validator, if any.
    pub closed spec fn validator(&self) -> Option<V> {
        self.validate
    }

    /// The theme the prompt's frames are composed with.
    pub closed spec fn theme_cfg(&self) -> Theme {
        self.theme
    }

    /// Well-formedness: the edit position stays inside the buffer, and a
    /// fully masked buffer fits in memory.
    pub open spec fn wf(&self) -> bool {
        &&& 0 <= self.caret() <= self.buffer().len()
        &&& self.buffer().len() * self.mask_glyphs().len() <= usize::MAX
    }

    /// Whether one more codepoint still fits under the machine limits.
    pub open spec fn insert_fits(&self) -> bool {
        &&& self.buffer().len() + 1 <= usize::MAX
        &&& (self.buffer().len() + 1) * self.mask_glyphs().len() <= usize::MAX
    }

    /// Whether `other` carries the same label, mask, validator and theme.
    pub open spec fn same_config(&self, other: &Password<V>) -> bool {
        &&& other.label() == self.label()
        &&& other.mask_glyphs() == self.mask_glyphs()
        &&& other.validator() == self.validator()
        &&& other.theme_cfg() == self.theme_cfg()
    }

    /// Whether `other` is observably the same prompt.
    pub open spec fn same_state(&self, other: &Password<V>) -> bool {
        &&& self.same_config(other)
        &&& other.buffer() == self.buffer()
        &&& other.caret() == self.caret()
    }

    /// The render state a submission attempt produces: `Submit` with the
    /// buffer's text when no validator is configured or the validator
    /// accepts it, and `Error` with the validator's message otherwise.
    pub open spec fn submit_outcome(&self) -> StateModel<Seq<char>> {
        match self.validator() {
            Option::None => StateModel::Submit(self.buffer()),
            Option::Some(v) => if v.accepts(self.buffer()) {
                StateModel::Submit(self.buffer())
            } else {
                StateModel::Error(v.error_message(self.buffer()))
            },
        }
    }

    /// Runs the interaction over a sequence of already-decoded key
    /// events, stopping at the first terminal state. The blocking
    /// terminal loop lives outside the library; it decodes one key at a
    /// time and follows this same transition discipline.
    pub fn interact(&mut self, events: &Vec<KeyEvent>) -> (r: Option<State<String>>)
        requires
            old(self).wf(),
        ensures
            final(self).wf(),
            drive_rel(*old(self), events@, *final(self), outcome_view(r)),
    {
        drive(self, events)
    }
}

impl Password<NoValidator> {
    /// A password prompt with the given label: empty buffer, the default
    /// theme and its mask glyph, and no validator.
    pub fn new(prompt: &str) -> (p: Self)
        ensures
            p.wf(),
            p.label() == prompt@,
            p.buffer() == Seq::<char>::empty(),
            p.caret() == 0,
            is_default_theme(&p.theme_cfg()),
            p.mask_glyphs() == p.theme_cfg().mask_glyph@,
            p.validator() is None,
    {
        let theme = reset_theme();
        let mask = theme.password_mask().clone();
        let p = Password {
            prompt: prompt.to_owned(),
            input: StringCursor::new(),
            mask,
            validate: None,
            theme,
        };
        proof {
            vstd::arithmetic::mul::lemma_mul_basics(p.mask_glyphs().len() as int);
        }
        p
    }
}

impl<V: Validator> Password<V> {
    /// Replaces the mask shown for each typed codepoint.
    pub fn mask(self, mask: &str) -> (p: Self)
        requires
            self.wf(),
            self.buffer().len() * mask@.len() <= usize::MAX,
        ensures
            p.wf(),
            p.label() == self.label(),
            p.buffer() == self.buffer(),
            p.caret() == self.caret(),
            p.mask_glyphs() == mask@,
            p.validator() == self.validator(),
            p.theme_cfg() == self.theme_cfg(),
    {
        Password { mask: mask.to_owned(), ..self }
    }

    /// Attaches a validator, consulted once per submission attempt.
    pub fn validate<W: Validator>(self, validator: W) -> (p: Password<W>)
        requires
            self.wf(),
        ensures
            p.wf(),
            p.label() == self.label(),
            p.buffer() == self.buffer(),
            p.caret() == self.caret(),
            p.mask_glyphs() == self.mask_glyphs(),
            p.validator() == Some(validator),
            p.theme_cfg() == self.theme_cfg(),
    {
        Password {
            prompt: self.prompt,
            input: self.input,
            mask: self.mask,
            validate: Some(validator),
            theme: self.theme,
        }
    }

    /// Replaces the theme the prompt's frames are composed with.
    pub fn with_theme(self, theme: Theme) -> (p: Self)
        requires
            self.wf(),
        ensures
            p.wf(),
            p.label() == self.label(),
            p.buffer() == self.buffer(),
            p.caret() == self.caret(),
            p.mask_glyphs() == self.mask_glyphs(),
            p.validator() == self.validator(),
            p.theme_cfg() == theme,
    {
        Password {
            prompt: self.prompt,
            input: self.input,
            mask: self.mask,
            validate: self.validate,
            theme,
        }
    }
}

impl<V: Validator> PromptInteraction<String> for Password<V> {
    open spec fn inv(&self) -> bool {
        self.wf()
    }

    /// The transition relation of the prompt.
    ///
    /// A printable codepoint is inserted at the caret (and silently
    /// dropped only at the machine limits); backspace deletes left of the
    /// caret; both leave the prompt active. `Enter` attempts submission
    /// and leaves the buffer untouched, so a rejected text stays in place
    /// for correction. Every other key is silently absorbed.
    open spec fn step(&self, event: KeyEvent, next: Self, s: StateModel<Seq<char>>) -> bool {
        match event {
            KeyEvent::Character(c) => {
                &&& s == StateModel::<Seq<char>>::Active
                &&& if !spec_is_ascii_control(c) && self.insert_fits() {
                    &&& self.same_config(&next)
                    &&& (next.buffer(), next.caret()) == buffer_insert(
                        self.buffer(),
                        self.caret(),
                        c,
                    )
                } else {
                    self.same_state(&next)
                }
            },
            KeyEvent::Backspace => {
                &&& s == StateModel::<Seq<char>>::Active
                &&& self.same_config(&next)
                &&& (next.buffer(), next.caret()) == buffer_delete_left(
                    self.buffer(),
                    self.caret(),
                )
            },
            KeyEvent::Enter => self.same_state(&next) && s == self.submit_outcome(),
            _ => self.same_state(&next) && s == StateModel::<Seq<char>>::Active,
        }
    }

    /// The frame of the prompt: the header with its label, the masked
    /// input line with the caret in place, and the footer carrying the
    /// cancellation notice or the validation message.
    open spec fn frame(&self, state: StateModel<Seq<char>>) -> Seq<char> {
        let ts = theme_state_of(state);
        self.theme_cfg().spec_format_header(ts, self.label()) + self.theme_cfg()
            .spec_format_password(ts, self.buffer(), self.caret(), self.mask_glyphs())
            + self.theme_cfg().spec_format_footer(ts)
    }

    fn on(&mut self, event: &KeyEvent) -> (s: State<String>) {
        match event {
            KeyEvent::Character(c) => {
                if !is_ascii_control_char(*c) {
                    let len = self.input.len();
                    let mask_len = self.mask.as_str().unicode_len();
                    if len < usize::MAX {
                        match (len + 1).checked_mul(mask_len) {
                            Option::Some(_) => {
                                proof {
                                    vstd::arithmetic::mul::lemma_mul_inequality(
                                        old(self).buffer().len() as int,
                                        old(self).buffer().len() + 1 as int,
                                        old(self).mask_glyphs().len() as int,
                                    );
                                }
                                self.input.insert(*c);
                            },
                            Option::None => {},
                        }
                    }
                }
                State::Active
            },
            KeyEvent::Backspace => {
                proof {
                    vstd::arithmetic::mul::lemma_mul_inequality(
                        old(self).buffer().len() - 1,
                        old(self).buffer().len() as int,
                        old(self).mask_glyphs().len() as int,
                    );
                }
                self.input.delete_left();
                State::Active
            },
            KeyEvent::Enter => {
                let text = self.input.to_text();
                match &self.validate {
                    Option::Some(v) => match v.check(text.as_str()) {
                        Result::Err(err) => State::Error(err),
                        Result::Ok(_) => State::Submit(text),
                    },
                    Option::None => State::Submit(text),
                }
            },
            _ => State::Active,
        }
    }

    fn render(&self, state: &State<String>) -> (r: String) {
        let ts = ThemeState::from_state(state);
        let mut r = self.theme.format_header(&ts, self.prompt.as_str());
        r.append(self.theme.format_password(&ts, &self.input, self.mask.as_str()).as_str());
        r.append(self.theme.format_footer(&ts).as_str());
        proof {
            assert(r@ =~= self.frame((*state)@));
        }
        r
    }
}

/// Rendering is pure: two prompts that agree on label, buffer, caret,
/// mask and theme render byte-identical frames for equal render states,
/// whatever their validators.
pub proof fn lemma_render_pure<V: Validator, W: Validator>(
    p: Password<V>,
    q: Password<W>,
    s: StateModel<Seq<char>>,
)
    requires
        p.label() == q.label(),
        p.buffer() == q.buffer(),
        p.caret() == q.caret(),
        p.mask_glyphs() == q.mask_glyphs(),
        p.theme_cfg() == q.theme_cfg(),
    ensures
        p.frame(s) == q.frame(s),
{
}

/// With no validator configured, a submission attempt always yields
/// `Submit` carrying exactly the buffer's text at that moment.
pub proof fn lemma_submit_unvalidated<V: Validator>(p: Password<V>)
    requires
        p.validator() is None,
    ensures
        p.submit_outcome() == StateModel::<Seq<char>>::Submit(p.buffer()),
{
}

} // verus!
