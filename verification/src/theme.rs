//! The visual theme: a catalogue of pure formatting functions that
//! compose every frame the engine emits.
//!
//! Styling is carried as data: a [`Styling`] is the pair of strings
//! written before and after a fragment (for a terminal, the escape codes
//! that open and close a colour or attribute). A [`Theme`] owns one
//! styling per colour role and one glyph per visual element, and every
//! formatting function is a pure function of the theme and its arguments,
//! so identical inputs always yield byte-identical frames. The default
//! theme carries empty stylings — plain text — and the glyphs of the
//! familiar prompt look; a front end that talks to a real terminal can
//! build a theme whose stylings hold actual escape codes.

use vstd::prelude::*;
use vstd::string::StringExecFns;
use crate::cursor::StringCursor;
use crate::interaction::State;
use crate::interaction::StateModel;
use crate::text::repeated;
use crate::text::repeat_str;
use crate::text::split_newlines;
use crate::text::split_lines;
use crate::text::lines_of;
use crate::text::lines_vec;
use crate::text::max_seg_len;
use crate::text::max_line_len;
use crate::text::lemma_seg_le_max;
use crate::text::lemma_max_seg_le_len;
use crate::text::lemma_split_newlines_len;

verus! {

/// The state of prompt rendering: a [`State`] with the submitted value
/// discarded but the validation message retained.
#[derive(Clone, Debug, PartialEq)]
pub enum ThemeState {
    /// The prompt is active.
    Active,
    /// The interaction was cancelled.
    Cancel,
    /// The prompt was submitted.
    Submit,
    /// A validation error occurred.
    Error(String),
}

/// The mathematical shadow of a [`ThemeState`].
pub enum ThemeStateModel {
    /// The prompt is active.
    Active,
    /// The interaction was cancelled.
    Cancel,
    /// The prompt was submitted.
    Submit,
    /// A validation error occurred.
    Error(Seq<char>),
}

impl View for ThemeState {
    type V = ThemeStateModel;

    open spec fn view(&self) -> ThemeStateModel {
        match self {
            ThemeState::Active => ThemeStateModel::Active,
            ThemeState::Cancel => ThemeStateModel::Cancel,
            ThemeState::Submit => ThemeStateModel::Submit,
            ThemeState::Error(m) => ThemeStateModel::Error(m@),
        }
    }
}

/// The rendering state derived from an interaction state: the submitted
/// value is discarded, the validation message kept.
pub open spec fn theme_state_of<V>(s: StateModel<V>) -> ThemeStateModel {
    match s {
        StateModel::Active => ThemeStateModel::Active,
        StateModel::Cancel => ThemeStateModel::Cancel,
        StateModel::Submit(_) => ThemeStateModel::Submit,
        StateModel::Error(m) => ThemeStateModel::Error(m),
    }
}

impl ThemeState {
    /// The rendering state of an interaction state.
    pub fn from_state<T: View>(state: &State<T>) -> (t: ThemeState)
        ensures
            t@ == theme_state_of((*state)@),
    {
        match state {
            State::Active => ThemeState::Active,
            State::Cancel => ThemeState::Cancel,
            State::Submit(_) => ThemeState::Submit,
            State::Error(m) => ThemeState::Error(m.clone()),
        }
    }
}

/// One styling: the text written before a fragment and the text written
/// after it. Empty on both sides, it leaves the fragment untouched.
#[derive(Clone, Debug, PartialEq)]
pub struct Styling {
    /// Written immediately before the styled fragment.
    pub prefix: String,
    /// Written immediately after the styled fragment.
    pub suffix: String,
}

impl Styling {
    /// The result of styling `text`.
    pub open spec fn spec_apply(&self, text: Seq<char>) -> Seq<char> {
        self.prefix@ + text + self.suffix@
    }

    /// Whether this styling leaves fragments untouched.
    pub open spec fn is_plain(&self) -> bool {
        self.prefix@ == Seq::<char>::empty() && self.suffix@ == Seq::<char>::empty()
    }

    /// A styling from its two sides.
    pub fn new(prefix: &str, suffix: &str) -> (r: Styling)
        ensures
            r.prefix@ == prefix@,
            r.suffix@ == suffix@,
    {
        Styling { prefix: prefix.to_owned(), suffix: suffix.to_owned() }
    }

    /// The styling that leaves fragments untouched.
    pub fn plain() -> (r: Styling)
        ensures
            r.is_plain(),
    {
        Styling { prefix: String::new(), suffix: String::new() }
    }

    /// Styles `text`.
    pub fn apply(&self, text: &str) -> (r: String)
        ensures
            r@ == self.spec_apply(text@),
    {
        let mut r = self.prefix.clone();
        r.append(text);
        r.append(self.suffix.as_str());
        proof {
            assert(r@ =~= self.spec_apply(text@));
        }
        r
    }
}

/// The catalogue of glyphs and stylings that every frame is composed
/// from. All fields are plain data: a custom theme is simply another
/// value of this type.
#[derive(Clone, Debug)]
pub struct Theme {
    /// The glyph opening the intro line.
    pub bar_start: String,
    /// The vertical side bar.
    pub bar: String,
    /// The glyph closing a prompt or outro line.
    pub bar_end: String,
    /// The step symbol of an active prompt.
    pub step_active: String,
    /// The step symbol of a cancelled prompt.
    pub step_cancel: String,
    /// The step symbol of a prompt in validation error.
    pub step_error: String,
    /// The step symbol of a submitted prompt.
    pub step_submit: String,
    /// The symbol of the selected radio item.
    pub radio_active: String,
    /// The symbol of an unselected radio item.
    pub radio_inactive: String,
    /// The symbol of the highlighted, unchecked checkbox.
    pub checkbox_active: String,
    /// The symbol of a checked checkbox.
    pub checkbox_selected: String,
    /// The symbol of an unhighlighted, unchecked checkbox.
    pub checkbox_inactive: String,
    /// The glyph shown in place of each password codepoint.
    pub mask_glyph: String,
    /// The horizontal bar of note framing.
    pub bar_h: String,
    /// The top-right corner of note framing.
    pub corner_top_right: String,
    /// The left connector of note framing.
    pub connect_left: String,
    /// The bottom-right corner of note framing.
    pub corner_bottom_right: String,
    /// The symbol of an informational message.
    pub info_sign: String,
    /// The symbol of a warning message.
    pub warn_sign: String,
    /// The symbol of an error message.
    pub error_sign: String,
    /// The spinner's animation glyphs.
    pub spinner_glyphs: String,
    /// The styling of active-state framing.
    pub cyan: Styling,
    /// The styling of cancelled-state framing.
    pub red: Styling,
    /// The styling of error-state framing.
    pub yellow: Styling,
    /// The styling of success symbols.
    pub green: Styling,
    /// The styling of settled (submitted) framing.
    pub grey: Styling,
    /// The styling of informational symbols.
    pub blue: Styling,
    /// The styling of de-emphasised text.
    pub dim: Styling,
    /// The styling of struck-through, de-emphasised text.
    pub strike: Styling,
    /// The styling of hidden text.
    pub hidden: Styling,
    /// The styling that marks the caret.
    pub reverse: Styling,
    /// The styling that leaves text untouched.
    pub plain: Styling,
}

/// Whether a theme is the default one: the familiar glyphs, and plain
/// (empty) stylings throughout.
pub open spec fn is_default_theme(t: &Theme) -> bool {
    &&& t.bar_start@ == "\u{250c}"@
    &&& t.bar@ == "\u{2502}"@
    &&& t.bar_end@ == "\u{2514}"@
    &&& t.step_active@ == "\u{25c6}"@
    &&& t.step_cancel@ == "\u{25a0}"@
    &&& t.step_error@ == "\u{25b2}"@
    &&& t.step_submit@ == "\u{25c7}"@
    &&& t.radio_active@ == "\u{25cf}"@
    &&& t.radio_inactive@ == "\u{25cb}"@
    &&& t.checkbox_active@ == "\u{25fb}"@
    &&& t.checkbox_selected@ == "\u{25fc}"@
    &&& t.checkbox_inactive@ == "\u{25fb}"@
    &&& t.mask_glyph@ == "\u{25aa}"@
    &&& t.bar_h@ == "\u{2500}"@
    &&& t.corner_top_right@ == "\u{256e}"@
    &&& t.connect_left@ == "\u{251c}"@
    &&& t.corner_bottom_right@ == "\u{256f}"@
    &&& t.info_sign@ == "\u{25cf}"@
    &&& t.warn_sign@ == "\u{25b2}"@
    &&& t.error_sign@ == "\u{25a0}"@
    &&& t.spinner_glyphs@ == "\u{25d2}\u{25d0}\u{25d3}\u{25d1}"@
    &&& t.cyan.is_plain()
    &&& t.red.is_plain()
    &&& t.yellow.is_plain()
    &&& t.green.is_plain()
    &&& t.grey.is_plain()
    &&& t.blue.is_plain()
    &&& t.dim.is_plain()
    &&& t.strike.is_plain()
    &&& t.hidden.is_plain()
    &&& t.reverse.is_plain()
    &&& t.plain.is_plain()
}

/// The default theme, the one a fresh prompt starts with; handing a
/// prompt this value returns its rendering to the stock look.
pub fn reset_theme() -> (t: Theme)
    ensures
        is_default_theme(&t),
{
    Theme {
        bar_start: String::from_str("\u{250c}"),
        bar: String::from_str("\u{2502}"),
        bar_end: String::from_str("\u{2514}"),
        step_active: String::from_str("\u{25c6}"),
        step_cancel: String::from_str("\u{25a0}"),
        step_error: String::from_str("\u{25b2}"),
        step_submit: String::from_str("\u{25c7}"),
        radio_active: String::from_str("\u{25cf}"),
        radio_inactive: String::from_str("\u{25cb}"),
        checkbox_active: String::from_str("\u{25fb}"),
        checkbox_selected: String::from_str("\u{25fc}"),
        checkbox_inactive: String::from_str("\u{25fb}"),
        mask_glyph: String::from_str("\u{25aa}"),
        bar_h: String::from_str("\u{2500}"),
        corner_top_right: String::from_str("\u{256e}"),
        connect_left: String::from_str("\u{251c}"),
        corner_bottom_right: String::from_str("\u{256f}"),
        info_sign: String::from_str("\u{25cf}"),
        warn_sign: String::from_str("\u{25b2}"),
        error_sign: String::from_str("\u{25a0}"),
        spinner_glyphs: String::from_str("\u{25d2}\u{25d0}\u{25d3}\u{25d1}"),
        cyan: Styling::plain(),
        red: Styling::plain(),
        yellow: Styling::plain(),
        green: Styling::plain(),
        grey: Styling::plain(),
        blue: Styling::plain(),
        dim: Styling::plain(),
        strike: Styling::plain(),
        hidden: Styling::plain(),
        reverse: Styling::plain(),
        plain: Styling::plain(),
    }
}

impl Theme {
    /// The styling of the vertical side bar for a rendering state.
    pub open spec fn spec_bar_color(&self, s: ThemeStateModel) -> Styling {
        match s {
            ThemeStateModel::Active => self.cyan,
            ThemeStateModel::Cancel => self.red,
            ThemeStateModel::Submit => self.grey,
            ThemeStateModel::Error(_) => self.yellow,
        }
    }

    /// The styling of the vertical side bar for `state`.
    pub fn bar_color(&self, state: &ThemeState) -> (r: &Styling)
        ensures
            *r == self.spec_bar_color((*state)@),
    {
        match state {
            ThemeState::Active => &self.cyan,
            ThemeState::Cancel => &self.red,
            ThemeState::Submit => &self.grey,
            ThemeState::Error(_) => &self.yellow,
        }
    }

    /// The styling of the step symbol for a rendering state.
    pub open spec fn spec_state_symbol_color(&self, s: ThemeStateModel) -> Styling {
        match s {
            ThemeStateModel::Submit => self.green,
            _ => self.spec_bar_color(s),
        }
    }

    /// The styling of the step symbol for `state`.
    pub fn state_symbol_color(&self, state: &ThemeState) -> (r: &Styling)
        ensures
            *r == self.spec_state_symbol_color((*state)@),
    {
        match state {
            ThemeState::Submit => &self.green,
            _ => self.bar_color(state),
        }
    }

    /// The styled step symbol for a rendering state.
    pub open spec fn spec_state_symbol(&self, s: ThemeStateModel) -> Seq<char> {
        let color = self.spec_state_symbol_color(s);
        match s {
            ThemeStateModel::Active => color.spec_apply(self.step_active@),
            ThemeStateModel::Cancel => color.spec_apply(self.step_cancel@),
            ThemeStateModel::Submit => color.spec_apply(self.step_submit@),
            ThemeStateModel::Error(_) => color.spec_apply(self.step_error@),
        }
    }

    /// The styled step symbol for `state`.
    pub fn state_symbol(&self, state: &ThemeState) -> (r: String)
        ensures
            r@ == self.spec_state_symbol((*state)@),
    {
        let color = self.state_symbol_color(state);
        let glyph = match state {
            ThemeState::Active => self.step_active.as_str(),
            ThemeState::Cancel => self.step_cancel.as_str(),
            ThemeState::Submit => self.step_submit.as_str(),
            ThemeState::Error(_) => self.step_error.as_str(),
        };
        color.apply(glyph)
    }

    /// The styling of the input text for a rendering state.
    pub open spec fn spec_input_style(&self, s: ThemeStateModel) -> Styling {
        match s {
            ThemeStateModel::Cancel => self.strike,
            ThemeStateModel::Submit => self.dim,
            _ => self.plain,
        }
    }

    /// The styling of the input text for `state`.
    pub fn input_style(&self, state: &ThemeState) -> (r: &Styling)
        ensures
            *r == self.spec_input_style((*state)@),
    {
        match state {
            ThemeState::Cancel => &self.strike,
            ThemeState::Submit => &self.dim,
            _ => &self.plain,
        }
    }

    /// The styling of placeholder text for a rendering state.
    pub open spec fn spec_placeholder_style(&self, s: ThemeStateModel) -> Styling {
        match s {
            ThemeStateModel::Cancel => self.hidden,
            _ => self.dim,
        }
    }

    /// The styling of placeholder text for `state`.
    pub fn placeholder_style(&self, state: &ThemeState) -> (r: &Styling)
        ensures
            *r == self.spec_placeholder_style((*state)@),
    {
        match state {
            ThemeState::Cancel => &self.hidden,
            _ => &self.dim,
        }
    }

    /// The mask glyph shown in place of each password codepoint.
    pub fn password_mask(&self) -> (m: &String)
        ensures
            m@ == self.mask_glyph@,
    {
        &self.mask_glyph
    }

    /// The spinner's animation glyphs.
    pub fn spinner_chars(&self) -> (r: &String)
        ensures
            r@ == self.spinner_glyphs@,
    {
        &self.spinner_glyphs
    }

    /// A buffer rendered with the caret marked: the text around the edit
    /// position carries `style`, the codepoint at the position the caret
    /// styling.
    pub open spec fn spec_cursor_with_style(
        &self,
        content: Seq<char>,
        pos: int,
        style: Styling,
    ) -> Seq<char> {
        let left = content.subrange(0, pos);
        let caret = if pos < content.len() {
            seq![content[pos]]
        } else {
            Seq::<char>::empty()
        };
        let right = if pos < content.len() {
            content.subrange(pos + 1, content.len() as int)
        } else {
            Seq::<char>::empty()
        };
        style.spec_apply(left) + self.reverse.spec_apply(caret) + style.spec_apply(right)
    }

    /// Renders `cursor` with the caret marked, the rest styled by
    /// `style`.
    pub fn cursor_with_style(&self, cursor: &StringCursor, style: &Styling) -> (r: String)
        requires
            cursor.wf(),
        ensures
            r@ == self.spec_cursor_with_style(cursor.content(), cursor.pos(), *style),
    {
        let (left, caret, right) = cursor.split();
        let mut r = style.apply(left.as_str());
        r.append(self.reverse.apply(caret.as_str()).as_str());
        r.append(style.apply(right.as_str()).as_str());
        proof {
            assert(r@ =~= self.spec_cursor_with_style(cursor.content(), cursor.pos(), *style));
        }
        r
    }

    /// The intro frame: the opening corner, the title, and one bar line.
    pub open spec fn spec_format_intro(&self, title: Seq<char>) -> Seq<char> {
        self.spec_bar_color(ThemeStateModel::Submit).spec_apply(self.bar_start@) + "  "@ + title
            + "\n"@ + self.spec_bar_color(ThemeStateModel::Submit).spec_apply(self.bar@) + "\n"@
    }

    /// Formats the intro frame for `title`.
    pub fn format_intro(&self, title: &str) -> (r: String)
        ensures
            r@ == self.spec_format_intro(title@),
    {
        let submit = ThemeState::Submit;
        let color = self.bar_color(&submit);
        let mut r = color.apply(self.bar_start.as_str());
        r.append("  ");
        r.append(title);
        r.append("\n");
        r.append(color.apply(self.bar.as_str()).as_str());
        r.append("\n");
        proof {
            assert(r@ =~= self.spec_format_intro(title@));
        }
        r
    }

    /// The outro frame: the closing corner and the message.
    pub open spec fn spec_format_outro(&self, message: Seq<char>) -> Seq<char> {
        self.spec_bar_color(ThemeStateModel::Submit).spec_apply(self.bar_end@) + "  "@ + message
            + "\n"@
    }

    /// Formats the outro frame for `message`.
    pub fn format_outro(&self, message: &str) -> (r: String)
        ensures
            r@ == self.spec_format_outro(message@),
    {
        let submit = ThemeState::Submit;
        let mut r = self.bar_color(&submit).apply(self.bar_end.as_str());
        r.append("  ");
        r.append(message);
        r.append("\n");
        proof {
            assert(r@ =~= self.spec_format_outro(message@));
        }
        r
    }

    /// The failure outro frame: the closing corner and the message in the
    /// cancelled-state styling.
    pub open spec fn spec_format_outro_cancel(&self, message: Seq<char>) -> Seq<char> {
        self.spec_bar_color(ThemeStateModel::Submit).spec_apply(self.bar_end@) + "  "@
            + self.red.spec_apply(message) + "\n"@
    }

    /// Formats the failure outro frame for `message`.
    pub fn format_outro_cancel(&self, message: &str) -> (r: String)
        ensures
            r@ == self.spec_format_outro_cancel(message@),
    {
        let submit = ThemeState::Submit;
        let mut r = self.bar_color(&submit).apply(self.bar_end.as_str());
        r.append("  ");
        r.append(self.red.apply(message).as_str());
        r.append("\n");
        proof {
            assert(r@ =~= self.spec_format_outro_cancel(message@));
        }
        r
    }

    /// The header line of a prompt: the step symbol and the prompt label.
    pub open spec fn spec_format_header(&self, s: ThemeStateModel, prompt: Seq<char>) -> Seq<
        char,
    > {
        self.spec_state_symbol(s) + "  "@ + prompt + "\n"@
    }

    /// Formats the header line of a prompt.
    pub fn format_header(&self, state: &ThemeState, prompt: &str) -> (r: String)
        ensures
            r@ == self.spec_format_header((*state)@, prompt@),
    {
        let mut r = self.state_symbol(state);
        r.append("  ");
        r.append(prompt);
        r.append("\n");
        proof {
            assert(r@ =~= self.spec_format_header((*state)@, prompt@));
        }
        r
    }

    /// The unstyled content of the footer line for a rendering state.
    pub open spec fn spec_footer_content(&self, s: ThemeStateModel) -> Seq<char> {
        match s {
            ThemeStateModel::Active => self.bar_end@,
            ThemeStateModel::Cancel => self.bar_end@ + "  Operation cancelled."@,
            ThemeStateModel::Submit => self.bar@,
            ThemeStateModel::Error(err) => self.bar_end@ + "  "@ + err,
        }
    }

    /// The footer line: the closing bar, with the cancellation notice or
    /// the validation message when there is one.
    pub open spec fn spec_format_footer(&self, s: ThemeStateModel) -> Seq<char> {
        self.spec_bar_color(s).spec_apply(self.spec_footer_content(s)) + "\n"@
    }

    /// Formats the footer line of a prompt.
    pub fn format_footer(&self, state: &ThemeState) -> (r: String)
        ensures
            r@ == self.spec_format_footer((*state)@),
    {
        let content = match state {
            ThemeState::Active => self.bar_end.clone(),
            ThemeState::Cancel => {
                let mut c = self.bar_end.clone();
                c.append("  Operation cancelled.");
                c
            },
            ThemeState::Submit => self.bar.clone(),
            ThemeState::Error(err) => {
                let mut c = self.bar_end.clone();
                c.append("  ");
                c.append(err.as_str());
                c
            },
        };
        let mut r = self.bar_color(state).apply(content.as_str());
        r.append("\n");
        proof {
            assert(r@ =~= self.spec_format_footer((*state)@));
        }
        r
    }

    /// The input line: the side bar and the buffer, with the caret marked
    /// while the prompt is interactive and hidden once it is settled.
    pub open spec fn spec_format_input(
        &self,
        s: ThemeStateModel,
        content: Seq<char>,
        pos: int,
    ) -> Seq<char> {
        let style = self.spec_input_style(s);
        let input = if s is Active || s is Error {
            self.spec_cursor_with_style(content, pos, style)
        } else {
            style.spec_apply(content)
        };
        self.spec_bar_color(s).spec_apply(self.bar@) + "  "@ + input + "\n"@
    }

    /// Formats the input line of a prompt.
    pub fn format_input(&self, state: &ThemeState, cursor: &StringCursor) -> (r: String)
        requires
            cursor.wf(),
        ensures
            r@ == self.spec_format_input((*state)@, cursor.content(), cursor.pos()),
    {
        let style = self.input_style(state);
        let input = match state {
            ThemeState::Active => self.cursor_with_style(cursor, style),
            ThemeState::Error(_) => self.cursor_with_style(cursor, style),
            _ => style.apply(cursor.to_text().as_str()),
        };
        let mut r = self.bar_color(state).apply(self.bar.as_str());
        r.append("  ");
        r.append(input.as_str());
        r.append("\n");
        proof {
            assert(r@ =~= self.spec_format_input((*state)@, cursor.content(), cursor.pos()));
        }
        r
    }

    /// The placeholder line: like the input line, but in placeholder
    /// styling, fully hidden once cancelled and caret-free once
    /// submitted.
    pub open spec fn spec_format_placeholder(
        &self,
        s: ThemeStateModel,
        content: Seq<char>,
        pos: int,
    ) -> Seq<char> {
        let style = self.spec_placeholder_style(s);
        let placeholder = if s is Active || s is Error {
            self.spec_cursor_with_style(content, pos, style)
        } else if s is Cancel {
            Seq::<char>::empty()
        } else {
            style.spec_apply(content)
        };
        self.spec_bar_color(s).spec_apply(self.bar@) + "  "@ + placeholder + "\n"@
    }

    /// Formats the placeholder line of a prompt.
    pub fn format_placeholder(&self, state: &ThemeState, cursor: &StringCursor) -> (r: String)
        requires
            cursor.wf(),
        ensures
            r@ == self.spec_format_placeholder((*state)@, cursor.content(), cursor.pos()),
    {
        let style = self.placeholder_style(state);
        let placeholder = match state {
            ThemeState::Active => self.cursor_with_style(cursor, style),
            ThemeState::Error(_) => self.cursor_with_style(cursor, style),
            ThemeState::Cancel => String::new(),
            _ => style.apply(cursor.to_text().as_str()),
        };
        let mut r = self.bar_color(state).apply(self.bar.as_str());
        r.append("  ");
        r.append(placeholder.as_str());
        r.append("\n");
        proof {
            assert(r@ =~= self.spec_format_placeholder(
                (*state)@,
                cursor.content(),
                cursor.pos(),
            ));
        }
        r
    }

    /// The input line of a password prompt: every buffer codepoint is
    /// replaced by the mask glyphs, the caret staying in place.
    pub open spec fn spec_format_password(
        &self,
        s: ThemeStateModel,
        content: Seq<char>,
        pos: int,
        mask: Seq<char>,
    ) -> Seq<char> {
        self.spec_format_input(s, repeated(mask, content.len()), pos * mask.len())
    }

    /// Formats the input line of a password prompt.
    pub fn format_password(&self, state: &ThemeState, cursor: &StringCursor, mask: &str) -> (r:
        String)
        requires
            cursor.wf(),
            cursor.content().len() * mask@.len() <= usize::MAX,
        ensures
            r@ == self.spec_format_password((*state)@, cursor.content(), cursor.pos(), mask@),
    {
        let masked = cursor.to_masked(mask);
        self.format_input(state, &masked)
    }

    /// The spinner's animation template, handed to the ticking
    /// collaborator when the spinner starts.
    pub fn format_spinner_start(&self) -> (r: String)
        ensures
            r@ == "{spinner:.magenta}  {msg}"@,
    {
        String::from_str("{spinner:.magenta}  {msg}")
    }

    /// The spinner's final frame: the submitted step symbol, the message,
    /// and a settled bar line.
    pub open spec fn spec_format_spinner_stop(&self, msg: Seq<char>) -> Seq<char> {
        self.spec_state_symbol(ThemeStateModel::Submit) + "  "@ + msg + "\n"@ + self.spec_bar_color(
            ThemeStateModel::Submit,
        ).spec_apply(self.bar@)
    }

    /// Formats the spinner's final frame for `msg`.
    pub fn format_spinner_stop(&self, msg: &str) -> (r: String)
        ensures
            r@ == self.spec_format_spinner_stop(msg@),
    {
        let submit = ThemeState::Submit;
        let mut r = self.state_symbol(&submit);
        r.append("  ");
        r.append(msg);
        r.append("\n");
        r.append(self.bar_color(&submit).apply(self.bar.as_str()).as_str());
        proof {
            assert(r@ =~= self.spec_format_spinner_stop(msg@));
        }
        r
    }
}

/// The frame width of a note: two more columns than the longest of the
/// message's segments and the prompt label.
pub open spec fn note_width(prompt: Seq<char>, message: Seq<char>) -> int {
    let message2 = "\n"@ + message + "\n"@;
    let maxw = max_seg_len(split_newlines(message2)) as int;
    2 + (if maxw > prompt.len() {
        maxw
    } else {
        prompt.len() as int
    })
}

impl Theme {
    /// The styled remark connector.
    pub open spec fn spec_remark_symbol(&self) -> Seq<char> {
        self.spec_bar_color(ThemeStateModel::Submit).spec_apply(self.connect_left@)
    }

    /// The styled remark connector.
    pub fn remark_symbol(&self) -> (r: String)
        ensures
            r@ == self.spec_remark_symbol(),
    {
        let submit = ThemeState::Submit;
        self.bar_color(&submit).apply(self.connect_left.as_str())
    }

    /// The styled symbol of an informational message.
    pub fn info_symbol(&self) -> (r: String)
        ensures
            r@ == self.blue.spec_apply(self.info_sign@),
    {
        self.blue.apply(self.info_sign.as_str())
    }

    /// The styled symbol of a warning message.
    pub fn warning_symbol(&self) -> (r: String)
        ensures
            r@ == self.yellow.spec_apply(self.warn_sign@),
    {
        self.yellow.apply(self.warn_sign.as_str())
    }

    /// The styled symbol of an error message.
    pub fn error_symbol(&self) -> (r: String)
        ensures
            r@ == self.red.spec_apply(self.error_sign@),
    {
        self.red.apply(self.error_sign.as_str())
    }

    /// The styled symbol of an active step.
    pub fn active_symbol(&self) -> (r: String)
        ensures
            r@ == self.green.spec_apply(self.step_active@),
    {
        self.green.apply(self.step_active.as_str())
    }

    /// The styled symbol of a submitted step.
    pub fn submit_symbol(&self) -> (r: String)
        ensures
            r@ == self.green.spec_apply(self.step_submit@),
    {
        self.green.apply(self.step_submit.as_str())
    }

    /// The styled radio symbol: shown only while the prompt is active.
    pub open spec fn spec_radio_symbol(&self, s: ThemeStateModel, selected: bool) -> Seq<char> {
        match s {
            ThemeStateModel::Active => if selected {
                self.green.spec_apply(self.radio_active@)
            } else {
                self.dim.spec_apply(self.radio_inactive@)
            },
            _ => Seq::<char>::empty(),
        }
    }

    /// The styled radio symbol of a select item.
    pub fn radio_symbol(&self, state: &ThemeState, selected: bool) -> (r: String)
        ensures
            r@ == self.spec_radio_symbol((*state)@, selected),
    {
        match state {
            ThemeState::Active => if selected {
                self.green.apply(self.radio_active.as_str())
            } else {
                self.dim.apply(self.radio_inactive.as_str())
            },
            _ => String::new(),
        }
    }

    /// The styled checkbox symbol: shown while the prompt is interactive.
    pub open spec fn spec_checkbox_symbol(
        &self,
        s: ThemeStateModel,
        selected: bool,
        active: bool,
    ) -> Seq<char> {
        match s {
            ThemeStateModel::Active | ThemeStateModel::Error(_) => if selected {
                self.green.spec_apply(self.checkbox_selected@)
            } else if active {
                self.cyan.spec_apply(self.checkbox_active@)
            } else {
                self.dim.spec_apply(self.checkbox_inactive@)
            },
            _ => Seq::<char>::empty(),
        }
    }

    /// The styled checkbox symbol of a multiselect item.
    pub fn checkbox_symbol(&self, state: &ThemeState, selected: bool, active: bool) -> (r:
        String)
        ensures
            r@ == self.spec_checkbox_symbol((*state)@, selected, active),
    {
        match state {
            ThemeState::Active | ThemeState::Error(_) => if selected {
                self.green.apply(self.checkbox_selected.as_str())
            } else if active {
                self.cyan.apply(self.checkbox_active.as_str())
            } else {
                self.dim.apply(self.checkbox_inactive.as_str())
            },
            _ => String::new(),
        }
    }

    /// The styling of a checkbox item's label.
    pub open spec fn spec_checkbox_style(
        &self,
        s: ThemeStateModel,
        selected: bool,
        active: bool,
    ) -> Styling {
        if s is Cancel && selected {
            self.strike
        } else if s is Submit && selected {
            self.dim
        } else if !active {
            self.dim
        } else {
            self.plain
        }
    }

    /// The styling of a checkbox item's label.
    pub fn checkbox_style(&self, state: &ThemeState, selected: bool, active: bool) -> (r:
        &Styling)
        ensures
            *r == self.spec_checkbox_style((*state)@, selected, active),
    {
        match state {
            ThemeState::Cancel if selected => &self.strike,
            ThemeState::Submit if selected => &self.dim,
            _ if !active => &self.dim,
            _ => &self.plain,
        }
    }

    /// A radio item without its framing bars: hidden once the prompt is
    /// settled unless it is the selected one; the hint is shown only
    /// beside the selected item while the prompt is interactive.
    pub open spec fn spec_radio_item(
        &self,
        s: ThemeStateModel,
        selected: bool,
        label: Seq<char>,
        hint: Seq<char>,
    ) -> Seq<char> {
        if (s is Cancel || s is Submit) && !selected {
            Seq::<char>::empty()
        } else {
            let radio = self.spec_radio_symbol(s, selected);
            let styled = if selected {
                self.spec_input_style(s).spec_apply(label)
            } else {
                self.spec_placeholder_style(s).spec_apply(label)
            };
            let hinted = if (s is Active || s is Error) && hint.len() > 0 && selected {
                self.spec_placeholder_style(s).spec_apply("("@ + hint + ")"@)
            } else {
                Seq::<char>::empty()
            };
            radio + (if radio.len() == 0 {
                Seq::<char>::empty()
            } else {
                " "@
            }) + styled + (if styled.len() == 0 {
                Seq::<char>::empty()
            } else {
                " "@
            }) + hinted
        }
    }

    /// Formats a radio item without its framing bars.
    pub fn radio_item(&self, state: &ThemeState, selected: bool, label: &str, hint: &str) -> (r:
        String)
        ensures
            r@ == self.spec_radio_item((*state)@, selected, label@, hint@),
    {
        let hide = match state {
            ThemeState::Cancel => !selected,
            ThemeState::Submit => !selected,
            _ => false,
        };
        if hide {
            return String::new();
        }
        let radio = self.radio_symbol(state, selected);
        let styled = if selected {
            self.input_style(state).apply(label)
        } else {
            self.placeholder_style(state).apply(label)
        };
        let interactive = match state {
            ThemeState::Active => true,
            ThemeState::Error(_) => true,
            _ => false,
        };
        let hinted = if interactive && !hint.is_empty() && selected {
            let mut h = String::from_str("(");
            h.append(hint);
            h.append(")");
            self.placeholder_style(state).apply(h.as_str())
        } else {
            String::new()
        };
        let mut r = radio;
        if !r.as_str().is_empty() {
            r.append(" ");
        }
        r.append(styled.as_str());
        if !styled.as_str().is_empty() {
            r.append(" ");
        }
        r.append(hinted.as_str());
        proof {
            assert(r@ =~= self.spec_radio_item((*state)@, selected, label@, hint@));
        }
        r
    }

    /// A full select-list item: the framing bar and the radio item;
    /// hidden once the prompt is settled unless it is the selected one.
    pub open spec fn spec_format_select_item(
        &self,
        s: ThemeStateModel,
        selected: bool,
        label: Seq<char>,
        hint: Seq<char>,
    ) -> Seq<char> {
        if (s is Cancel || s is Submit) && !selected {
            Seq::<char>::empty()
        } else {
            self.spec_bar_color(s).spec_apply(self.bar@) + "  "@ + self.spec_radio_item(
                s,
                selected,
                label,
                hint,
            ) + "\n"@
        }
    }

    /// Formats a full select-list item.
    pub fn format_select_item(
        &self,
        state: &ThemeState,
        selected: bool,
        label: &str,
        hint: &str,
    ) -> (r: String)
        ensures
            r@ == self.spec_format_select_item((*state)@, selected, label@, hint@),
    {
        let hide = match state {
            ThemeState::Cancel => !selected,
            ThemeState::Submit => !selected,
            _ => false,
        };
        if hide {
            return String::new();
        }
        let mut r = self.bar_color(state).apply(self.bar.as_str());
        r.append("  ");
        r.append(self.radio_item(state, selected, label, hint).as_str());
        r.append("\n");
        proof {
            assert(r@ =~= self.spec_format_select_item((*state)@, selected, label@, hint@));
        }
        r
    }

    /// A checkbox item without its framing bars: hidden once the prompt
    /// is settled unless it is checked; the hint is shown only beside the
    /// highlighted item while the prompt is interactive.
    pub open spec fn spec_checkbox_item(
        &self,
        s: ThemeStateModel,
        selected: bool,
        active: bool,
        label: Seq<char>,
        hint: Seq<char>,
    ) -> Seq<char> {
        if (s is Cancel || s is Submit) && !selected {
            Seq::<char>::empty()
        } else {
            let checkbox = self.spec_checkbox_symbol(s, selected, active);
            let styled = self.spec_checkbox_style(s, selected, active).spec_apply(label);
            let hinted = if (s is Active || s is Error) && hint.len() > 0 && active {
                self.spec_placeholder_style(s).spec_apply("("@ + hint + ")"@)
            } else {
                Seq::<char>::empty()
            };
            checkbox + (if checkbox.len() == 0 {
                Seq::<char>::empty()
            } else {
                " "@
            }) + styled + (if styled.len() == 0 {
                Seq::<char>::empty()
            } else {
                " "@
            }) + hinted
        }
    }

    /// Formats a checkbox item without its framing bars.
    pub fn checkbox_item(
        &self,
        state: &ThemeState,
        selected: bool,
        active: bool,
        label: &str,
        hint: &str,
    ) -> (r: String)
        ensures
            r@ == self.spec_checkbox_item((*state)@, selected, active, label@, hint@),
    {
        let hide = match state {
            ThemeState::Cancel => !selected,
            ThemeState::Submit => !selected,
            _ => false,
        };
        if hide {
            return String::new();
        }
        let checkbox = self.checkbox_symbol(state, selected, active);
        let styled = self.checkbox_style(state, selected, active).apply(label);
        let interactive = match state {
            ThemeState::Active => true,
            ThemeState::Error(_) => true,
            _ => false,
        };
        let hinted = if interactive && !hint.is_empty() && active {
            let mut h = String::from_str("(");
            h.append(hint);
            h.append(")");
            self.placeholder_style(state).apply(h.as_str())
        } else {
            String::new()
        };
        let mut r = checkbox;
        if !r.as_str().is_empty() {
            r.append(" ");
        }
        r.append(styled.as_str());
        if !styled.as_str().is_empty() {
            r.append(" ");
        }
        r.append(hinted.as_str());
        proof {
            assert(r@ =~= self.spec_checkbox_item((*state)@, selected, active, label@, hint@));
        }
        r
    }

    /// A full multiselect-list item: the framing bar and the checkbox
    /// item; hidden once the prompt is settled unless it is checked.
    pub open spec fn spec_format_multiselect_item(
        &self,
        s: ThemeStateModel,
        selected: bool,
        active: bool,
        label: Seq<char>,
        hint: Seq<char>,
    ) -> Seq<char> {
        if (s is Cancel || s is Submit) && !selected {
            Seq::<char>::empty()
        } else {
            self.spec_bar_color(s).spec_apply(self.bar@) + "  "@ + self.spec_checkbox_item(
                s,
                selected,
                active,
                label,
                hint,
            ) + "\n"@
        }
    }

    /// Formats a full multiselect-list item.
    pub fn format_multiselect_item(
        &self,
        state: &ThemeState,
        selected: bool,
        active: bool,
        label: &str,
        hint: &str,
    ) -> (r: String)
        ensures
            r@ == self.spec_format_multiselect_item((*state)@, selected, active, label@, hint@),
    {
        let hide = match state {
            ThemeState::Cancel => !selected,
            ThemeState::Submit => !selected,
            _ => false,
        };
        if hide {
            return String::new();
        }
        let mut r = self.bar_color(state).apply(self.bar.as_str());
        r.append("  ");
        r.append(self.checkbox_item(state, selected, active, label, hint).as_str());
        r.append("\n");
        proof {
            assert(r@ =~= self.spec_format_multiselect_item(
                (*state)@,
                selected,
                active,
                label@,
                hint@,
            ));
        }
        r
    }

    /// The confirmation line: the two radio items and, while the prompt
    /// is active, a divider between them.
    pub open spec fn spec_format_confirm(&self, s: ThemeStateModel, confirm: bool) -> Seq<char> {
        let yes = self.spec_radio_item(s, confirm, "Yes"@, ""@);
        let no = self.spec_radio_item(s, !confirm, "No"@, ""@);
        let divider = if s is Active {
            self.spec_placeholder_style(s).spec_apply(" / "@)
        } else {
            Seq::<char>::empty()
        };
        self.spec_bar_color(s).spec_apply(self.bar@) + "  "@ + yes + divider + no + "\n"@
    }

    /// Formats the confirmation line of a yes/no prompt.
    pub fn format_confirm(&self, state: &ThemeState, confirm: bool) -> (r: String)
        ensures
            r@ == self.spec_format_confirm((*state)@, confirm),
    {
        let yes = self.radio_item(state, confirm, "Yes", "");
        let no = self.radio_item(state, !confirm, "No", "");
        let divider = match state {
            ThemeState::Active => self.placeholder_style(state).apply(" / "),
            _ => String::new(),
        };
        let mut r = self.bar_color(state).apply(self.bar.as_str());
        r.append("  ");
        r.append(yes.as_str());
        r.append(divider.as_str());
        r.append(no.as_str());
        r.append("\n");
        proof {
            assert(r@ =~= self.spec_format_confirm((*state)@, confirm));
        }
        r
    }

    /// One body line of a note: the message line padded to the frame
    /// width between the two framing bars.
    pub open spec fn spec_note_line(&self, line: Seq<char>, width: int) -> Seq<char> {
        let color = self.spec_bar_color(ThemeStateModel::Submit);
        color.spec_apply(self.bar@) + "  "@ + self.spec_input_style(
            ThemeStateModel::Submit,
        ).spec_apply(line) + repeated(" "@, (width - line.len() + 1) as nat) + color.spec_apply(
            self.bar@,
        ) + "\n"@
    }

    /// The body of a note: its lines, each rendered by
    /// [`Theme::spec_note_line`], in order.
    pub open spec fn spec_note_body(&self, lines: Seq<Seq<char>>, width: int) -> Seq<char>
        decreases lines.len(),
    {
        if lines.len() == 0 {
            Seq::<char>::empty()
        } else {
            self.spec_note_body(lines.drop_last(), width) + self.spec_note_line(
                lines.last(),
                width,
            )
        }
    }

    /// A note frame: a header carrying the prompt label, the message
    /// lines padded to a common width inside a drawn box, and a closing
    /// frame. One blank line is opened above the message.
    pub open spec fn spec_format_note(&self, prompt: Seq<char>, message: Seq<char>) -> Seq<
        char,
    > {
        let message2 = "\n"@ + message + "\n"@;
        let width = note_width(prompt, message);
        let color = self.spec_bar_color(ThemeStateModel::Submit);
        let header = self.spec_state_symbol(ThemeStateModel::Submit) + "  "@ + prompt + " "@
            + color.spec_apply(repeated(self.bar_h@, (width - prompt.len()) as nat))
            + color.spec_apply(self.corner_top_right@) + "\n"@;
        let body = self.spec_note_body(lines_of(message2), width);
        let footer = color.spec_apply(
            self.connect_left@ + repeated(self.bar_h@, (width + 3) as nat)
                + self.corner_bottom_right@ + "\n"@ + color.spec_apply(self.bar@) + "\n"@,
        );
        header + body + footer
    }

    /// Formats a note frame for `prompt` and `message`.
    pub fn format_note(&self, prompt: &str, message: &str) -> (r: String)
        requires
            prompt@.len() + 8 <= usize::MAX,
            message@.len() + 8 <= usize::MAX,
        ensures
            r@ == self.spec_format_note(prompt@, message@),
    {
        let mut message2 = String::from_str("\n");
        message2.append(message);
        message2.append("\n");
        let segs = split_lines(message2.as_str());
        let w0 = max_line_len(&segs);
        proof {
            reveal_strlit("\n");
            lemma_max_seg_le_len(message2@);
            assert(message2@.len() == message@.len() + 2);
        }
        let prompt_len = prompt.unicode_len();
        let w1 = if w0 > prompt_len {
            w0
        } else {
            prompt_len
        };
        let width = 2 + w1;
        proof {
            assert(width as int == note_width(prompt@, message@));
        }
        let submit = ThemeState::Submit;
        let mut r = self.state_symbol(&submit);
        r.append("  ");
        r.append(prompt);
        r.append(" ");
        r.append(
            self.bar_color(&submit).apply(
                repeat_str(self.bar_h.as_str(), width - prompt_len).as_str(),
            ).as_str(),
        );
        r.append(self.bar_color(&submit).apply(self.corner_top_right.as_str()).as_str());
        r.append("\n");
        let lines = lines_vec(message2.as_str());
        let ghost lv = lines.deep_view();
        let ghost m2 = message2@;
        let mut body = String::new();
        let mut j: usize = 0;
        while j < lines.len()
            invariant
                j <= lines@.len(),
                lv == lines.deep_view(),
                lv == lines_of(m2),
                m2 == "\n"@ + message@ + "\n"@,
                width as int == note_width(prompt@, message@),
                width + 3 <= usize::MAX,
                body@ == self.spec_note_body(lv.subrange(0, j as int), width as int),
            decreases lines@.len() - j,
        {
            proof {
                reveal_strlit("\n");
                assert(m2.len() >= 2);
                lemma_split_newlines_len(m2);
                assert(lv[j as int] == split_newlines(m2)[j as int]);
                lemma_seg_le_max(split_newlines(m2), j as int);
                lemma_max_seg_le_len(m2);
                assert(lv.subrange(0, j + 1 as int).drop_last() =~= lv.subrange(0, j as int));
            }
            let submit_loop = ThemeState::Submit;
            let line_len = lines[j].as_str().unicode_len();
            let mut bl = self.bar_color(&submit_loop).apply(self.bar.as_str());
            bl.append("  ");
            bl.append(self.input_style(&submit_loop).apply(lines[j].as_str()).as_str());
            bl.append(repeat_str(" ", width - line_len + 1).as_str());
            bl.append(self.bar_color(&submit_loop).apply(self.bar.as_str()).as_str());
            bl.append("\n");
            body.append(bl.as_str());
            proof {
                assert(bl@ =~= self.spec_note_line(lv[j as int], width as int));
                assert(body@ =~= self.spec_note_body(lv.subrange(0, j + 1 as int), width as int));
            }
            j = j + 1;
        }
        proof {
            assert(lv.subrange(0, lv.len() as int) =~= lv);
        }
        r.append(body.as_str());
        let mut inner = self.connect_left.clone();
        inner.append(repeat_str(self.bar_h.as_str(), width + 3).as_str());
        inner.append(self.corner_bottom_right.as_str());
        inner.append("\n");
        inner.append(self.bar_color(&submit).apply(self.bar.as_str()).as_str());
        inner.append("\n");
        r.append(self.bar_color(&submit).apply(inner.as_str()).as_str());
        proof {
            assert(r@ =~= self.spec_format_note(prompt@, message@));
        }
        r
    }

    /// The continuation lines of a log frame, each opened by a settled
    /// bar.
    pub open spec fn spec_log_tail(&self, ls: Seq<Seq<char>>) -> Seq<char>
        decreases ls.len(),
    {
        if ls.len() == 0 {
            Seq::<char>::empty()
        } else {
            self.spec_log_tail(ls.drop_last()) + ("\n"@ + self.spec_bar_color(
                ThemeStateModel::Submit,
            ).spec_apply(self.bar@) + "  "@ + ls.last())
        }
    }

    /// A log frame: the chosen symbol before the first line of the text,
    /// a settled bar before each further line, and one closing bar line.
    pub open spec fn spec_format_log(&self, text: Seq<char>, symbol: Seq<char>) -> Seq<char> {
        let ls = lines_of(text) + seq![Seq::<char>::empty()];
        symbol + "  "@ + ls[0] + self.spec_log_tail(ls.drop_first()) + "\n"@
    }

    /// Formats a log frame for `text` with the chosen `symbol`.
    pub fn format_log(&self, text: &str, symbol: &str) -> (r: String)
        ensures
            r@ == self.spec_format_log(text@, symbol@),
    {
        let mut ls = lines_vec(text);
        ls.push(String::new());
        let ghost lv = ls.deep_view();
        proof {
            assert(lv =~~= lines_of(text@) + seq![Seq::<char>::empty()]);
        }
        let mut r = String::from_str(symbol);
        r.append("  ");
        r.append(ls[0].as_str());
        let mut j: usize = 1;
        while j < ls.len()
            invariant
                1 <= j <= ls@.len(),
                lv == ls.deep_view(),
                lv.len() >= 1,
                r@ == symbol@ + "  "@ + lv[0] + self.spec_log_tail(lv.subrange(1, j as int)),
            decreases ls@.len() - j,
        {
            proof {
                assert(lv.subrange(1, j + 1 as int).drop_last() =~= lv.subrange(1, j as int));
            }
            let submit_loop = ThemeState::Submit;
            r.append("\n");
            r.append(self.bar_color(&submit_loop).apply(self.bar.as_str()).as_str());
            r.append("  ");
            r.append(ls[j].as_str());
            proof {
                assert(r@ =~= symbol@ + "  "@ + lv[0] + self.spec_log_tail(
                    lv.subrange(1, j + 1 as int),
                ));
            }
            j = j + 1;
        }
        r.append("\n");
        proof {
            assert(lv.subrange(1, lv.len() as int) =~= lv.drop_first());
            assert(r@ =~= self.spec_format_log(text@, symbol@));
        }
        r
    }
}

} // verus!
