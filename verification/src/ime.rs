//! Text input through the soft keyboard.
use vstd::prelude::*;

use crate::event::ElementState;
use crate::keyboard;
use crate::keyboard::{
    Key, KeyCode, KeyEvent, KeyLocation, KeyboardInput, NamedKey, PhysicalKey,
};
use smol_str::SmolStr;
use vstd::utf8;

verus! {

/// A span of bytes in a text. The start may lie behind the end.
#[derive(Clone, Copy, Debug, PartialEq, Eq, Structural)]
pub struct TextSpan {
    pub start: usize,
    pub end: usize,
}

/// The text under edit.
#[derive(Clone, Debug, PartialEq, Eq)]
pub struct TextInputState {
    pub text: String,
    pub selection: TextSpan,
    /// The part of the text that is still being composed.
    pub compose_region: Option<TextSpan>,
}

/// What the action button of the soft keyboard asks for.
#[derive(Clone, Copy, Debug, PartialEq, Eq, Structural)]
pub enum TextInputAction {
    Unspecified,
    NoAction,
    Go,
    Search,
    Send,
    Next,
    Done,
    Previous,
    Other,
}

/// A step of text input. `T` is the type of text.
#[derive(Clone, Debug, PartialEq, Eq)]
pub enum Ime<T> {
    /// The text being composed, and the selection in it by bytes.
    Preedit(T, Option<(usize, usize)>),
    Commit(T),
}

impl View for Ime<String> {
    type V = Ime<Seq<char>>;

    open spec fn view(&self) -> Ime<Seq<char>> {
        match self {
            Ime::Preedit(text, cursor) => Ime::Preedit(text@, *cursor),
            Ime::Commit(text) => Ime::Commit(text@),
        }
    }
}

/// The bytes of a text.
pub open spec fn bytes_of(text: Seq<char>) -> Seq<u8> {
    utf8::encode_utf8(text)
}

/// Whether a span is a stretch of whole characters of a text, and not an empty one.
pub open spec fn is_composed(text: Seq<char>, span: TextSpan) -> bool {
    let bytes = bytes_of(text);
    &&& span.start < span.end <= bytes.len()
    &&& utf8::is_char_boundary(bytes, span.start as int)
    &&& utf8::is_char_boundary(bytes, span.end as int)
}

/// Where the cursor is in a span: at the lower end of the selection if that lies in the span, and
/// behind the span otherwise.
pub open spec fn cursor_in(span: TextSpan, selection: TextSpan) -> usize {
    let at = if selection.start <= selection.end {
        selection.start
    } else {
        selection.end
    };
    if span.start <= at <= span.end {
        (at - span.start) as usize
    } else {
        (span.end - span.start) as usize
    }
}

/// The text that is being composed and the cursor in it.
pub open spec fn preedit_of(
    text: Seq<char>,
    selection: TextSpan,
    compose_region: Option<TextSpan>,
) -> Option<(Seq<char>, usize)> {
    match compose_region {
        Some(span) => if is_composed(text, span) {
            Some(
                (
                    utf8::decode_utf8(
                        bytes_of(text).subrange(span.start as int, span.end as int),
                    ),
                    cursor_in(span, selection),
                ),
            )
        } else {
            None
        },
        None => None,
    }
}

/// A boundary between characters stays one when the text is cut at a later boundary.
proof fn lemma_boundary_in_prefix(bytes: Seq<u8>, start: int, end: int)
    requires
        utf8::valid_utf8(bytes),
        0 <= start <= end <= bytes.len(),
        utf8::is_char_boundary(bytes, start),
        utf8::is_char_boundary(bytes, end),
    ensures
        utf8::valid_utf8(bytes.subrange(0, end)),
        utf8::is_char_boundary(bytes.subrange(0, end), start),
{
    let head = bytes.subrange(0, end);
    utf8::valid_utf8_split(bytes, end);
    if start == end {
        utf8::is_char_boundary_start_end_of_seq(head);
    } else {
        utf8::is_char_boundary_iff_not_is_continuation_byte(bytes, start);
        utf8::is_char_boundary_iff_not_is_continuation_byte(head, start);
        assert(head[start] == bytes[start]);
    }
}

/// The part of the text that is being composed, with the selection in it: the cursor, as a span
/// without extent.
pub fn ime_preedit_from_state(state: &TextInputState) -> (preedit: Option<
    (String, Option<(usize, usize)>),
>)
    ensures
        match (preedit, preedit_of(state.text@, state.selection, state.compose_region)) {
            (Some((text, selection)), Some((composed, cursor))) => {
                text@ == composed && selection == Some((cursor, cursor))
            },
            (None, None) => true,
            _ => false,
        },
{
    let span = match state.compose_region {
        Some(span) => span,
        None => return None,
    };
    let text = state.text.as_str();
    let text_len = text.as_bytes().len();
    if span.start >= span.end || span.end > text_len {
        return None;
    }
    if !text.is_char_boundary(span.start) || !text.is_char_boundary(span.end) {
        return None;
    }
    let ghost bytes = bytes_of(text@);
    proof {
        utf8::encode_utf8_valid_utf8(text@);
        lemma_boundary_in_prefix(bytes, span.start as int, span.end as int);
    }
    let (head, _) = text.split_at(span.end);
    let (_, composed) = head.split_at(span.start);
    proof {
        assert(bytes_of(composed@) =~= bytes.subrange(span.start as int, span.end as int));
        utf8::encode_utf8_decode_utf8(composed@);
    }
    let selection = if state.selection.start <= state.selection.end {
        state.selection.start
    } else {
        state.selection.end
    };
    let cursor = if span.start <= selection && selection <= span.end {
        selection - span.start
    } else {
        span.end - span.start
    };
    Some((composed.to_owned(), Some((cursor, cursor))))
}

/// The key that an action of the soft keyboard stands for: the one that moves on for moving on,
/// the one that confirms for whatever confirms.
pub open spec fn key_of_action(action: TextInputAction) -> Option<(NamedKey, KeyCode)> {
    match action {
        TextInputAction::Unspecified | TextInputAction::NoAction | TextInputAction::Go
        | TextInputAction::Search | TextInputAction::Send | TextInputAction::Done => Some(
            (NamedKey::Enter, KeyCode::Enter),
        ),
        TextInputAction::Next => Some((NamedKey::Tab, KeyCode::Tab)),
        TextInputAction::Previous | TextInputAction::Other => None,
    }
}

/// A press of a key that types no text.
pub open spec fn bare_press(named: NamedKey, code: KeyCode) -> KeyboardInput<Seq<char>> {
    KeyboardInput {
        device_id: None,
        event: KeyEvent {
            state: ElementState::Pressed,
            physical_key: PhysicalKey::Code(code),
            logical_key: Key::Named(named),
            location: KeyLocation::Standard,
            repeat: false,
            text: None,
            text_with_all_modifiers: None,
            key_without_modifiers: Key::Named(named),
        },
        is_synthetic: false,
    }
}

pub fn text_action_keyboard_event(action: TextInputAction) -> (input: Option<
    KeyboardInput<SmolStr>,
>)
    ensures
        match (input, key_of_action(action)) {
            (Some(input), Some((named, code))) => input@ == bare_press(named, code),
            (None, None) => true,
            _ => false,
        },
{
    let (named, code) = match action {
        TextInputAction::Unspecified
        | TextInputAction::NoAction
        | TextInputAction::Go
        | TextInputAction::Search
        | TextInputAction::Send
        | TextInputAction::Done => (NamedKey::Enter, KeyCode::Enter),
        TextInputAction::Next => (NamedKey::Tab, KeyCode::Tab),
        TextInputAction::Previous | TextInputAction::Other => return None,
    };
    Some(
        KeyboardInput {
            device_id: None,
            event: KeyEvent {
                state: ElementState::Pressed,
                physical_key: PhysicalKey::Code(code),
                logical_key: Key::Named(named),
                location: KeyLocation::Standard,
                repeat: false,
                text: None,
                text_with_all_modifiers: None,
                key_without_modifiers: Key::Named(named),
            },
            is_synthetic: false,
        },
    )
}

/// The composed text is the composed span of the text under edit, byte for byte, is not empty, and
/// the cursor is in it or at its end.
pub proof fn law_preedit_is_the_composed_span(
    text: Seq<char>,
    selection: TextSpan,
    compose_region: Option<TextSpan>,
)
    ensures
        match (preedit_of(text, selection, compose_region), compose_region) {
            (Some((composed, cursor)), Some(span)) => {
                &&& bytes_of(composed) == bytes_of(text).subrange(
                    span.start as int,
                    span.end as int,
                )
                &&& composed.len() > 0
                &&& cursor <= bytes_of(composed).len()
            },
            (Some(_), None) => false,
            (None, _) => true,
        },
{
    if let Some(span) = compose_region {
        if is_composed(text, span) {
            let bytes = bytes_of(text);
            utf8::encode_utf8_valid_utf8(text);
            lemma_boundary_in_prefix(bytes, span.start as int, span.end as int);
            let head = bytes.subrange(0, span.end as int);
            utf8::valid_utf8_split(head, span.start as int);
            assert(head.subrange(span.start as int, head.len() as int) =~= bytes.subrange(
                span.start as int,
                span.end as int,
            ));
            utf8::decode_utf8_encode_utf8(bytes.subrange(span.start as int, span.end as int));
        }
    }
}

/// Text is being composed exactly if a span is marked in it that is not empty, does not reach
/// beyond the text, and cuts no character in two.
pub proof fn law_when_text_is_composed(
    text: Seq<char>,
    selection: TextSpan,
    compose_region: Option<TextSpan>,
)
    ensures
        preedit_of(text, selection, compose_region) is Some <==> (compose_region matches Some(span)
            && span.start < span.end && span.end <= utf8::encode_utf8(text).len()
            && utf8::is_char_boundary(utf8::encode_utf8(text), span.start as int)
            && utf8::is_char_boundary(utf8::encode_utf8(text), span.end as int)),
{
}

/// The cursor in composed text is as far from its start as the lower end of the selection is from
/// the start of the span, if that end lies in the span; else it is behind the last character.
pub proof fn law_cursor_follows_the_selection(
    text: Seq<char>,
    selection: TextSpan,
    compose_region: Option<TextSpan>,
)
    requires
        preedit_of(text, selection, compose_region) is Some,
    ensures
        ({
            let span = compose_region->0;
            let (_, cursor) = preedit_of(text, selection, compose_region)->0;
            forall|at: int|
                #![trigger span.start + at]
                at == selection.start && at <= selection.end || at == selection.end && at
                    <= selection.start ==> if span.start <= at <= span.end {
                    span.start + cursor == at
                } else {
                    span.start + cursor == span.end
                }
        }),
{
    let span = compose_region->0;
    let (_, cursor) = preedit_of(text, selection, compose_region)->0;
    assert forall|at: int|
        #![trigger span.start + at]
        at == selection.start && at <= selection.end || at == selection.end && at
            <= selection.start implies if span.start <= at <= span.end {
        span.start + cursor == at
    } else {
        span.start + cursor == span.end
    } by {
        assert(cursor == cursor_in(span, selection));
    }
}

/// Moving on to the next field is the tabulator, moving back is nothing, and whatever else the
/// system tells of confirms the text.
pub proof fn law_keys_of_actions(action: TextInputAction)
    ensures
        key_of_action(action) == Some((NamedKey::Tab, KeyCode::Tab)) <==> action is Next,
        key_of_action(action) is None <==> action is Previous || action is Other,
        !(action is Next || action is Previous || action is Other) ==> key_of_action(action)
            == Some((NamedKey::Enter, KeyCode::Enter)),
{
}

/// A key that an action stands for goes down once, on no device, and types nothing.
pub proof fn law_actions_press_bare_keys(named: NamedKey, code: KeyCode)
    ensures
        ({
            let input = bare_press(named, code);
            &&& input.device_id is None
            &&& !input.is_synthetic
            &&& input.event.state is Pressed
            &&& !input.event.repeat
            &&& input.event.text is None
            &&& input.event.text_with_all_modifiers is None
            &&& input.event.location is Standard
            &&& input.event.physical_key matches PhysicalKey::Code(place)
            &&& place == code
            &&& input.event.logical_key matches Key::Named(key)
            &&& key == named
            &&& input.event.key_without_modifiers matches Key::Named(key)
            &&& key == named
        }),
{
}

/// What contracts say of a step of text input is what it holds.
pub proof fn law_text_input_is_seen_as_it_is(ime: Ime<String>)
    ensures
        match ime {
            Ime::Preedit(text, cursor) => {
                &&& ime@ matches Ime::Preedit(seen, seen_cursor)
                &&& seen == text@ && seen_cursor == cursor
            },
            Ime::Commit(text) => {
                &&& ime@ matches Ime::Commit(seen)
                &&& seen == text@
            },
        },
{
}

/// The text that is composed has just the bytes of the span that is marked in the text under edit.
pub proof fn law_what_is_composed(
    text: Seq<char>,
    selection: TextSpan,
    compose_region: Option<TextSpan>,
)
    ensures
        match (preedit_of(text, selection, compose_region), compose_region) {
            (Some((composed, _)), Some(span)) => utf8::encode_utf8(composed) == utf8::encode_utf8(
                text,
            ).subrange(span.start as int, span.end as int),
            (composed, _) => composed is None,
        },
{
    law_preedit_is_the_composed_span(text, selection, compose_region);
}

} // verus!
