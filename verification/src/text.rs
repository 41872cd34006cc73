//! Text layout shared by the renderings.
//!
//! A link is rendered from three parts: the place it was made at, the text
//! of its kind and the text of its cause. The functions here put the parts
//! together; they know nothing of where a part came from.

use crate::erased::Style;
use vstd::prelude::*;

verus! {

/// `String::push` appends one character to the end of the string.
pub assume_specification[ String::push ](text: &mut String, ch: char)
    ensures
        final(text)@ == old(text)@.push(ch),
;

/// What `core::fmt::Debug` writes for a string: the string between double
/// quotes, with the characters that need it escaped.
pub uninterp spec fn quoted(text: Seq<char>) -> Seq<char>;

/// Formats `text` with `{:?}`, that is `core::fmt::Debug::fmt` of `str`.
///
/// Claims only that the text that comes back depends on nothing but `text`,
/// and calls it [`quoted`].
#[verifier::external_body]
pub(crate) fn quote(text: &str) -> (out: String)
    ensures
        out@ == quoted(text@),
{
    format!("{:?}", text)
}

/// The text of an optional string slice.
pub open spec fn text_of(part: Option<&str>) -> Option<Seq<char>> {
    match part {
        Some(text) => Some(text@),
        None => None,
    }
}

/// The verbose human-readable text of a link: the kind, then, where there
/// is a cause, a separator and the cause's own verbose text.
pub open spec fn link_display_alternate(kind: Seq<char>, cause: Option<Seq<char>>) -> Seq<char> {
    kind + match cause {
        Some(cause) => "\nCaused by:\n  "@ + cause,
        None => Seq::empty(),
    }
}

/// The diagnostic text of a link: the place it was made at, if known, then
/// the kind, then, where there is a cause, a separator and the cause's own
/// diagnostic text.
pub open spec fn link_debug(
    occurrence: Option<Seq<char>>,
    kind: Seq<char>,
    cause: Option<Seq<char>>,
) -> Seq<char> {
    (match occurrence {
        Some(occurrence) => occurrence + ": "@,
        None => Seq::empty(),
    }) + kind + match cause {
        Some(cause) => "\nCaused by:\n"@ + cause,
        None => Seq::empty(),
    }
}

/// `text` with every line pushed in by four spaces.
///
/// A line is pushed in when its first character is written, so an empty
/// text stays empty and nothing follows a final line break.
pub open spec fn indented(text: Seq<char>) -> Seq<char> {
    indented_from(text, true)
}

/// [`indented`], where `at_line_start` says whether `text` begins a line.
pub open spec fn indented_from(text: Seq<char>, at_line_start: bool) -> Seq<char>
    decreases text.len(),
{
    if text.len() == 0 {
        Seq::empty()
    } else {
        let pad = if at_line_start {
            seq![' ', ' ', ' ', ' ']
        } else {
            Seq::empty()
        };
        pad + seq![text[0]] + indented_from(text.drop_first(), text[0] == '\n')
    }
}

/// The structured text of an optional value: `None`, or the value's own
/// structured text on a line of its own inside `Some(` and `)`.
pub open spec fn option_debug_alternate(value: Option<Seq<char>>) -> Seq<char> {
    match value {
        Some(value) => "Some(\n"@ + indented(value + ",\n"@) + ")"@,
        None => "None"@,
    }
}

/// One field of a structured record: the label, the value's structured
/// text and a comma, pushed in as a whole.
pub open spec fn field_debug_alternate(label: Seq<char>, value: Seq<char>) -> Seq<char> {
    indented(label + ": "@ + value + ",\n"@)
}

/// How the record of a link begins: with `Error<` and the name of the type
/// of its kind, where that name is known, and with `Error` alone where it
/// is not.
pub open spec fn record_head(name: Option<Seq<char>>) -> Seq<char> {
    match name {
        Some(name) => "Error<"@ + name + "> {\n"@,
        None => "Error {\n"@,
    }
}

/// The structured diagnostic text of a link: a record named after the link
/// with the fields `occurrence`, `kind` and `source`, one to a line.
///
/// `kind` and `cause` are structured texts already; the place is quoted
/// here.
pub open spec fn link_debug_alternate(
    name: Option<Seq<char>>,
    occurrence: Option<Seq<char>>,
    kind: Seq<char>,
    cause: Option<Seq<char>>,
) -> Seq<char> {
    record_head(name) + field_debug_alternate(
        "occurrence"@,
        option_debug_alternate(
            match occurrence {
                Some(occurrence) => Some(quoted(occurrence)),
                None => None,
            },
        ),
    ) + field_debug_alternate("kind"@, kind) + field_debug_alternate(
        "source"@,
        option_debug_alternate(cause),
    ) + "}"@
}

/// The style a link renders its kind in when it is itself rendered in
/// `style`.
///
/// The kind is always shown tersely in the human-readable texts. For
/// diagnosis it is shown in diagnostic form, unless it is bare text.
pub open spec fn kind_style(style: Style, plain_text: bool) -> Style {
    match style {
        Style::Display => Style::Display,
        Style::DisplayAlternate => Style::Display,
        Style::Debug => if plain_text {
            Style::Display
        } else {
            Style::Debug
        },
        Style::DebugAlternate => Style::DebugAlternate,
    }
}

/// The text of a link in `style`, from the name of the type of its kind,
/// the place it was made at, the text of its kind in [`kind_style`] and the
/// text of its cause in `style`.
///
/// The terse human-readable text is that of the kind alone, whatever the
/// cause is. The name shows in the structured text only.
pub open spec fn link_text(
    style: Style,
    name: Option<Seq<char>>,
    occurrence: Option<Seq<char>>,
    kind: Seq<char>,
    cause: Option<Seq<char>>,
) -> Seq<char> {
    match style {
        Style::Display => kind,
        Style::DisplayAlternate => link_display_alternate(kind, cause),
        Style::Debug => link_debug(occurrence, kind, cause),
        Style::DebugAlternate => link_debug_alternate(name, occurrence, kind, cause),
    }
}

/// Pushes every line of `text` in by four spaces.
pub fn indent(text: &str) -> (out: String)
    ensures
        out@ == indented(text@),
{
    broadcast use vstd::string::group_string_axioms;

    let mut out = String::new();
    let mut at_line_start = true;
    assert(text@.skip(0) =~= text@);
    for ch in it: text.chars()
        invariant
            it.seq() == text@,
            out@ + indented_from(text@.skip(it.index() as int), at_line_start) == indented(text@),
    {
        let ghost rest = text@.skip(it.index() as int);
        assert(rest.drop_first() == text@.skip(it.index() + 1));
        if at_line_start {
            out.push(' ');
            out.push(' ');
            out.push(' ');
            out.push(' ');
        }
        out.push(ch);
        at_line_start = ch == '\n';
    }
    out
}

/// Renders a link verbosely from the text of its kind and the verbose text
/// of its cause.
pub fn render_link_display_alternate(kind: &str, cause: Option<&str>) -> (out: String)
    ensures
        out@ == link_display_alternate(kind@, text_of(cause)),
{
    let mut out = String::new();
    out.append(kind);
    if let Some(cause) = cause {
        out.append("\nCaused by:\n  ");
        out.append(cause);
    }
    out
}

/// Renders a link for diagnosis from the place it was made at, the text of
/// its kind and the diagnostic text of its cause.
pub fn render_link_debug(occurrence: Option<&str>, kind: &str, cause: Option<&str>) -> (out: String)
    ensures
        out@ == link_debug(text_of(occurrence), kind@, text_of(cause)),
{
    let mut out = String::new();
    if let Some(occurrence) = occurrence {
        out.append(occurrence);
        out.append(": ");
    }
    out.append(kind);
    if let Some(cause) = cause {
        out.append("\nCaused by:\n");
        out.append(cause);
    }
    out
}

/// Renders an optional value in structured form from its own structured
/// text.
pub fn render_option_debug_alternate(value: Option<&str>) -> (out: String)
    ensures
        out@ == option_debug_alternate(text_of(value)),
{
    match value {
        Some(value) => {
            let mut line = String::new();
            line.append(value);
            line.append(",\n");
            let mut out = String::new();
            out.append("Some(\n");
            out.append(indent(line.as_str()).as_str());
            out.append(")");
            out
        },
        None => "None".to_owned(),
    }
}

/// Renders one field of a structured record.
fn render_field_debug_alternate(label: &str, value: &str) -> (out: String)
    ensures
        out@ == field_debug_alternate(label@, value@),
{
    let mut line = String::new();
    line.append(label);
    line.append(": ");
    line.append(value);
    line.append(",\n");
    indent(line.as_str())
}

/// Renders a link in structured form from the place it was made at, the
/// structured text of its kind and the structured text of its cause.
pub fn render_link_debug_alternate(
    name: Option<&str>,
    occurrence: Option<&str>,
    kind: &str,
    cause: Option<&str>,
) -> (out: String)
    ensures
        out@ == link_debug_alternate(text_of(name), text_of(occurrence), kind@, text_of(cause)),
{
    let place = match occurrence {
        Some(occurrence) => {
            let place = quote(occurrence);
            render_option_debug_alternate(Some(place.as_str()))
        },
        None => render_option_debug_alternate(None),
    };
    let source = render_option_debug_alternate(cause);
    let mut out = String::new();
    match name {
        Some(name) => {
            out.append("Error<");
            out.append(name);
            out.append("> {\n");
        },
        None => {
            out.append("Error {\n");
        },
    }
    out.append(render_field_debug_alternate("occurrence", place.as_str()).as_str());
    out.append(render_field_debug_alternate("kind", kind).as_str());
    out.append(render_field_debug_alternate("source", source.as_str()).as_str());
    out.append("}");
    out
}

/// Picks the style a link renders its kind in.
pub fn pick_kind_style(style: Style, plain_text: bool) -> (picked: Style)
    ensures
        picked == kind_style(style, plain_text),
{
    match style {
        Style::Display => Style::Display,
        Style::DisplayAlternate => Style::Display,
        Style::Debug => if plain_text {
            Style::Display
        } else {
            Style::Debug
        },
        Style::DebugAlternate => Style::DebugAlternate,
    }
}

/// Renders a link in `style` from its parts, already rendered.
pub fn render_link(
    style: Style,
    name: Option<&str>,
    occurrence: Option<&str>,
    kind: &str,
    cause: Option<&str>,
) -> (out: String)
    ensures
        out@ == link_text(style, text_of(name), text_of(occurrence), kind@, text_of(cause)),
{
    match style {
        Style::Display => kind.to_owned(),
        Style::DisplayAlternate => render_link_display_alternate(kind, cause),
        Style::Debug => render_link_debug(occurrence, kind, cause),
        Style::DebugAlternate => render_link_debug_alternate(name, occurrence, kind, cause),
    }
}

/// The terse human-readable text of a link is the text of its kind and
/// nothing else, whatever caused the link and wherever it was made.
pub proof fn lemma_display_is_kind_alone(
    name: Option<Seq<char>>,
    occurrence: Option<Seq<char>>,
    kind: Seq<char>,
    cause: Option<Seq<char>>,
)
    ensures
        link_text(Style::Display, name, occurrence, kind, cause) == kind,
{
}

/// The diagnostic text of a link that has a cause ends with a separator
/// and the diagnostic text of the cause, so that a chain is shown outermost
/// first; the place, if known, and the kind come before.
pub proof fn lemma_debug_shows_cause_last(
    name: Option<Seq<char>>,
    occurrence: Option<Seq<char>>,
    kind: Seq<char>,
    cause: Seq<char>,
)
    ensures
        link_text(Style::Debug, name, occurrence, kind, Some(cause)) == link_text(
            Style::Debug,
            name,
            occurrence,
            kind,
            None,
        ) + "\nCaused by:\n"@ + cause,
        link_text(Style::Debug, name, None, kind, None) == kind,
        occurrence matches Some(place) ==> link_text(Style::Debug, name, occurrence, kind, None) == place
            + ": "@ + kind,
{
    match occurrence {
        Some(place) => {
            assert((place + ": "@) + kind + ("\nCaused by:\n"@ + cause) == ((place + ": "@)
                + kind + Seq::<char>::empty()) + "\nCaused by:\n"@ + cause);
        },
        None => {
        },
    }
}

} // verus!
