//! Properties: values exposed through the two commands `<id>/get` and
//! `<id>/set`, and what a matched one hands to the code that serves it.
use vstd::prelude::*;
use crate::input::ValueInput;
use crate::matcher::{
    LineMatcherProgress, MatcherModel, args_after, is_separator, lemma_command_found,
    line_matches,
};
use crate::terminal::CharacterTerminalWriter;

verus! {

/// The suffix of the command that reads a property.
pub const GET_SUFFIX: &'static str = "/get";

/// The suffix of the command that writes a property.
pub const SET_SUFFIX: &'static str = "/set";

/// The start of the line written when the value given to `set` does not parse.
pub const PARSE_FAILURE: &'static str = "Couldn't parse the value: ";

/// The command that reads the property `id`.
pub open spec fn get_command(id: Seq<char>) -> Seq<char> {
    id + GET_SUFFIX@
}

/// The command that writes the property `id`.
pub open spec fn set_command(id: Seq<char>) -> Seq<char> {
    id + SET_SUFFIX@
}

/// The line written when the value given to `set` does not parse, with the
/// parser's message `error`.
pub open spec fn parse_failure_line(error: Seq<char>) -> Seq<char> {
    PARSE_FAILURE@ + error
}

/// Whether `c` has the Unicode property White_Space.
pub open spec fn is_white_space(c: char) -> bool {
    let u = c as u32;
    ||| 0x9 <= u <= 0xd
    ||| u == 0x20
    ||| u == 0x85
    ||| u == 0xa0
    ||| u == 0x1680
    ||| 0x2000 <= u <= 0x200a
    ||| u == 0x2028
    ||| u == 0x2029
    ||| u == 0x202f
    ||| u == 0x205f
    ||| u == 0x3000
}

/// `s` without its leading white space.
pub open spec fn trim_start(s: Seq<char>) -> Seq<char>
    decreases s.len(),
{
    if s.len() > 0 && is_white_space(s[0]) {
        trim_start(s.drop_first())
    } else {
        s
    }
}

/// `s` without its trailing white space.
pub open spec fn trim_end(s: Seq<char>) -> Seq<char>
    decreases s.len(),
{
    if s.len() > 0 && is_white_space(s.last()) {
        trim_end(s.drop_last())
    } else {
        s
    }
}

/// `s` without its leading and trailing white space.
pub open spec fn trimmed(s: Seq<char>) -> Seq<char> {
    trim_end(trim_start(s))
}

/// Relies on str::trim: the slice of `s` without leading and trailing
/// characters of the Unicode property White_Space.
#[verifier::external_body]
pub(crate) fn trim<'s>(s: &'s str) -> (r: &'s str)
    ensures
        r@ == trimmed(s@),
{
    s.trim()
}

/// How a property is exposed as commands.
#[derive(Debug, Clone, Copy, PartialEq, Eq, Structural)]
pub enum PropertyCommandStyle {
    /// Two commands, `<id>/get` and `<id>/set`.
    DelimitedGetSet,
}

/// What every matched property command hands over.
pub struct PropertyContextCommon<'b, T: CharacterTerminalWriter> {
    /// The argument text of the command.
    pub args: String,
    /// The terminal, for the command's output.
    pub terminal: &'b mut T,
    /// The path of the property in a tree of commands; empty for now.
    pub current_path: String,
    /// The property's id.
    pub id: String,
    /// How the property is exposed.
    pub style: PropertyCommandStyle,
}

/// A request to read a property.
pub struct PropertyContextGet<'b, T: CharacterTerminalWriter> {
    /// The property, its argument text and the terminal.
    pub common: PropertyContextCommon<'b, T>,
}

/// A request to write a property, with the value already parsed.
pub struct PropertyContextSet<'b, V, T: CharacterTerminalWriter> {
    /// The property, the trimmed value text and the terminal.
    pub common: PropertyContextCommon<'b, T>,
    /// The value parsed from the text.
    pub value: V,
}

/// A matched property command.
pub enum PropertyContext<'b, V, T: CharacterTerminalWriter> {
    /// The property is to be read.
    Get(PropertyContextGet<'b, T>),
    /// The property is to be given a new value.
    SetValue(PropertyContextSet<'b, V, T>),
}

/// What a line asks of a property.
pub enum PropertyRequest {
    /// Nothing: neither of the property's commands matched.
    Unmatched,
    /// Its value, through `<id>/get` with the argument text `args`.
    Read { args: Seq<char> },
    /// A new value, through `<id>/set` with the trimmed argument text `text`.
    Write { text: Seq<char> },
}

/// What the matcher `m` finds for the property `id`: `<id>/get` is tried
/// first, then `<id>/set`.
pub open spec fn property_request(m: MatcherModel, id: Seq<char>) -> PropertyRequest {
    if m.progress(get_command(id)) == LineMatcherProgress::MatchFound {
        PropertyRequest::Read { args: args_after(m.line, get_command(id)) }
    } else if m.progress(set_command(id)) == LineMatcherProgress::MatchFound {
        PropertyRequest::Write { text: trimmed(args_after(m.line, set_command(id))) }
    } else {
        PropertyRequest::Unmatched
    }
}

/// The matcher `m` once both commands of the property `id` have been tried.
pub open spec fn after_property(m: MatcherModel, id: Seq<char>) -> MatcherModel {
    m.after_match(get_command(id)).after_match(set_command(id))
}

/// `c` carries the argument text `args` of the property `id`, with the
/// terminal as it was before, `written`.
pub open spec fn common_holds<'b, T: CharacterTerminalWriter>(
    c: &PropertyContextCommon<'b, T>,
    args: Seq<char>,
    id: Seq<char>,
    written: Seq<Seq<char>>,
) -> bool {
    &&& c.args@ == args
    &&& c.id@ == id
    &&& c.current_path@ == Seq::<char>::empty()
    &&& c.style == PropertyCommandStyle::DelimitedGetSet
    &&& c.terminal.written() == written
}

/// What running the property `id` with `parser` against the matcher `m` and a
/// terminal that holds `written` gives: the context `r`, and the terminal's
/// lines `written_after` once `r` is gone or, without a context, at once.
/// On `<id>/get` the parser is not consulted. On `<id>/set` a value that
/// parses gives a context that holds it; one that does not gives none and a
/// line on the terminal.
pub open spec fn property_outcome<'b, V, T: CharacterTerminalWriter, P: ValueInput<V>>(
    m: MatcherModel,
    written: Seq<Seq<char>>,
    id: Seq<char>,
    parser: P,
    r: &Option<PropertyContext<'b, V, T>>,
    written_after: Seq<Seq<char>>,
) -> bool {
    match property_request(m, id) {
        PropertyRequest::Unmatched => r is None && written_after == written,
        PropertyRequest::Read { args } => match r {
            Some(PropertyContext::Get(g)) => common_holds(&g.common, args, id, written),
            _ => false,
        },
        PropertyRequest::Write { text } => match parser.parsed(text) {
            Ok(v) => match r {
                Some(PropertyContext::SetValue(s)) => {
                    &&& common_holds(&s.common, text, id, written)
                    &&& s.value == v
                },
                _ => false,
            },
            Err(e) => r is None && written_after == written.push(parse_failure_line(e)),
        },
    }
}

/// On a fresh line that is `<id>/get`, alone or followed by a separator and
/// the text `rest`, the property `id` is asked for its value, with `rest` (or
/// nothing) as the argument text.
pub proof fn lemma_get_line(id: Seq<char>, sep: char, rest: Option<Seq<char>>)
    requires
        is_separator(sep),
    ensures
        ({
            let cmd = get_command(id);
            let line = match rest {
                None => cmd,
                Some(a) => cmd + seq![sep] + a,
            };
            property_request(MatcherModel::fresh(line), id) == PropertyRequest::Read {
                args: match rest {
                    None => Seq::<char>::empty(),
                    Some(a) => a,
                },
            }
        }),
{
    lemma_command_found(get_command(id), sep, rest);
}

/// What running a property on a `<id>/get` line gives does not depend on the
/// parser: it is never consulted there.
pub proof fn lemma_get_ignores_parser<'b, V, T: CharacterTerminalWriter, P: ValueInput<V>, Q: ValueInput<V>>(
    m: MatcherModel,
    written: Seq<Seq<char>>,
    id: Seq<char>,
    parser: P,
    other_parser: Q,
    r: &Option<PropertyContext<'b, V, T>>,
    written_after: Seq<Seq<char>>,
)
    requires
        (property_request(m, id) is Read),
    ensures
        property_outcome(m, written, id, parser, r, written_after)
            == property_outcome(m, written, id, other_parser, r, written_after),
{
}

/// On a fresh line that is `<id>/set`, a separator and the text `rest`, the
/// property `id` is given the new value `rest` without its surrounding white
/// space.
pub proof fn lemma_set_line(id: Seq<char>, sep: char, rest: Seq<char>)
    requires
        is_separator(sep),
    ensures
        property_request(MatcherModel::fresh(set_command(id) + seq![sep] + rest), id)
            == (PropertyRequest::Write { text: trimmed(rest) }),
{
    reveal_strlit("/get");
    reveal_strlit("/set");
    let line = set_command(id) + seq![sep] + rest;
    let k = id.len() as int + 1;
    assert(line[k] == 's');
    assert(get_command(id)[k] == 'g');
    if line_matches(line, get_command(id)) {
        assert(line.subrange(0, get_command(id).len() as int)[k] == line[k]);
    }
    lemma_command_found(set_command(id), sep, Some(rest));
}

/// A property that a line does not ask for leaves the matcher as it was, so
/// that running it again finds nothing again and changes nothing.
pub proof fn lemma_unmatched_property_retry(m: MatcherModel, id: Seq<char>)
    requires
        (property_request(m, id) is Unmatched),
    ensures
        after_property(m, id) == m,
        (property_request(after_property(m, id), id) is Unmatched),
        after_property(after_property(m, id), id) == m,
{
}

} // verus!
