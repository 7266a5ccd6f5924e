//! The per-line dispatcher.
use vstd::prelude::*;
use crate::matcher::{CliLineMatcher, LineBufferResult, LineMatcherProgress, MatcherModel, args_after};
use crate::input::ValueInput;
use crate::property::{
    GET_SUFFIX, PARSE_FAILURE, SET_SUFFIX, PropertyCommandStyle, PropertyContext,
    PropertyContextCommon, PropertyContextGet, PropertyContextSet, after_property,
    property_outcome, trim,
};
use crate::terminal::CharacterTerminalWriter;

verus! {

/// What a matched command hands to the code that runs it.
pub struct CommandContext<'b, T: CharacterTerminalWriter> {
    /// The argument text that followed the command name.
    pub args: String,
    /// The terminal, for the command's output.
    pub terminal: &'b mut T,
    /// The path of the command in a tree of commands; empty for now.
    pub current_path: String,
}

/// Matches announced commands and properties against one input line.
pub struct CliExecutor<'a, T: CharacterTerminalWriter> {
    matcher: CliLineMatcher,
    terminal: &'a mut T,
}

impl<'a, T: CharacterTerminalWriter> CliExecutor<'a, T> {
    /// The state of the matcher.
    pub closed spec fn model(&self) -> MatcherModel {
        self.matcher@
    }

    /// The lines written to the terminal so far.
    pub closed spec fn output(&self) -> Seq<Seq<char>> {
        self.terminal.written()
    }

    /// An executor for the line of `matcher`, writing to `terminal`.
    pub fn new(matcher: CliLineMatcher, terminal: &'a mut T) -> (e: Self)
        ensures
            e.model() == matcher@,
            e.output() == old(terminal).written(),
    {
        CliExecutor { matcher, terminal }
    }

    /// Ends the evaluation of this line and hands the matcher back.
    pub fn close(self) -> (m: CliLineMatcher)
        ensures
            m@ == self.model(),
    {
        self.matcher
    }

    /// Opens a scope in which every name tried gets `prefix` in front, but
    /// only where the line starts with `prefix`. Otherwise the matcher is told
    /// of the prefix that did not match, and no scope is opened.
    pub fn with_prefix<'b>(&'b mut self, prefix: &str) -> (r: Option<PrefixedExecutor<'a, 'b, T>>)
        ensures
            r is Some <==> prefix@.is_prefix_of(old(self).model().line),
            match r {
                Some(p) => {
                    &&& p.prefix() == prefix@
                    &&& p.model() == old(self).model()
                    &&& p.output() == old(self).output()
                    &&& final(p.executor).model() == final(self).model()
                    &&& final(p.executor).output() == final(self).output()
                },
                None => {
                    &&& final(self).model() == (MatcherModel {
                        unmatched: old(self).model().unmatched.push(prefix@),
                        ..old(self).model()
                    })
                    &&& final(self).output() == old(self).output()
                },
            },
    {
        if self.matcher.starts_with(prefix) {
            return Some(PrefixedExecutor { prefix: String::from_str(prefix), executor: self });
        }
        self.matcher.add_unmatched_prefix(prefix);
        None
    }

    /// Announces the command `cmd`. Where the line invokes it, returns the
    /// context that runs it: its arguments and the terminal.
    pub fn run_command<'b>(&'b mut self, cmd: &str) -> (r: Option<CommandContext<'b, T>>)
        ensures
            final(self).model() == old(self).model().after_match(cmd@),
            r is Some <==> old(self).model().progress(cmd@) == LineMatcherProgress::MatchFound,
            match r {
                Some(ctx) => {
                    &&& ctx.args@ == args_after(old(self).model().line, cmd@)
                    &&& ctx.current_path@ == Seq::<char>::empty()
                    &&& ctx.terminal.written() == old(self).output()
                    &&& final(ctx.terminal).written() == final(self).output()
                },
                None => final(self).output() == old(self).output(),
            },
    {
        if self.matcher.match_cmd_str(cmd) == LineMatcherProgress::MatchFound {
            let args = match self.matcher.get_state() {
                LineBufferResult::Match { args } => Some(args.clone()),
                LineBufferResult::NoMatchFound => None,
            };
            if let Some(args) = args {
                return Some(CommandContext { args, terminal: &mut *self.terminal, current_path: String::new() });
            }
        }
        None
    }

    /// The terminal, for output outside of any command.
    pub fn get_terminal<'b>(&'b mut self) -> (r: &'b mut T)
        ensures
            r.written() == old(self).output(),
            final(r).written() == final(self).output(),
            final(self).model() == old(self).model(),
    {
        &mut *self.terminal
    }

    /// Announces the property `property_id`, through the commands
    /// `<property_id>/get` and `<property_id>/set`. Where the line reads it,
    /// returns a `Get` context; where it writes a value that `input_parser`
    /// accepts, a `SetValue` context with the value. A value that does not
    /// parse is reported on the terminal and gives no context.
    pub fn run_property<'b, V, P: ValueInput<V>>(&'b mut self, property_id: &str, input_parser: P) -> (r: Option<PropertyContext<'b, V, T>>)
        ensures
            final(self).model() == after_property(old(self).model(), property_id@),
            property_outcome(old(self).model(), old(self).output(), property_id@, input_parser, &r, final(self).output()),
            match r {
                Some(PropertyContext::Get(g)) => final(g.common.terminal).written() == final(self).output(),
                Some(PropertyContext::SetValue(s)) => final(s.common.terminal).written() == final(self).output(),
                None => true,
            },
    {
        let get_cmd = String::from_str(property_id).concat(GET_SUFFIX);
        if self.matcher.match_cmd_str(get_cmd.as_str()) == LineMatcherProgress::MatchFound {
            let args = match self.matcher.get_state() {
                LineBufferResult::Match { args } => args.clone(),
                LineBufferResult::NoMatchFound => String::new(),
            };
            return Some(PropertyContext::Get(PropertyContextGet {
                common: PropertyContextCommon {
                    args,
                    terminal: &mut *self.terminal,
                    current_path: String::new(),
                    id: String::from_str(property_id),
                    style: PropertyCommandStyle::DelimitedGetSet,
                },
            }));
        }
        let set_cmd = String::from_str(property_id).concat(SET_SUFFIX);
        if self.matcher.match_cmd_str(set_cmd.as_str()) == LineMatcherProgress::MatchFound {
            let text = match self.matcher.get_state() {
                LineBufferResult::Match { args } => String::from_str(trim(args.as_str())),
                LineBufferResult::NoMatchFound => String::new(),
            };
            match input_parser.input(text.as_str()) {
                Ok(value) => {
                    return Some(PropertyContext::SetValue(PropertyContextSet {
                        common: PropertyContextCommon {
                            args: text,
                            terminal: &mut *self.terminal,
                            current_path: String::new(),
                            id: String::from_str(property_id),
                            style: PropertyCommandStyle::DelimitedGetSet,
                        },
                        value,
                    }));
                },
                Err(e) => {
                    let line = String::from_str(PARSE_FAILURE).concat(e.as_str());
                    self.terminal.print_line(line.as_str());
                },
            }
        }
        None
    }
}

impl<'a, T: CharacterTerminalWriter> core::ops::Deref for CliExecutor<'a, T> {
    type Target = T;

    fn deref(&self) -> (r: &T)
        ensures
            r.written() == self.output(),
    {
        &*self.terminal
    }
}

/// A scope of a `CliExecutor` that puts a prefix in front of every name tried.
pub struct PrefixedExecutor<'a, 'p, T: CharacterTerminalWriter> {
    /// The prefix put in front of every name.
    pub prefix: String,
    /// The executor this scope belongs to.
    pub executor: &'p mut CliExecutor<'a, T>,
}

impl<'a, 'p, T: CharacterTerminalWriter> PrefixedExecutor<'a, 'p, T> {
    /// The prefix of this scope.
    pub open spec fn prefix(&self) -> Seq<char> {
        self.prefix@
    }

    /// The matcher of the executor this scope belongs to.
    pub open spec fn model(&self) -> MatcherModel {
        self.executor.model()
    }

    /// The lines written to the terminal of the executor this scope belongs to.
    pub open spec fn output(&self) -> Seq<Seq<char>> {
        self.executor.output()
    }

    fn add_prefix(&self, name: &str) -> (r: String)
        ensures
            r@ == self.prefix() + name@,
    {
        self.prefix.clone().concat(name)
    }

    /// Runs the command `cmd` with the prefix in front, as
    /// `CliExecutor::run_command` does.
    /// Announces the command `cmd`. Where the line invokes it, returns the
    /// context that runs it: its arguments and the terminal.
    pub fn run_command<'b>(&'b mut self, cmd: &str) -> (r: Option<CommandContext<'b, T>>)
        ensures
            final(self).prefix() == old(self).prefix(),
            final(self).model() == old(self).model().after_match(old(self).prefix() + cmd@),
            r is Some <==> old(self).model().progress(old(self).prefix() + cmd@) == LineMatcherProgress::MatchFound,
            match r {
                Some(ctx) => {
                    &&& ctx.args@ == args_after(old(self).model().line, old(self).prefix() + cmd@)
                    &&& ctx.current_path@ == Seq::<char>::empty()
                    &&& ctx.terminal.written() == old(self).output()
                    &&& final(ctx.terminal).written() == final(self).output()
                },
                None => final(self).output() == old(self).output(),
            },
    {
        let cmd = self.add_prefix(cmd);
        self.executor.run_command(cmd.as_str())
    }

    /// Runs the property `property_id` with the prefix in front, as
    /// `CliExecutor::run_property` does.
    pub fn run_property<'b, V, P: ValueInput<V>>(&'b mut self, property_id: &str, input_parser: P) -> (r: Option<PropertyContext<'b, V, T>>)
        ensures
            final(self).prefix() == old(self).prefix(),
            final(self).model() == after_property(old(self).model(), old(self).prefix() + property_id@),
            property_outcome(
                old(self).model(),
                old(self).output(),
                old(self).prefix() + property_id@,
                input_parser,
                &r,
                final(self).output(),
            ),
            match r {
                Some(PropertyContext::Get(g)) => final(g.common.terminal).written() == final(self).output(),
                Some(PropertyContext::SetValue(s)) => final(s.common.terminal).written() == final(self).output(),
                None => true,
            },
    {
        let property_id = self.add_prefix(property_id);
        self.executor.run_property(property_id.as_str(), input_parser)
    }
}

} // verus!