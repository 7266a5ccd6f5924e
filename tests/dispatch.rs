use terminal_cli::executor::{CliExecutor, CommandContext};
use terminal_cli::input::{U32Input, ValueInput};
use terminal_cli::matcher::{CliLineMatcher, LineBufferResult, LineMatcherProgress};
use terminal_cli::property::{PropertyCommandStyle, PropertyContext};
use terminal_cli::terminal::{CharacterTerminalWriter, LineBufferTerminal};

fn command_args(line: &str, cmd: &str) -> Option<String> {
    let mut t = LineBufferTerminal::new();
    let mut e = CliExecutor::new(CliLineMatcher::new(line), &mut t);
    let r = e.run_command(cmd).map(|ctx: CommandContext<LineBufferTerminal>| ctx.args);
    r
}

#[test]
fn command_with_arguments_is_found() {
    assert_eq!(command_args("led on 1", "led"), Some("on 1".to_string()));
}

#[test]
fn command_alone_has_no_arguments() {
    assert_eq!(command_args("help", "help"), Some(String::new()));
}

#[test]
fn command_after_tab_is_found() {
    assert_eq!(command_args("led\t5", "led"), Some("5".to_string()));
}

#[test]
fn other_commands_are_not_found() {
    assert_eq!(command_args("led on", "reset"), None);
    assert_eq!(command_args("led on", "le"), None);
    assert_eq!(command_args("led on", "led on now"), None);
    assert_eq!(command_args("ledger", "led"), None);
}

#[test]
fn command_context_carries_terminal_and_empty_path() {
    let mut t = LineBufferTerminal::new();
    let mut e = CliExecutor::new(CliLineMatcher::new("echo hi"), &mut t);
    {
        let ctx = e.run_command("echo").unwrap();
        assert_eq!(ctx.current_path, "");
        let args = ctx.args.clone();
        ctx.terminal.print_line(&args);
    }
    let m = e.close();
    match m.get_state() {
        LineBufferResult::Match { args } => assert_eq!(args, "hi"),
        LineBufferResult::NoMatchFound => panic!("no match recorded"),
    }
    assert_eq!(t.lines(), &vec!["hi".to_string()]);
}

#[test]
fn only_one_command_matches_a_line() {
    let mut t = LineBufferTerminal::new();
    let mut e = CliExecutor::new(CliLineMatcher::new("go"), &mut t);
    assert!(e.run_command("go").is_some());
    assert!(e.run_command("go").is_none());
}

#[test]
fn property_get_gives_get_context() {
    let mut t = LineBufferTerminal::new();
    let mut e = CliExecutor::new(CliLineMatcher::new("dev/led/get"), &mut t);
    match e.run_property("dev/led", U32Input) {
        Some(PropertyContext::Get(g)) => {
            assert_eq!(g.common.args, "");
            assert_eq!(g.common.id, "dev/led");
            assert_eq!(g.common.current_path, "");
            assert_eq!(g.common.style, PropertyCommandStyle::DelimitedGetSet);
        }
        _ => panic!("expected a get context"),
    }
}

#[test]
fn property_get_does_not_parse() {
    let mut t = LineBufferTerminal::new();
    let mut e = CliExecutor::new(CliLineMatcher::new("temp/get abc"), &mut t);
    match e.run_property("temp", U32Input) {
        Some(PropertyContext::Get(g)) => assert_eq!(g.common.args, "abc"),
        _ => panic!("expected a get context"),
    }
    e.close();
    assert!(t.lines().is_empty());
}

#[test]
fn property_set_parses_value() {
    let mut t = LineBufferTerminal::new();
    let mut e = CliExecutor::new(CliLineMatcher::new("temp/set 42"), &mut t);
    match e.run_property("temp", U32Input) {
        Some(PropertyContext::SetValue(s)) => {
            assert_eq!(s.value, 42);
            assert_eq!(s.common.args, "42");
            assert_eq!(s.common.id, "temp");
        }
        _ => panic!("expected a set context"),
    }
}

#[test]
fn property_set_trims_value_text() {
    let mut t = LineBufferTerminal::new();
    let mut e = CliExecutor::new(CliLineMatcher::new("temp/set  42 \t"), &mut t);
    match e.run_property("temp", U32Input) {
        Some(PropertyContext::SetValue(s)) => {
            assert_eq!(s.value, 42);
            assert_eq!(s.common.args, "42");
        }
        _ => panic!("expected a set context"),
    }
}

#[test]
fn property_set_failure_reports_once() {
    let mut t = LineBufferTerminal::new();
    let mut e = CliExecutor::new(CliLineMatcher::new("temp/set abc"), &mut t);
    assert!(e.run_property("temp", U32Input).is_none());
    e.close();
    assert_eq!(t.lines().len(), 1);
    assert!(t.lines()[0].contains("Couldn't parse the value"));
    assert_eq!(t.lines()[0], "Couldn't parse the value: not a decimal number");
}

#[test]
fn property_set_out_of_range_reports() {
    let mut t = LineBufferTerminal::new();
    let mut e = CliExecutor::new(CliLineMatcher::new("temp/set 4294967296"), &mut t);
    assert!(e.run_property("temp", U32Input).is_none());
    e.close();
    assert_eq!(t.lines(), &vec!["Couldn't parse the value: number too large".to_string()]);
}

#[test]
fn property_set_largest_value() {
    let mut t = LineBufferTerminal::new();
    let mut e = CliExecutor::new(CliLineMatcher::new("temp/set 4294967295"), &mut t);
    match e.run_property("temp", U32Input) {
        Some(PropertyContext::SetValue(s)) => assert_eq!(s.value, u32::MAX),
        _ => panic!("expected a set context"),
    }
}

#[test]
fn property_not_on_line_gives_nothing() {
    let mut t = LineBufferTerminal::new();
    let mut e = CliExecutor::new(CliLineMatcher::new("temp/reset"), &mut t);
    assert!(e.run_property("temp", U32Input).is_none());
    let m = e.close();
    assert!(matches!(m.get_state(), LineBufferResult::NoMatchFound));
    assert!(t.lines().is_empty());
}

#[test]
fn prefix_scope_matches_like_full_name() {
    let mut t1 = LineBufferTerminal::new();
    let mut e1 = CliExecutor::new(CliLineMatcher::new("dev/led/set 1"), &mut t1);
    let scoped = {
        let mut p = e1.with_prefix("dev/").expect("prefix should match");
        assert_eq!(p.prefix, "dev/");
        match p.run_property("led", U32Input) {
            Some(PropertyContext::SetValue(s)) => (s.value, s.common.id.clone(), s.common.args.clone()),
            _ => panic!("expected a set context"),
        }
    };
    let mut t2 = LineBufferTerminal::new();
    let mut e2 = CliExecutor::new(CliLineMatcher::new("dev/led/set 1"), &mut t2);
    let direct = match e2.run_property("dev/led", U32Input) {
        Some(PropertyContext::SetValue(s)) => (s.value, s.common.id.clone(), s.common.args.clone()),
        _ => panic!("expected a set context"),
    };
    assert_eq!(scoped, direct);
    assert_eq!(scoped, (1, "dev/led".to_string(), "1".to_string()));
}

#[test]
fn prefix_scope_runs_commands() {
    let mut t = LineBufferTerminal::new();
    let mut e = CliExecutor::new(CliLineMatcher::new("net/ping 10.0.0.1"), &mut t);
    let mut p = e.with_prefix("net/").unwrap();
    assert!(p.run_command("ip").is_none());
    let ctx = p.run_command("ping").unwrap();
    assert_eq!(ctx.args, "10.0.0.1");
}

#[test]
fn prefix_mismatch_reports_prefix_once() {
    let mut t = LineBufferTerminal::new();
    let mut e = CliExecutor::new(CliLineMatcher::new("net/ip/get"), &mut t);
    assert!(e.with_prefix("dev/").is_none());
    let m = e.close();
    assert_eq!(m.unmatched_prefixes(), &vec!["dev/".to_string()]);
    assert!(matches!(m.get_state(), LineBufferResult::NoMatchFound));
    assert!(t.lines().is_empty());
}

#[test]
fn unmatched_name_twice_changes_nothing() {
    let mut t = LineBufferTerminal::new();
    let mut e = CliExecutor::new(CliLineMatcher::new("status"), &mut t);
    assert!(e.run_command("reset").is_none());
    assert!(e.run_command("reset").is_none());
    assert!(e.run_property("temp", U32Input).is_none());
    assert!(e.run_property("temp", U32Input).is_none());
    assert!(e.run_command("status").is_some());
    let m = e.close();
    assert!(m.unmatched_prefixes().is_empty());
    assert_eq!(m.line(), "status");
    assert!(t.lines().is_empty());
}

#[test]
fn terminal_is_reachable_from_executor() {
    let mut t = LineBufferTerminal::new();
    let mut e = CliExecutor::new(CliLineMatcher::new(""), &mut t);
    e.get_terminal().print_line("usage");
    assert_eq!(e.lines().len(), 1);
    e.close();
    assert_eq!(t.lines(), &vec!["usage".to_string()]);
}

#[test]
fn matcher_reports_progress() {
    let mut m = CliLineMatcher::new("a b");
    assert!(m.starts_with("a "));
    assert!(!m.starts_with("b"));
    assert_eq!(m.match_cmd_str("b"), LineMatcherProgress::NoMatch);
    assert_eq!(m.match_cmd_str("a"), LineMatcherProgress::MatchFound);
    assert_eq!(m.match_cmd_str("a b"), LineMatcherProgress::Finished);
    match m.get_state() {
        LineBufferResult::Match { args } => assert_eq!(args, "b"),
        LineBufferResult::NoMatchFound => panic!("no match recorded"),
    }
}

#[test]
fn u32_input_parses_decimal() {
    assert_eq!(U32Input.input("0"), Ok(0));
    assert_eq!(U32Input.input("007"), Ok(7));
    assert_eq!(U32Input.input("123456"), Ok(123456));
    assert_eq!(U32Input.input(""), Err("not a decimal number".to_string()));
    assert_eq!(U32Input.input("12a"), Err("not a decimal number".to_string()));
    assert_eq!(U32Input.input("-1"), Err("not a decimal number".to_string()));
    assert_eq!(U32Input.input("99999999999999999999"), Err("number too large".to_string()));
}
