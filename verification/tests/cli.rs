use httprint::cli::{
    listening_banner, parse_invocation, program_name, shown_name, usage_text, Invocation,
};

fn args(items: &[&str]) -> Vec<String> {
    items.iter().map(|s| s.to_string()).collect()
}

#[test]
fn no_argument_serves_default_address() {
    assert_eq!(
        parse_invocation(&args(&["/usr/bin/httprint"])),
        Invocation::Serve("127.0.0.1:8000".to_string())
    );
}

#[test]
fn one_argument_is_the_address() {
    assert_eq!(
        parse_invocation(&args(&["httprint", "0.0.0.0:9000"])),
        Invocation::Serve("0.0.0.0:9000".to_string())
    );
    assert_eq!(
        parse_invocation(&args(&["httprint", "--Help"])),
        Invocation::Serve("--Help".to_string())
    );
}

#[test]
fn help_asks_for_usage() {
    assert_eq!(
        parse_invocation(&args(&["./target/httprint", "--help"])),
        Invocation::Usage("./target/httprint".to_string())
    );
}

#[test]
fn more_arguments_ask_for_usage() {
    assert_eq!(
        parse_invocation(&args(&["httprint", "a:1", "b:2"])),
        Invocation::Usage("httprint".to_string())
    );
    assert_eq!(
        parse_invocation(&args(&["p", "--help", "x"])),
        Invocation::Usage("p".to_string())
    );
}

#[test]
fn missing_program_path_uses_default_name() {
    assert_eq!(parse_invocation(&args(&[])), Invocation::Usage("httprint".to_string()));
}

#[test]
fn program_name_is_last_segment() {
    assert_eq!(program_name("httprint"), "httprint");
    assert_eq!(program_name("/usr/local/bin/httprint"), "httprint");
    assert_eq!(program_name("./a/b"), "b");
    assert_eq!(program_name("dir/"), "");
    assert_eq!(program_name("/"), "");
    assert_eq!(program_name(""), "");
    assert_eq!(program_name("/\u{e9}t\u{e9}/pr\u{f6}g"), "pr\u{f6}g");
}

#[test]
fn usage_text_is_exact() {
    assert_eq!(
        usage_text("/usr/bin/httprint"),
        "Usage: httprint [ADDRESS]\n\nParameters:\n  ADDRESS\tAddress to listen (default: 127.0.0.1:8000)"
    );
}

#[test]
fn help_prints_usage_without_serving() {
    let invocation = parse_invocation(&args(&["bin/inspect", "--help"]));
    let text = match invocation {
        Invocation::Usage(program) => usage_text(&program),
        Invocation::Serve(address) => panic!("would bind {address}"),
    };
    assert_eq!(
        text,
        "Usage: inspect [ADDRESS]\n\nParameters:\n  ADDRESS\tAddress to listen (default: 127.0.0.1:8000)"
    );
}

#[test]
fn banner_names_the_address() {
    assert_eq!(listening_banner("127.0.0.1:8000"), "Listening at 127.0.0.1:8000\n");
}

#[test]
fn shown_name_defaults_where_the_segment_is_empty() {
    assert_eq!(shown_name(""), "httprint");
    assert_eq!(shown_name("dir/"), "httprint");
    assert_eq!(shown_name("/"), "httprint");
    assert_eq!(shown_name("a/b//"), "httprint");
    assert_eq!(shown_name("/opt/bin/inspect"), "inspect");
    assert_eq!(shown_name("inspect"), "inspect");
}

#[test]
fn usage_text_of_empty_path_uses_default_name() {
    assert_eq!(
        usage_text(""),
        "Usage: httprint [ADDRESS]\n\nParameters:\n  ADDRESS\tAddress to listen (default: 127.0.0.1:8000)"
    );
}

#[test]
fn usage_text_of_path_ending_in_slash_uses_default_name() {
    assert_eq!(
        usage_text("dir/"),
        "Usage: httprint [ADDRESS]\n\nParameters:\n  ADDRESS\tAddress to listen (default: 127.0.0.1:8000)"
    );
}

#[test]
fn usage_after_missing_program_path_uses_default_name() {
    let text = match parse_invocation(&args(&[])) {
        Invocation::Usage(program) => usage_text(&program),
        Invocation::Serve(address) => panic!("would bind {address}"),
    };
    assert!(text.starts_with("Usage: httprint [ADDRESS]\n"));
}
