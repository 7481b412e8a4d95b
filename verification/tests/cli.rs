use changqiao::cli::{help_text, parse_args, version_text, Args, Command};

fn args(list: &[&str]) -> Vec<String> {
    list.iter().map(|a| a.to_string()).collect()
}

#[test]
fn parses_default_run_command() {
    let result = parse_args(Vec::<String>::new());
    assert!(matches!(result, Ok(Command::Run(_))));
}

#[test]
fn parses_help_command() {
    let result = parse_args(args(&["--help"]));
    assert_eq!(result, Ok(Command::Help));
}

#[test]
fn parses_version_command() {
    let result = parse_args(args(&["--version"]));
    assert_eq!(result, Ok(Command::Version));
}

#[test]
fn parses_logout_flag() {
    let result = parse_args(args(&["--logout"]));
    match result {
        Ok(Command::Run(args)) => assert!(args.logout),
        _ => panic!("expected run command with logout flag"),
    }
}

#[test]
fn fails_on_unknown_option() {
    let result = parse_args(args(&["--unknown"]));
    let err = result.expect_err("expected parse error");
    assert_eq!(err.code, 2);
    assert!(err.message.contains("未知选项"));
}

#[test]
fn fails_on_positional_argument() {
    let result = parse_args(args(&["abc"]));
    let err = result.expect_err("expected parse error");
    assert_eq!(err.code, 2);
    assert!(err.message.contains("不支持的位置参数"));
}

#[test]
fn help_wins_over_version_and_run() {
    assert_eq!(parse_args(args(&["-V", "--logout", "-h"])), Ok(Command::Help));
    assert_eq!(parse_args(args(&["--logout", "-V"])), Ok(Command::Version));
    assert_eq!(parse_args(args(&["-h"])), Ok(Command::Help));
    assert_eq!(parse_args(Vec::new()), Ok(Command::Run(Args { logout: false })));
    assert_eq!(parse_args(args(&["--logout", "--logout"])), Ok(Command::Run(Args { logout: true })));
}

#[test]
fn the_first_unknown_argument_is_refused() {
    let err = parse_args(args(&["--help", "x", "--bad"])).expect_err("expected parse error");
    assert_eq!(err.code, 2);
    assert_eq!(err.message, format!("不支持的位置参数：x\n\n{}", help_text("longbridge")));
    let err = parse_args(args(&["--bad", "x"])).expect_err("expected parse error");
    assert_eq!(err.message, format!("未知选项：--bad\n\n{}", help_text("longbridge")));
    let err = parse_args(args(&[""])).expect_err("expected parse error");
    assert!(err.message.starts_with("不支持的位置参数：\n\n"));
    let err = parse_args(args(&["-"])).expect_err("expected parse error");
    assert!(err.message.starts_with("未知选项：-\n\n"));
    let err = parse_args(args(&["--Help"])).expect_err("expected parse error");
    assert!(err.message.starts_with("未知选项：--Help"));
}

#[test]
fn help_and_version_texts() {
    assert_eq!(
        help_text("changqiao"),
        "Longbridge Terminal\n\n用法：\n  changqiao [选项]\n\n选项：\n  -h, --help       显示帮助信息\n  -V, --version    显示版本信息\n      --logout     清理本地登录状态（预留）\n"
    );
    assert_eq!(version_text("changqiao", "0.1.0"), "changqiao 0.1.0");
}
