use portsage::cli::{Cli, CliError};

#[test]
fn test_parse_filter_argument() {
    let args = vec!["test", "--filter", "uvicorn"];
    let cli = Cli::parse_from(args);
    assert_eq!(cli.filter.as_deref(), Some("uvicorn"));
}

#[test]
fn test_parse_port_argument() {
    let args = vec!["test", "--port", "8080"];
    let cli = Cli::parse_from(args);
    assert_eq!(cli.port, Some(8080));
}

#[test]
fn test_parse_all_arguments() {
    let args = vec![
        "test", "--filter", "node", "--port", "3000", "--json", "--kill", "123",
    ];
    let cli = Cli::parse_from(args);
    // assert!(cli.json);
    assert_eq!(cli.kill, Some(123));
}

#[test]
fn parse_short_and_inline_forms() {
    let cli = Cli::parse_from(vec!["portsage", "-f", "py", "-p", "+80", "--kill=7", "--tui"]);
    assert_eq!(cli.filter.as_deref(), Some("py"));
    assert_eq!(cli.port, Some(80));
    assert_eq!(cli.kill, Some(7));
    assert!(cli.tui);
    assert!(!cli.json);
    let cli = Cli::parse_from(vec!["portsage", "--filter=a=b"]);
    assert_eq!(cli.filter.as_deref(), Some("a=b"));
}

#[test]
fn parse_no_options() {
    let cli = Cli::parse_from(vec!["portsage"]);
    assert_eq!(cli.filter, None);
    assert_eq!(cli.port, None);
    assert_eq!(cli.kill, None);
    assert!(!cli.json && !cli.tui);
}

#[test]
fn parse_errors() {
    assert_eq!(
        Cli::try_parse_from(vec!["p", "--bogus"]).err(),
        Some(CliError::UnknownArgument(1))
    );
    assert_eq!(
        Cli::try_parse_from(vec!["p", "--json", "--port"]).err(),
        Some(CliError::MissingValue(2))
    );
    assert_eq!(
        Cli::try_parse_from(vec!["p", "--port", "65536"]).err(),
        Some(CliError::InvalidValue(1))
    );
    assert_eq!(
        Cli::try_parse_from(vec!["p", "--kill", "-3"]).err(),
        Some(CliError::InvalidValue(1))
    );
    assert_eq!(
        Cli::try_parse_from(vec!["p", "--json=yes"]).err(),
        Some(CliError::InvalidValue(1))
    );
    assert_eq!(
        Cli::try_parse_from(vec!["p", "--tui", "--tui"]).err(),
        Some(CliError::Repeated(2))
    );
    assert_eq!(
        Cli::try_parse_from(vec!["p", "-f", "a", "--filter", "b"]).err(),
        Some(CliError::Repeated(3))
    );
    assert_eq!(
        Cli::try_parse_from(vec!["p", "-h"]).err(),
        Some(CliError::HelpRequested(1))
    );
    assert_eq!(
        Cli::try_parse_from(vec!["p", "--version"]).err(),
        Some(CliError::VersionRequested(1))
    );
}

#[test]
fn parse_largest_values() {
    let cli = Cli::parse_from(vec!["p", "--port", "65535", "--kill", "4294967295"]);
    assert_eq!(cli.port, Some(65535));
    assert_eq!(cli.kill, Some(4294967295));
    assert_eq!(
        Cli::try_parse_from(vec!["p", "--kill", "4294967296"]).err(),
        Some(CliError::InvalidValue(1))
    );
}

#[test]
fn parse_attached_short_values() {
    let cli = Cli::parse_from(vec!["p", "-fpy", "-p8080"]);
    assert_eq!(cli.filter.as_deref(), Some("py"));
    assert_eq!(cli.port, Some(8080));
    let cli = Cli::parse_from(vec!["p", "-f=py", "-p=22"]);
    assert_eq!(cli.filter.as_deref(), Some("py"));
    assert_eq!(cli.port, Some(22));
    assert_eq!(
        Cli::try_parse_from(vec!["p", "-pxyz"]).err(),
        Some(CliError::InvalidValue(1))
    );
    assert_eq!(
        Cli::try_parse_from(vec!["p", "-q"]).err(),
        Some(CliError::UnknownArgument(1))
    );
}
