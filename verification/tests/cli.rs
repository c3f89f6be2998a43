use tgltrk::cli::{parse_date, select_command, CacheAction, Cli, Command};
use tgltrk::error::AppError;

#[test]
fn parse_date_accepts_calendar_dates() {
    assert_eq!(parse_date("2024-01-31").unwrap(), "2024-01-31");
    assert_eq!(
        parse_date("2024-02-30").unwrap_err(),
        "Invalid date format: '2024-02-30' (expected YYYY-MM-DD)"
    );
    assert_eq!(
        parse_date("31/01/2024").unwrap_err(),
        "Invalid date format: '31/01/2024' (expected YYYY-MM-DD)"
    );
    assert!(parse_date("").is_err());
}

#[test]
fn a_command_is_required_unless_the_guide_is_asked_for() {
    let cli = Cli { command: None, json: false, workspace: None, help_skill: true };
    assert!(matches!(select_command(cli.help_skill, cli.command), Ok(None)));
    let cli = Cli {
        command: Some(Command::Cache { action: CacheAction::Status }),
        json: false,
        workspace: None,
        help_skill: false,
    };
    assert!(matches!(
        select_command(cli.help_skill, cli.command),
        Ok(Some(Command::Cache { action: CacheAction::Status }))
    ));
    match select_command(false, None) {
        Err(AppError::InvalidInput(m)) => {
            assert_eq!(m, "No command provided. Run with --help for usage.")
        }
        other => panic!("got: {other:?}"),
    }
    assert!(matches!(select_command(true, Some(Command::Me)), Ok(None)));
}
