use btxc::BitcoinError;
use btxc::CliCommand;
use btxc::parse_cli_args;

fn argv(parts: &[&str]) -> Vec<String> {
    parts.iter().map(|p| p.to_string()).collect()
}

#[test]
fn send_is_recognized() {
    let r = parse_cli_args(&argv(&["send", "100", "bc1qabc"])).unwrap();
    match r {
        CliCommand::Send { amount, address } => {
            assert_eq!(amount, 100);
            assert_eq!(address, "bc1qabc");
        }
        CliCommand::Balance => panic!("expected a send command"),
    }
}

#[test]
fn send_of_zero_is_invalid_amount() {
    let e = parse_cli_args(&argv(&["send", "0", "bc1qabc"])).unwrap_err();
    assert_eq!(e, BitcoinError::InvalidAmount);
}

#[test]
fn balance_is_recognized() {
    let r = parse_cli_args(&argv(&["balance"])).unwrap();
    assert_eq!(r, CliCommand::Balance);
}

#[test]
fn empty_argv_is_reported() {
    let e = parse_cli_args(&[]).unwrap_err();
    assert_eq!(e, BitcoinError::ParseError("No arguments provided".to_string()));
}

#[test]
fn empty_address_is_reported() {
    let e = parse_cli_args(&argv(&["send", "100", ""])).unwrap_err();
    assert_eq!(e, BitcoinError::ParseError("Address cannot be empty".to_string()));
}

#[test]
fn empty_address_is_checked_before_zero_amount() {
    let e = parse_cli_args(&argv(&["send", "0", ""])).unwrap_err();
    assert_eq!(e, BitcoinError::ParseError("Address cannot be empty".to_string()));
}

#[test]
fn unparseable_amount_is_reported() {
    let e = parse_cli_args(&argv(&["send", "12x", "addr"])).unwrap_err();
    assert_eq!(e, BitcoinError::ParseError("Failed to parse arguments".to_string()));
    let e = parse_cli_args(&argv(&["send", "-5", "addr"])).unwrap_err();
    assert_eq!(e, BitcoinError::ParseError("Failed to parse arguments".to_string()));
}

#[test]
fn amount_bounds() {
    let r = parse_cli_args(&argv(&["send", "18446744073709551615", "addr"])).unwrap();
    match r {
        CliCommand::Send { amount, .. } => assert_eq!(amount, u64::MAX),
        CliCommand::Balance => panic!("expected a send command"),
    }
    let e = parse_cli_args(&argv(&["send", "18446744073709551616", "addr"])).unwrap_err();
    assert_eq!(e, BitcoinError::ParseError("Failed to parse arguments".to_string()));
}

#[test]
fn amount_with_plus_sign_parses() {
    let r = parse_cli_args(&argv(&["send", "+7", "addr"])).unwrap();
    match r {
        CliCommand::Send { amount, .. } => assert_eq!(amount, 7),
        CliCommand::Balance => panic!("expected a send command"),
    }
}

#[test]
fn wrong_arity_is_reported() {
    let e = parse_cli_args(&argv(&["send", "100"])).unwrap_err();
    assert_eq!(e, BitcoinError::ParseError("Failed to parse arguments".to_string()));
    let e = parse_cli_args(&argv(&["send", "100", "a", "b"])).unwrap_err();
    assert_eq!(e, BitcoinError::ParseError("Failed to parse arguments".to_string()));
    let e = parse_cli_args(&argv(&["balance", "now"])).unwrap_err();
    assert_eq!(e, BitcoinError::ParseError("Failed to parse arguments".to_string()));
}

#[test]
fn unknown_command_is_reported() {
    let e = parse_cli_args(&argv(&["mine"])).unwrap_err();
    assert_eq!(e, BitcoinError::ParseError("Failed to parse arguments".to_string()));
}
