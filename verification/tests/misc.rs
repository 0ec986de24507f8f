use foxsur::error::FoxsurError;
use foxsur::options::{DatabaseOpts, Opts};

#[test]
fn default_options() {
    let o = Opts::default();
    assert_eq!(o.max_con, 5);
    assert!(o.database.is_none());
    assert!(o.auto_map);
    let d = DatabaseOpts::default();
    assert_eq!(d.host, "");
    assert_eq!(d.database, "");
}

#[test]
fn error_messages() {
    assert_eq!(FoxsurError::SourceNotFound.describe(), "Source not found");
    assert_eq!(FoxsurError::SlackOptionsNotFound.describe(), "Slack options not found");
    assert_eq!(FoxsurError::NoMarkets.describe(), "No markets found");
    assert_eq!(FoxsurError::NoResult.describe(), "No result found");
    assert_eq!(FoxsurError::InvalidRegex("bad pattern".to_string()).describe(), "bad pattern");
}
