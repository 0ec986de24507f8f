use foxsur::cli::options::{CliArgs, DatabaseOpts, SlackOpts};
use foxsur::error::FoxsurError;
use foxsur::messaging::slack::Slack;
use foxsur::messaging::{build_foxsur_message, get_message_handler, MessageHandlerKind, Messaging};

fn s(t: &str) -> String {
    t.to_string()
}

fn args(slack: Option<SlackOpts>) -> CliArgs {
    CliArgs {
        max_con: 10,
        auto_map: true,
        database: DatabaseOpts { host: s("localhost"), username: s("u"), password: s("p"), database: s("foxsur") },
        source: s("paxos"),
        slack,
    }
}

#[test]
fn report_lists_the_three_counts() {
    let msg = build_foxsur_message("Paxos", 3, 12, 1);
    let expected = format!(
        r#"
        Foxsur report for {}
        • {} instruments created
        • {} instruments already existing
        • {} unknown assets
        "#,
        "Paxos", 3, 12, 1
    );
    assert_eq!(msg, expected);
}

#[test]
fn report_with_large_and_negative_counts() {
    let msg = build_foxsur_message("x", usize::MAX, -7, 0);
    let expected = format!(
        "\n        Foxsur report for x\n        \u{2022} {} instruments created\n        \u{2022} -7 instruments already existing\n        \u{2022} 0 unknown assets\n        ",
        usize::MAX
    );
    assert_eq!(msg, expected);
}

#[test]
fn slack_handler_needs_slack_options() {
    let r = get_message_handler(MessageHandlerKind::Slack, &args(None));
    assert!(matches!(r, Err(FoxsurError::SlackOptionsNotFound)));
    assert!(matches!(Slack::init(&args(None)), Err(FoxsurError::SlackOptionsNotFound)));
}

#[test]
fn slack_handler_posts_with_the_bot_token() {
    let opts = args(Some(SlackOpts { bot_token: s("SECRET-REDACTED"), channel_id: s("C42") }));
    let h = get_message_handler(MessageHandlerKind::Slack, &opts).unwrap();
    assert_eq!(h.channel_id(), "C42");
    assert_eq!(h.authorization(), "Bearer SECRET-REDACTED");
}

#[test]
fn reports_with_different_counts_differ() {
    let base = build_foxsur_message("Paxos", 1, 2, 3);
    assert_eq!(base, build_foxsur_message("Paxos", 1, 2, 3));
    assert_ne!(base, build_foxsur_message("Paxos", 12, 2, 3));
    assert_ne!(base, build_foxsur_message("Paxos", 1, -2, 3));
    assert_ne!(base, build_foxsur_message("Paxos", 1, 2, 30));
    assert_ne!(build_foxsur_message("Paxos", 11, 2, 3), build_foxsur_message("Paxos", 1, 12, 3));
    let created = base.find("1 instruments created").unwrap();
    let existing = base.find("2 instruments already existing").unwrap();
    let unknown = base.find("3 unknown assets").unwrap();
    assert!(base.find("Foxsur report for Paxos").unwrap() < created);
    assert!(created < existing && existing < unknown);
}
