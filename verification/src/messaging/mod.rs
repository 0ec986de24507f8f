//! Reports of a reconciliation, and the handler that delivers them.
use vstd::prelude::*;
use vstd::string::*;

pub mod slack;

use crate::cli::options::CliArgs;
use crate::error::FoxsurError;
use crate::text::{decimal, digit_char, push_decimal, push_signed_decimal, signed_decimal};
use slack::Slack;

verus! {

/// The messaging tools that reports can be sent with.
#[derive(Debug, Clone, Copy, PartialEq, Eq, Structural)]
pub enum MessageHandlerKind {
    Slack,
}

/// A messaging tool, set up from the command line arguments.
pub trait Messaging: Sized {
    /// Sets the tool up; fails when the arguments lack its options.
    fn init(opts: &CliArgs) -> Result<Self, FoxsurError>;
}

/// The message handler of the requested kind, set up from `options`.
pub fn get_message_handler(handler: MessageHandlerKind, options: &CliArgs) -> (r: Result<Slack, FoxsurError>)
    ensures
        options.slack is None ==> r == Err::<Slack, FoxsurError>(FoxsurError::SlackOptionsNotFound),
        options.slack matches Some(s) ==> (r matches Ok(h) && h.token() == s.bot_token && h.channel() == s.channel_id),
{
    match handler {
        MessageHandlerKind::Slack => Slack::init(options),
    }
}

/// The text of a report.
pub open spec fn foxsur_message(name: Seq<char>, created: nat, exists: int, not_found: nat) -> Seq<char> {
    "\n        Foxsur report for "@ + name
        + "\n        \u{2022} "@ + decimal(created) + " instruments created"@
        + "\n        \u{2022} "@ + signed_decimal(exists) + " instruments already existing"@
        + "\n        \u{2022} "@ + decimal(not_found) + " unknown assets"@
        + "\n        "@
}

/// Builds the report of a reconciliation of the source `name`: how many instruments
/// were created, how many existed already and how many assets are unknown.
pub fn build_foxsur_message(name: &str, created: usize, exists: i64, not_found: usize) -> (r: String)
    ensures
        r@ == foxsur_message(name@, created as nat, exists as int, not_found as nat),
{
    let mut msg = String::from_str("\n        Foxsur report for ");
    msg.append(name);
    msg.append("\n        \u{2022} ");
    push_decimal(&mut msg, created as u64);
    msg.append(" instruments created");
    msg.append("\n        \u{2022} ");
    push_signed_decimal(&mut msg, exists);
    msg.append(" instruments already existing");
    msg.append("\n        \u{2022} ");
    push_decimal(&mut msg, not_found as u64);
    msg.append(" unknown assets");
    msg.append("\n        ");
    msg
}


/// A decimal digit.
pub open spec fn is_digit(c: char) -> bool {
    '0' <= c && c <= '9'
}

proof fn lemma_decimal_digits(n: nat)
    ensures
        decimal(n).len() >= 1,
        n >= 10 ==> decimal(n).len() >= 2,
        forall|i: int| 0 <= i < decimal(n).len() ==> is_digit(#[trigger] decimal(n)[i]),
    decreases n,
{
    if n >= 10 {
        lemma_decimal_digits(n / 10);
        let d = decimal(n / 10);
        assert forall|i: int| 0 <= i < decimal(n).len() implies is_digit(#[trigger] decimal(n)[i]) by {
            if i < d.len() {
                assert(decimal(n)[i] == d[i]);
            }
        }
    }
}

proof fn lemma_decimal_injective(a: nat, b: nat)
    requires
        decimal(a) == decimal(b),
    ensures
        a == b,
    decreases a,
{
    lemma_decimal_digits(a);
    lemma_decimal_digits(b);
    if a < 10 && b < 10 {
        assert(decimal(a)[0] == digit_char(a));
        assert(decimal(b)[0] == digit_char(b));
    } else if a < 10 || b < 10 {
    } else {
        assert(decimal(a).drop_last() == decimal(a / 10));
        assert(decimal(b).drop_last() == decimal(b / 10));
        lemma_decimal_injective(a / 10, b / 10);
        let ka = decimal(a).len() - 1;
        assert(decimal(a)[ka] == digit_char(a % 10));
        assert(decimal(b)[ka] == digit_char(b % 10));
    }
}

proof fn lemma_signed_decimal(i: int)
    ensures
        signed_decimal(i).len() >= 1,
        forall|k: int| 0 <= k < signed_decimal(i).len() ==> #[trigger] signed_decimal(i)[k] != ' ',
        i < 0 <==> signed_decimal(i)[0] == '-',
{
    if i < 0 {
        lemma_decimal_digits((-i) as nat);
        assert forall|k: int| 0 <= k < signed_decimal(i).len() implies #[trigger] signed_decimal(i)[k] != ' ' by {
            if k > 0 {
                assert(signed_decimal(i)[k] == decimal((-i) as nat)[k - 1]);
            }
        }
    } else {
        lemma_decimal_digits(i as nat);
        assert(is_digit(decimal(i as nat)[0]));
    }
}

proof fn lemma_signed_decimal_injective(a: int, b: int)
    requires
        signed_decimal(a) == signed_decimal(b),
    ensures
        a == b,
{
    lemma_signed_decimal(a);
    lemma_signed_decimal(b);
    if a < 0 && b < 0 {
        assert(signed_decimal(a).drop_first() =~= decimal((-a) as nat));
        assert(signed_decimal(b).drop_first() =~= decimal((-b) as nat));
        lemma_decimal_injective((-a) as nat, (-b) as nat);
    } else if a >= 0 && b >= 0 {
        lemma_decimal_injective(a as nat, b as nat);
    }
}

/// Two texts that each run without a space up to a space split at the same place.
proof fn lemma_split_before_space(x1: Seq<char>, y1: Seq<char>, x2: Seq<char>, y2: Seq<char>)
    requires
        x1 + y1 == x2 + y2,
        forall|i: int| 0 <= i < x1.len() ==> #[trigger] x1[i] != ' ',
        forall|i: int| 0 <= i < x2.len() ==> #[trigger] x2[i] != ' ',
        y1.len() > 0 && y1[0] == ' ',
        y2.len() > 0 && y2[0] == ' ',
    ensures
        x1 == x2,
        y1 == y2,
{
    let t = x1 + y1;
    if x1.len() < x2.len() {
        assert(t[x1.len() as int] == y1[0]);
        assert((x2 + y2)[x1.len() as int] == x2[x1.len() as int]);
    } else if x2.len() < x1.len() {
        assert((x2 + y2)[x2.len() as int] == y2[0]);
        assert(t[x2.len() as int] == x1[x2.len() as int]);
    } else {
        assert(x1 =~= t.take(x1.len() as int));
        assert(x2 =~= (x2 + y2).take(x2.len() as int));
        assert(y1 =~= t.skip(x1.len() as int));
        assert(y2 =~= (x2 + y2).skip(x2.len() as int));
    }
}

proof fn lemma_drop_common_prefix(p: Seq<char>, a: Seq<char>, b: Seq<char>)
    requires
        p + a == p + b,
    ensures
        a == b,
{
    assert(a =~= (p + a).skip(p.len() as int));
    assert(b =~= (p + b).skip(p.len() as int));
}

/// Two reports of the same source are equal exactly when they give the same counts of
/// created instruments, existing instruments and unknown assets.
pub proof fn law_report_determines_counts(
    name: Seq<char>,
    c1: nat,
    e1: int,
    n1: nat,
    c2: nat,
    e2: int,
    n2: nat,
)
    ensures
        foxsur_message(name, c1, e1, n1) == foxsur_message(name, c2, e2, n2)
            <==> (c1 == c2 && e1 == e2 && n1 == n2),
{
    let a = "\n        Foxsur report for "@ + name + "\n        \u{2022} "@;
    let b = " instruments created"@ + "\n        \u{2022} "@;
    let c = " instruments already existing"@ + "\n        \u{2022} "@;
    let e = " unknown assets"@ + "\n        "@;
    reveal_strlit(" instruments created");
    reveal_strlit(" instruments already existing");
    reveal_strlit(" unknown assets");
    assert(b[0] == ' ');
    assert(c[0] == ' ');
    assert(e[0] == ' ');
    let r3_1 = decimal(n1) + e;
    let r3_2 = decimal(n2) + e;
    let r2_1 = signed_decimal(e1) + (c + r3_1);
    let r2_2 = signed_decimal(e2) + (c + r3_2);
    let r1_1 = decimal(c1) + (b + r2_1);
    let r1_2 = decimal(c2) + (b + r2_2);
    assert(foxsur_message(name, c1, e1, n1) =~= a + r1_1);
    assert(foxsur_message(name, c2, e2, n2) =~= a + r1_2);
    if foxsur_message(name, c1, e1, n1) == foxsur_message(name, c2, e2, n2) {
        lemma_decimal_digits(c1);
        lemma_decimal_digits(c2);
        lemma_decimal_digits(n1);
        lemma_decimal_digits(n2);
        lemma_signed_decimal(e1);
        lemma_signed_decimal(e2);
        assert forall|i: int| 0 <= i < decimal(c1).len() implies #[trigger] decimal(c1)[i] != ' ' by {
            assert(is_digit(decimal(c1)[i]));
        }
        assert forall|i: int| 0 <= i < decimal(c2).len() implies #[trigger] decimal(c2)[i] != ' ' by {
            assert(is_digit(decimal(c2)[i]));
        }
        assert forall|i: int| 0 <= i < decimal(n1).len() implies #[trigger] decimal(n1)[i] != ' ' by {
            assert(is_digit(decimal(n1)[i]));
        }
        assert forall|i: int| 0 <= i < decimal(n2).len() implies #[trigger] decimal(n2)[i] != ' ' by {
            assert(is_digit(decimal(n2)[i]));
        }
        lemma_drop_common_prefix(a, r1_1, r1_2);
        assert((b + r2_1)[0] == ' ');
        assert((b + r2_2)[0] == ' ');
        lemma_split_before_space(decimal(c1), b + r2_1, decimal(c2), b + r2_2);
        lemma_decimal_injective(c1, c2);
        lemma_drop_common_prefix(b, r2_1, r2_2);
        assert((c + r3_1)[0] == ' ');
        assert((c + r3_2)[0] == ' ');
        lemma_split_before_space(signed_decimal(e1), c + r3_1, signed_decimal(e2), c + r3_2);
        lemma_signed_decimal_injective(e1, e2);
        lemma_drop_common_prefix(c, r3_1, r3_2);
        lemma_split_before_space(decimal(n1), e, decimal(n2), e);
        lemma_decimal_injective(n1, n2);
    }
}

} // verus!
