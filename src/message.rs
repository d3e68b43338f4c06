use vstd::prelude::*;
use vstd::string::StringExecFns;

use crate::event::{Event, EventKind, HealthState, Severity};

verus! {

pub open spec fn digit_char(d: nat) -> char {
    if d == 0 {
        '0'
    } else if d == 1 {
        '1'
    } else if d == 2 {
        '2'
    } else if d == 3 {
        '3'
    } else if d == 4 {
        '4'
    } else if d == 5 {
        '5'
    } else if d == 6 {
        '6'
    } else if d == 7 {
        '7'
    } else if d == 8 {
        '8'
    } else {
        '9'
    }
}

/// The decimal digits of `n`, most significant first, without leading zeros.
pub open spec fn decimal(n: nat) -> Seq<char>
    decreases n,
{
    if n < 10 {
        seq![digit_char(n)]
    } else {
        decimal(n / 10).push(digit_char(n % 10))
    }
}

/// The decimal text of a signed value.
pub open spec fn signed_decimal(v: int) -> Seq<char> {
    if v < 0 {
        seq!['-'] + decimal((-v) as nat)
    } else {
        decimal(v as nat)
    }
}

fn digit_str(d: u64) -> (r: &'static str)
    requires
        d < 10,
    ensures
        r@ == seq![digit_char(d as nat)],
{
    proof {
        reveal_strlit("0");
        reveal_strlit("1");
        reveal_strlit("2");
        reveal_strlit("3");
        reveal_strlit("4");
        reveal_strlit("5");
        reveal_strlit("6");
        reveal_strlit("7");
        reveal_strlit("8");
        reveal_strlit("9");
    }
    if d == 0 {
        "0"
    } else if d == 1 {
        "1"
    } else if d == 2 {
        "2"
    } else if d == 3 {
        "3"
    } else if d == 4 {
        "4"
    } else if d == 5 {
        "5"
    } else if d == 6 {
        "6"
    } else if d == 7 {
        "7"
    } else if d == 8 {
        "8"
    } else {
        "9"
    }
}

/// Appends the decimal digits of `n`.
pub fn push_decimal(out: &mut String, n: u64)
    ensures
        final(out)@ == old(out)@ + decimal(n as nat),
    decreases n,
{
    let ghost start = out@;
    if n >= 10 {
        push_decimal(out, n / 10);
    }
    let ghost mid = out@;
    out.append(digit_str(n % 10));
    if n >= 10 {
        assert(out@ =~= start + decimal(n as nat));
    } else {
        assert(mid == start);
        assert(out@ =~= start + decimal(n as nat));
    }
}

/// Appends the decimal text of a signed value.
pub fn push_signed(out: &mut String, v: i64)
    ensures
        final(out)@ == old(out)@ + signed_decimal(v as int),
{
    let ghost start = out@;
    if v < 0 {
        proof {
            reveal_strlit("-");
        }
        out.append("-");
        let m: u64 = (-(v as i128)) as u64;
        push_decimal(out, m);
        assert(out@ =~= start + signed_decimal(v as int));
    } else {
        push_decimal(out, v as u64);
    }
}

pub open spec fn severity_text(s: Severity) -> Seq<char> {
    match s {
        Severity::Info => "INFO"@,
        Severity::Warning => "WARNING"@,
        Severity::Critical => "CRITICAL"@,
    }
}

fn severity_label(s: Severity) -> (r: &'static str)
    ensures
        r@ == severity_text(s),
{
    match s {
        Severity::Info => "INFO",
        Severity::Warning => "WARNING",
        Severity::Critical => "CRITICAL",
    }
}

pub open spec fn kind_text(k: EventKind) -> Seq<char> {
    match k {
        EventKind::Breached => "breached"@,
        EventKind::Recovered => "recovered"@,
        EventKind::DataStale => "data stale"@,
        EventKind::StaleCleared => "data fresh again"@,
        EventKind::ActionSuppressed => "mitigation withheld by cooldown"@,
        EventKind::ActionFailed => "mitigation failed, intervention required"@,
        EventKind::ActionConfirmed => "mitigation confirmed"@,
        EventKind::ActionUnconfirmed => "mitigation unconfirmed, intervention required"@,
    }
}

fn kind_label(k: EventKind) -> (r: &'static str)
    ensures
        r@ == kind_text(k),
{
    match k {
        EventKind::Breached => "breached",
        EventKind::Recovered => "recovered",
        EventKind::DataStale => "data stale",
        EventKind::StaleCleared => "data fresh again",
        EventKind::ActionSuppressed => "mitigation withheld by cooldown",
        EventKind::ActionFailed => "mitigation failed, intervention required",
        EventKind::ActionConfirmed => "mitigation confirmed",
        EventKind::ActionUnconfirmed => "mitigation unconfirmed, intervention required",
    }
}

pub open spec fn health_text(h: HealthState) -> Seq<char> {
    match h {
        HealthState::Healthy => "healthy"@,
        HealthState::Breaching => "breaching"@,
        HealthState::Breached => "breached"@,
        HealthState::Recovering => "recovering"@,
    }
}

fn health_label(h: HealthState) -> (r: &'static str)
    ensures
        r@ == health_text(h),
{
    match h {
        HealthState::Healthy => "healthy",
        HealthState::Breaching => "breaching",
        HealthState::Breached => "breached",
        HealthState::Recovering => "recovering",
    }
}

pub open spec fn value_text(v: Option<i64>) -> Seq<char> {
    match v {
        Some(x) => signed_decimal(x as int),
        None => "none"@,
    }
}

/// The notification text of an event of the check named `name`:
/// `SEVERITY name: what (before -> after), value V, at T`.
pub open spec fn message_text(name: Seq<char>, ev: Event) -> Seq<char> {
    severity_text(ev.severity) + " "@ + name + ": "@ + kind_text(ev.kind) + " ("@ + health_text(
        ev.previous,
    ) + " -> "@ + health_text(ev.current) + "), value "@ + value_text(ev.value) + ", at "@
        + decimal(ev.timestamp as nat)
}

/// Formats the human-readable notification of an event.
pub fn render(name: &str, ev: &Event) -> (r: String)
    ensures
        r@ == message_text(name@, *ev),
{
    let mut out = String::new();
    out.append(severity_label(ev.severity));
    out.append(" ");
    out.append(name);
    out.append(": ");
    out.append(kind_label(ev.kind));
    out.append(" (");
    out.append(health_label(ev.previous));
    out.append(" -> ");
    out.append(health_label(ev.current));
    out.append("), value ");
    match ev.value {
        Some(x) => push_signed(&mut out, x),
        None => out.append("none"),
    }
    out.append(", at ");
    push_decimal(&mut out, ev.timestamp);
    assert(out@ =~= message_text(name@, *ev));
    out
}

} // verus!
