//! The server's settings as they are read from environment variables and
//! the development port file: the text of a value in, the setting out.

use crate::text::{
    all_digits, decimal, decimal_string, digits_value, is_whitespace, lemma_decimal_digits,
    parse_unsigned, parse_unsigned_spec, push_char, str_eq, trim, trim_end_spec, trim_spec,
    trim_start_spec,
};
use vstd::prelude::*;

verus! {

/// The largest port number.
pub open spec fn max_port() -> int {
    65535
}

/// A port as `str::parse::<u16>` reads it.
pub open spec fn port_spec(text: Seq<char>) -> Option<int> {
    parse_unsigned_spec(text, max_port())
}

/// The port that the `KEHRKRAFT_PORT` value names, if it is a valid port
/// number (`None` means: bind an ephemeral port).
pub fn port_from_value(value: &str) -> (res: Option<u16>)
    ensures
        match res {
            Some(p) => port_spec(value@) == Some(p as int),
            None => port_spec(value@) is None,
        },
{
    match parse_unsigned(value, 65535) {
        Some(v) => Some(v as u16),
        None => None,
    }
}

/// The port a port file holds: its trimmed content as a port number.
pub fn saved_port_from_text(text: &str) -> (res: Option<u16>)
    ensures
        match res {
            Some(p) => port_spec(trim_spec(text@)) == Some(p as int),
            None => port_spec(trim_spec(text@)) is None,
        },
{
    port_from_value(trim(text))
}

/// What a port file holds for `port`: its decimal digits.
pub fn port_file_text(port: u16) -> (res: String)
    ensures
        res@ == decimal(port as nat),
{
    decimal_string(port as u64)
}

/// A port written to the port file reads back as the same port.
pub proof fn law_saved_port_round_trip(port: u16)
    ensures
        port_spec(trim_spec(decimal(port as nat))) == Some(port as int),
{
    let d = decimal(port as nat);
    lemma_decimal_digits(port as nat);
    assert(!is_whitespace(d[0])) by {
        assert(crate::text::is_digit(d[0]));
    }
    assert(!is_whitespace(d[d.len() - 1])) by {
        assert(crate::text::is_digit(d[d.len() - 1]));
    }
    crate::text::lemma_trim_is_subrange(d, 0, d.len() as int);
    assert(d.subrange(0, d.len() as int) =~= d);
    assert(d[0] != '+') by {
        assert(crate::text::is_digit(d[0]));
    }
}

/// ASCII letters `A`–`Z` lowered, every other character kept
/// (`str::to_ascii_lowercase`).
pub open spec fn ascii_lowercase(s: Seq<char>) -> Seq<char> {
    Seq::new(
        s.len(),
        |i: int|
            if 65 <= s[i] as u32 <= 90 {
                ((s[i] as u32) + 32) as char
            } else {
                s[i]
            },
    )
}

fn to_ascii_lowercase(s: &str) -> (res: String)
    ensures
        res@ == ascii_lowercase(s@),
{
    let n = s.unicode_len();
    let mut out = String::new();
    let mut i: usize = 0;
    while i < n
        invariant
            n == s@.len(),
            i <= n,
            out@ == ascii_lowercase(s@).subrange(0, i as int),
        decreases n - i,
    {
        let c = s.get_char(i);
        let v = c as u32;
        if 65 <= v && v <= 90 {
            let lower = ((v + 32) as u8) as char;
            assert(lower == ((v + 32) as char));
            push_char(&mut out, lower);
        } else {
            push_char(&mut out, c);
        }
        assert(out@ =~= ascii_lowercase(s@).subrange(0, i + 1));
        i = i + 1;
    }
    assert(ascii_lowercase(s@).subrange(0, n as int) =~= ascii_lowercase(s@));
    out
}

/// Whether a `KEHRKRAFT_DEMO_MODE` value switches demo mode on: trimmed and
/// lowercased, it is `true`, `1`, `yes` or `on`; an unset variable means
/// off.
pub open spec fn demo_mode_spec(value: Option<Seq<char>>) -> bool {
    match value {
        None => false,
        Some(v) => {
            let t = ascii_lowercase(trim_spec(v));
            t == "true"@ || t == "1"@ || t == "yes"@ || t == "on"@
        },
    }
}

/// Whether the `KEHRKRAFT_DEMO_MODE` value (if the variable is set)
/// switches demo mode on. Demo mode disables authentication and shows a
/// "Demo Mode" banner.
pub fn demo_mode_from_value(value: Option<&str>) -> (res: bool)
    ensures
        res == demo_mode_spec(
            match value {
                Some(v) => Some(v@),
                None => None,
            },
        ),
{
    match value {
        None => false,
        Some(v) => {
            let lowered = to_ascii_lowercase(trim(v));
            let t = lowered.as_str();
            str_eq(t, "true") || str_eq(t, "1") || str_eq(t, "yes") || str_eq(t, "on")
        },
    }
}

// ---------------------------------------------------------------------------
// Binding the listener

/// How often the saved development port is tried before an ephemeral port
/// is taken instead (the previous instance may still be shutting down).
pub const SAVED_PORT_ATTEMPTS: u32 = 5;

/// Milliseconds to wait between two attempts on the saved port.
pub const SAVED_PORT_RETRY_DELAY_MS: u64 = 200;

/// Which port the server tries to bind next.
#[derive(Debug, Clone, Copy, PartialEq, Eq, Structural)]
pub enum BindState {
    /// The port that `KEHRKRAFT_PORT` names; a failure there is final.
    Configured { port: u16 },
    /// The port saved by a previous run, on the given attempt (from 1).
    Saved { port: u16, attempt: u32 },
    /// Port 0: the system assigns a free port, which is then saved.
    Ephemeral,
}

/// What to do after a failed bind.
#[derive(Debug, Clone, Copy, PartialEq, Eq, Structural)]
pub enum BindRetry {
    /// Wait [`SAVED_PORT_RETRY_DELAY_MS`], then try the next state.
    WaitThen(BindState),
    /// Try the next state at once.
    Then(BindState),
    /// Give up and report the error.
    GiveUp,
}

/// The first port to try: the configured one, else the saved one, else an
/// ephemeral port.
pub fn bind_start(configured: Option<u16>, saved: Option<u16>) -> (res: BindState)
    ensures
        configured matches Some(p) ==> res == (BindState::Configured { port: p }),
        configured is None ==> (saved matches Some(p) ==> res == (BindState::Saved {
            port: p,
            attempt: 1,
        })),
        (configured is None && saved is None) ==> res == (BindState::Ephemeral),
{
    match configured {
        Some(port) => BindState::Configured { port },
        None => match saved {
            Some(port) => BindState::Saved { port, attempt: 1 },
            None => BindState::Ephemeral,
        },
    }
}

/// The port number a state binds (0 asks the system for a free one).
pub fn bind_port(state: BindState) -> (res: u16)
    ensures
        res == match state {
            BindState::Configured { port } => port,
            BindState::Saved { port, .. } => port,
            BindState::Ephemeral => 0,
        },
{
    match state {
        BindState::Configured { port } => port,
        BindState::Saved { port, .. } => port,
        BindState::Ephemeral => 0,
    }
}

/// After a failed bind: the saved port is retried after a short wait until
/// its fifth attempt, then an ephemeral port is taken; a configured or an
/// ephemeral port that cannot be bound is an error.
pub fn after_bind_failure(state: BindState) -> (res: BindRetry)
    requires
        state matches BindState::Saved { attempt, .. } ==> 1 <= attempt <= SAVED_PORT_ATTEMPTS,
    ensures
        match state {
            BindState::Configured { .. } => res == BindRetry::GiveUp,
            BindState::Ephemeral => res == BindRetry::GiveUp,
            BindState::Saved { port, attempt } => if attempt < SAVED_PORT_ATTEMPTS {
                res == BindRetry::WaitThen(BindState::Saved { port, attempt: (attempt + 1) as u32 })
            } else {
                res == BindRetry::Then(BindState::Ephemeral)
            },
        },
{
    match state {
        BindState::Configured { .. } => BindRetry::GiveUp,
        BindState::Ephemeral => BindRetry::GiveUp,
        BindState::Saved { port, attempt } => {
            if attempt < SAVED_PORT_ATTEMPTS {
                BindRetry::WaitThen(BindState::Saved { port, attempt: attempt + 1 })
            } else {
                BindRetry::Then(BindState::Ephemeral)
            }
        },
    }
}

/// Whether the port a successful bind got is to be saved for the next
/// start: only a system-assigned one is.
pub fn save_bound_port(state: BindState) -> (res: bool)
    ensures
        res == (state == (BindState::Ephemeral)),
{
    match state {
        BindState::Ephemeral => true,
        _ => false,
    }
}

/// The state after `k` failed binds on the saved port, starting from its
/// first attempt.
pub open spec fn saved_after_failures(port: u16, k: nat) -> BindState
    decreases k,
{
    if k == 0 {
        BindState::Saved { port, attempt: 1 }
    } else {
        match saved_after_failures(port, (k - 1) as nat) {
            BindState::Saved { port: p, attempt } => if attempt < SAVED_PORT_ATTEMPTS {
                BindState::Saved { port: p, attempt: (attempt + 1) as u32 }
            } else {
                BindState::Ephemeral
            },
            other => other,
        }
    }
}

/// A busy saved port is tried exactly five times: after `k < 5` failures
/// the next attempt is attempt `k + 1`, and the fifth failure moves on to an
/// ephemeral port.
pub proof fn law_saved_port_tried_five_times(port: u16, k: nat)
    requires
        k <= 5,
    ensures
        k < 5 ==> saved_after_failures(port, k) == (BindState::Saved {
            port,
            attempt: (k + 1) as u32,
        }),
        k == 5 ==> saved_after_failures(port, k) == (BindState::Ephemeral),
    decreases k,
{
    if k > 0 {
        law_saved_port_tried_five_times(port, (k - 1) as nat);
    }
}

} // verus!
