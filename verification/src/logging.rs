//! Which `tracing` filter the daemon logs with: `MEERKLY_LOG` — the filter
//! variable the rest of meerkly already uses — then the configuration file's
//! `log`, then `info`, each only if `tracing-subscriber` accepts it.

use vstd::prelude::*;
use crate::text::{is_white_space, opt_view, white_space};

verus! {

/// Whether `tracing_subscriber::EnvFilter` parses `d` as a list of filter
/// directives.
pub uninterp spec fn directive_accepted(d: Seq<char>) -> bool;

/// No `,`-separated piece of `d` starts with white space. tracing-subscriber
/// parses each piece by walking its trimmed text but slicing the untrimmed
/// one, so a piece with leading white space followed by a multi-byte
/// character would be sliced inside that character.
pub open spec fn pieces_start_unblank(d: Seq<char>) -> bool {
    forall|i: int| 0 <= i < d.len() && #[trigger] is_white_space(d[i]) ==> i > 0 && d[i - 1] != ','
}

pub fn pieces_start_unblank_check(d: &str) -> (b: bool)
    ensures
        b == pieces_start_unblank(d@),
{
    let v = crate::text::chars_of(d);
    let n = v.len();
    for i in 0..n
        invariant
            n == v@.len(),
            v@ == d@,
            forall|k: int| 0 <= k < i && #[trigger] is_white_space(d@[k]) ==> k > 0 && d@[k - 1] != ',',
    {
        if white_space(v[i]) && (i == 0 || v[i - 1] == ',') {
            return false;
        }
    }
    true
}

/// `EnvFilter::try_new(d).is_ok()`: whether the directives parse. Which
/// strings the crate's directive grammar accepts is left unsaid. Inputs with
/// a piece that starts with white space are left out: on some of them the
/// parser panics.
#[verifier::external_body]
fn accepts_directive(d: &str) -> (b: bool)
    requires
        pieces_start_unblank(d@),
    ensures
        b == directive_accepted(d@),
{
    tracing_subscriber::EnvFilter::try_new(d).is_ok()
}

/// A filter the daemon may use: one whose pieces the parser can take
/// safely, and that it accepts.
pub open spec fn usable(d: Seq<char>) -> bool {
    pieces_start_unblank(d) && directive_accepted(d)
}

fn usable_directive(d: &str) -> (b: bool)
    ensures
        b == usable(d@),
{
    pieces_start_unblank_check(d) && accepts_directive(d)
}

/// The chosen filter: the environment's if it is set and usable, else the
/// configured one if it is set and usable, else `info`.
pub open spec fn log_directive_spec(env: Option<Seq<char>>, configured: Option<Seq<char>>) -> Seq<
    char,
> {
    match env {
        Some(e) if usable(e) => e,
        _ => match configured {
            Some(c) if usable(c) => c,
            _ => "info"@,
        },
    }
}

pub fn log_directive(env: Option<String>, configured: Option<String>) -> (d: String)
    ensures
        d@ == log_directive_spec(opt_view(env), opt_view(configured)),
{
    if let Some(e) = env {
        if usable_directive(e.as_str()) {
            return e;
        }
    }
    if let Some(c) = configured {
        if usable_directive(c.as_str()) {
            return c;
        }
    }
    String::from_str("info")
}

} // verus!
