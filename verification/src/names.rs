//! Derivations from a deployment name.
//!
//! A deployment name deterministically derives the lock marker file name, the
//! name of the not-yet-promoted "next" container, the proxy upstream record
//! id, the per-service env file path, and — together with a resolved IP and a
//! port — the dial target the proxy is repointed to.

use vstd::prelude::*;
use vstd::string::StringExecFns;

verus! {

/// Lock marker file name for a deployment: `.{name}_deploy_lock`.
pub open spec fn lock_marker_spec(name: Seq<char>) -> Seq<char> {
    "."@ + name + "_deploy_lock"@
}

/// Name of the in-flight replacement container: `{name}_next`.
pub open spec fn next_container_spec(name: Seq<char>) -> Seq<char> {
    name + "_next"@
}

/// Proxy upstream record id: `{name}_upstream`.
pub open spec fn upstream_id_spec(name: Seq<char>) -> Seq<char> {
    name + "_upstream"@
}

/// Per-service env file path: `/home/deploy/.{name}.env`.
pub open spec fn env_file_spec(name: Seq<char>) -> Seq<char> {
    "/home/deploy/."@ + name + ".env"@
}

/// The character for a single decimal digit.
pub open spec fn digit_char(d: nat) -> char {
    if d == 0 {
        '0'
    } else if d == 1 {
        '1'
    } else if d == 2 {
        '2'
    } else if d == 3 {
        '3'
    } else if d == 4 {
        '4'
    } else if d == 5 {
        '5'
    } else if d == 6 {
        '6'
    } else if d == 7 {
        '7'
    } else if d == 8 {
        '8'
    } else {
        '9'
    }
}

/// The decimal digits of `n`, most significant first.
pub open spec fn dec_digits(n: nat) -> Seq<char>
    decreases n,
{
    if n < 10 {
        seq![digit_char(n)]
    } else {
        dec_digits(n / 10).push(digit_char(n % 10))
    }
}

/// Decimal rendering of an integer, with a leading `-` when negative.
pub open spec fn dec_int(p: int) -> Seq<char> {
    if p < 0 {
        seq!['-'] + dec_digits((-p) as nat)
    } else {
        dec_digits(p as nat)
    }
}

/// Dial target for the proxy upstream record: `{ip}:{port}`.
pub open spec fn dial_spec(ip: Seq<char>, port: int) -> Seq<char> {
    ip + ":"@ + dec_int(port)
}

pub fn lock_marker_name(name: &str) -> (r: String)
    ensures
        r@ == lock_marker_spec(name@),
{
    let mut s = String::from_str(".");
    s.append(name);
    s.append("_deploy_lock");
    proof {
        assert(s@ =~= lock_marker_spec(name@));
    }
    s
}

pub fn next_container_name(name: &str) -> (r: String)
    ensures
        r@ == next_container_spec(name@),
{
    let mut s = String::from_str(name);
    s.append("_next");
    s
}

pub fn upstream_id(name: &str) -> (r: String)
    ensures
        r@ == upstream_id_spec(name@),
{
    let mut s = String::from_str(name);
    s.append("_upstream");
    s
}

pub fn env_file_path(name: &str) -> (r: String)
    ensures
        r@ == env_file_spec(name@),
{
    let mut s = String::from_str("/home/deploy/.");
    s.append(name);
    s.append(".env");
    proof {
        assert(s@ =~= env_file_spec(name@));
    }
    s
}

/// The one-character string for a decimal digit.
fn digit_str(d: u64) -> (r: &'static str)
    requires
        d < 10,
    ensures
        r@ == seq![digit_char(d as nat)],
{
    proof {
        reveal_strlit("0");
        reveal_strlit("1");
        reveal_strlit("2");
        reveal_strlit("3");
        reveal_strlit("4");
        reveal_strlit("5");
        reveal_strlit("6");
        reveal_strlit("7");
        reveal_strlit("8");
        reveal_strlit("9");
    }
    let r = match d {
        0 => "0",
        1 => "1",
        2 => "2",
        3 => "3",
        4 => "4",
        5 => "5",
        6 => "6",
        7 => "7",
        8 => "8",
        _ => "9",
    };
    proof {
        assert(r@ =~= seq![digit_char(d as nat)]);
    }
    r
}

/// Appends the decimal digits of `n` to `out`.
fn push_dec(out: &mut String, n: u64)
    ensures
        final(out)@ == old(out)@ + dec_digits(n as nat),
    decreases n,
{
    if n >= 10 {
        push_dec(out, n / 10);
        out.append(digit_str(n % 10));
        proof {
            assert(out@ =~= old(out)@ + dec_digits(n as nat));
        }
    } else {
        out.append(digit_str(n));
        proof {
            assert(out@ =~= old(out)@ + dec_digits(n as nat));
        }
    }
}

pub fn dial_target(ip: &str, port: i32) -> (r: String)
    ensures
        r@ == dial_spec(ip@, port as int),
{
    let mut s = String::from_str(ip);
    s.append(":");
    if port < 0 {
        let mag: u64 = (-(port as i64)) as u64;
        s.append("-");
        push_dec(&mut s, mag);
        proof {
            reveal_strlit("-");
            assert(mag as nat == (-(port as int)) as nat);
            assert(s@ =~= dial_spec(ip@, port as int));
        }
    } else {
        push_dec(&mut s, port as u64);
        proof {
            assert(s@ =~= dial_spec(ip@, port as int));
        }
    }
    s
}

} // verus!
