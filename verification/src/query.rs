//! Classifying a user's request and assembling the resolver's
//! command-line arguments.
//!
//! The resolver itself is an external process; what is computed here is
//! everything that can be decided from the request and the configured
//! workarounds alone: whether the request is a direct URL or a search
//! query, and the exact extra arguments the workarounds call for.

use vstd::prelude::*;

use crate::config::MusicPlayerWorkarounds;

verus! {

/// A request is a direct URL when it starts with `http` and contains
/// no space; anything else is a search query.
pub open spec fn spec_is_direct_url(s: Seq<char>) -> bool {
    &&& s.len() >= 4
    &&& s[0] == 'h'
    &&& s[1] == 't'
    &&& s[2] == 't'
    &&& s[3] == 'p'
    &&& !s.contains(' ')
}

/// Decides whether the request is a direct URL or a search query.
pub fn is_direct_url(query: &str) -> (r: bool)
    ensures
        r == spec_is_direct_url(query@),
{
    let n = query.unicode_len();
    if n < 4 {
        return false;
    }
    if query.get_char(0) != 'h' || query.get_char(1) != 't' || query.get_char(2) != 't'
        || query.get_char(3) != 'p' {
        return false;
    }
    let mut i: usize = 0;
    while i < n
        invariant
            0 <= i <= n,
            n == query@.len(),
            forall|j: int| 0 <= j < i ==> query@[j] != ' ',
        decreases n - i,
    {
        if query.get_char(i) == ' ' {
            proof {
                assert(query@.contains(' '));
            }
            return false;
        }
        i += 1;
    }
    true
}

/// The decimal digit characters, least significant last, of a number.
pub open spec fn spec_decimal(n: nat) -> Seq<char>
    decreases n,
{
    if n < 10 {
        seq![spec_digit_char(n)]
    } else {
        spec_decimal(n / 10).push(spec_digit_char(n % 10))
    }
}

/// The character for one decimal digit.
pub open spec fn spec_digit_char(d: nat) -> char {
    if d == 0 {
        '0'
    } else if d == 1 {
        '1'
    } else if d == 2 {
        '2'
    } else if d == 3 {
        '3'
    } else if d == 4 {
        '4'
    } else if d == 5 {
        '5'
    } else if d == 6 {
        '6'
    } else if d == 7 {
        '7'
    } else if d == 8 {
        '8'
    } else {
        '9'
    }
}

/// Appends the character of one decimal digit to a string.
fn push_digit(s: &mut String, d: u16)
    requires
        d < 10,
    ensures
        final(s)@ == old(s)@ + seq![spec_digit_char(d as nat)],
{
    proof {
        reveal_strlit("0");
        reveal_strlit("1");
        reveal_strlit("2");
        reveal_strlit("3");
        reveal_strlit("4");
        reveal_strlit("5");
        reveal_strlit("6");
        reveal_strlit("7");
        reveal_strlit("8");
        reveal_strlit("9");
    }
    match d {
        0 => s.append("0"),
        1 => s.append("1"),
        2 => s.append("2"),
        3 => s.append("3"),
        4 => s.append("4"),
        5 => s.append("5"),
        6 => s.append("6"),
        7 => s.append("7"),
        8 => s.append("8"),
        _ => s.append("9"),
    }
}

/// Appends the decimal form of a number to a string.
fn append_decimal(s: &mut String, n: u16)
    ensures
        final(s)@ == old(s)@ + spec_decimal(n as nat),
    decreases n,
{
    if n < 10 {
        push_digit(s, n);
    } else {
        append_decimal(s, n / 10);
        push_digit(s, n % 10);
        proof {
            assert(old(s)@ + spec_decimal((n / 10) as nat) + seq![
                spec_digit_char((n % 10) as nat),
            ] =~= old(s)@ + spec_decimal(n as nat));
        }
    }
}

/// The first extractor argument a proof-of-origin-token server needs.
pub open spec fn spec_pot_flag() -> Seq<char> {
    "--extractor-args"@
}

/// The second extractor argument: the token server's base URL on the
/// local host, ending in the configured port.
pub open spec fn spec_pot_value(port: u16) -> Seq<char> {
    "youtube:getpot_bgutil_baseurl=http://127.0.0.1:"@ + spec_decimal(port as nat)
}

/// The first cookie argument.
pub open spec fn spec_cookies_flag() -> Seq<char> {
    "--cookies"@
}

/// The extra resolver arguments the configured workarounds call for:
/// the token-server pair when that workaround is on, then the cookie
/// pair when that one is, each value filled in from the configuration.
pub open spec fn spec_resolver_args(w: MusicPlayerWorkarounds) -> Seq<Seq<char>> {
    let pot: Seq<Seq<char>> = if w.ytdl_use_pot {
        seq![spec_pot_flag(), spec_pot_value(w.ytdl_pot_server_port)]
    } else {
        Seq::empty()
    };
    let cookies: Seq<Seq<char>> = if w.ytdl_use_cookies {
        seq![spec_cookies_flag(), w.ytdl_cookies_path@]
    } else {
        Seq::empty()
    };
    pot + cookies
}

/// Assembles the extra resolver arguments, exactly as the workarounds
/// configuration dictates.
pub fn resolver_args(w: &MusicPlayerWorkarounds) -> (args: Vec<String>)
    ensures
        args.deep_view() == spec_resolver_args(*w),
{
    let mut args: Vec<String> = Vec::new();
    if w.ytdl_use_pot {
        args.push("--extractor-args".to_owned());
        let mut value = "youtube:getpot_bgutil_baseurl=http://127.0.0.1:".to_owned();
        append_decimal(&mut value, w.ytdl_pot_server_port);
        args.push(value);
    }
    if w.ytdl_use_cookies {
        args.push("--cookies".to_owned());
        args.push(w.ytdl_cookies_path.clone());
    }
    proof {
        assert(args.deep_view() =~= spec_resolver_args(*w));
    }
    args
}

} // verus!
