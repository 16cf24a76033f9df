//! Rendering one audit record as a fixed-width text line: verdict label,
//! identity display names with a numeric fallback, path decoding with a
//! placeholder, and column padding.

use vstd::prelude::*;

use crate::event::SuidEvent;

verus! {

pub open spec fn spec_digit_char(d: int) -> char {
    if d == 0 {
        '0'
    } else if d == 1 {
        '1'
    } else if d == 2 {
        '2'
    } else if d == 3 {
        '3'
    } else if d == 4 {
        '4'
    } else if d == 5 {
        '5'
    } else if d == 6 {
        '6'
    } else if d == 7 {
        '7'
    } else if d == 8 {
        '8'
    } else {
        '9'
    }
}

/// The usual decimal numeral of a non-negative integer, most significant
/// digit first.
pub open spec fn spec_decimal(n: int) -> Seq<char>
    recommends
        n >= 0,
    decreases n,
{
    if n < 10 {
        seq![spec_digit_char(n)]
    } else {
        spec_decimal(n / 10).push(spec_digit_char(n % 10))
    }
}

fn digit_str(d: u32) -> (r: &'static str)
    requires
        d < 10,
    ensures
        r@ == seq![spec_digit_char(d as int)],
{
    proof {
        reveal_strlit("0");
        reveal_strlit("1");
        reveal_strlit("2");
        reveal_strlit("3");
        reveal_strlit("4");
        reveal_strlit("5");
        reveal_strlit("6");
        reveal_strlit("7");
        reveal_strlit("8");
        reveal_strlit("9");
    }
    if d == 0 {
        proof {
            assert("0"@ =~= seq![spec_digit_char(0)]);
        }
        "0"
    } else if d == 1 {
        proof {
            assert("1"@ =~= seq![spec_digit_char(1)]);
        }
        "1"
    } else if d == 2 {
        proof {
            assert("2"@ =~= seq![spec_digit_char(2)]);
        }
        "2"
    } else if d == 3 {
        proof {
            assert("3"@ =~= seq![spec_digit_char(3)]);
        }
        "3"
    } else if d == 4 {
        proof {
            assert("4"@ =~= seq![spec_digit_char(4)]);
        }
        "4"
    } else if d == 5 {
        proof {
            assert("5"@ =~= seq![spec_digit_char(5)]);
        }
        "5"
    } else if d == 6 {
        proof {
            assert("6"@ =~= seq![spec_digit_char(6)]);
        }
        "6"
    } else if d == 7 {
        proof {
            assert("7"@ =~= seq![spec_digit_char(7)]);
        }
        "7"
    } else if d == 8 {
        proof {
            assert("8"@ =~= seq![spec_digit_char(8)]);
        }
        "8"
    } else {
        proof {
            assert("9"@ =~= seq![spec_digit_char(9)]);
        }
        "9"
    }
}

/// Render an identifier as its decimal numeral.
pub fn u32_to_string(x: u32) -> (s: String)
    ensures
        s@ == spec_decimal(x as int),
    decreases x,
{
    if x < 10 {
        let d = digit_str(x);
        d.to_owned()
    } else {
        proof {
            assert(x / 10 < x);
        }
        let mut s = u32_to_string(x / 10);
        let d = digit_str(x % 10);
        s.append(d);
        proof {
            assert(spec_decimal((x / 10) as int).push(spec_digit_char((x % 10) as int)) =~=
                spec_decimal((x / 10) as int) + seq![spec_digit_char((x % 10) as int)]);
        }
        s
    }
}

/// The display name of an identity: the resolved name when the lookup
/// found one, the decimal identifier otherwise.
pub fn display_name(name: Option<String>, id: u32) -> (r: String)
    ensures
        (match name {
            Some(n) => r@ == n@,
            None => r@ == spec_decimal(id as int),
        }),
{
    match name {
        Some(n) => n,
        None => u32_to_string(id),
    }
}

pub open spec fn spec_decision_label(denied: bool) -> Seq<char> {
    if denied {
        "DENIED"@
    } else {
        "ALLOWED"@
    }
}

/// The verdict column of the audit line.
pub fn decision_label(denied: bool) -> (r: &'static str)
    ensures
        r@ == spec_decision_label(denied),
{
    if denied {
        "DENIED"
    } else {
        "ALLOWED"
    }
}

/// What decoding a byte buffer as text yields, if anything.
/// The name stands for `String::from_utf8`, whose result is a function of
/// the bytes alone.
pub uninterp spec fn utf8_decode(bytes: Seq<u8>) -> Option<Seq<char>>;

/// Relies on `String::from_utf8`: turns the buffer's bytes into text, or
/// reports that they are not valid UTF-8; the outcome depends on the bytes
/// alone.
#[verifier::external_body]
fn bytes_to_utf8(bytes: &Vec<u8>) -> (r: Option<String>)
    ensures
        (match r {
            Some(s) => utf8_decode(bytes@) == Some(s@),
            None => utf8_decode(bytes@) is None,
        }),
{
    String::from_utf8(bytes.clone()).ok()
}

/// The path column: the buffer decoded as text, or a placeholder when the
/// bytes do not decode.
pub open spec fn spec_decoded_path(bytes: Seq<u8>) -> Seq<char> {
    match utf8_decode(bytes) {
        Some(s) => s,
        None => "Unknown"@,
    }
}

/// Decode a record's path buffer, substituting a placeholder on failure.
pub fn decode_path(path: &Vec<u8>) -> (s: String)
    ensures
        s@ == spec_decoded_path(path@),
{
    match bytes_to_utf8(path) {
        Some(s) => s,
        None => "Unknown".to_owned(),
    }
}

pub open spec fn spec_spaces(n: int) -> Seq<char>
    decreases n,
{
    if n <= 0 {
        Seq::empty()
    } else {
        spec_spaces(n - 1).push(' ')
    }
}

/// A column of width `w`: the text itself, space-filled on the right up to
/// `w`; text already `w` or wider stays as it is.
pub open spec fn spec_pad(s: Seq<char>, w: int) -> Seq<char> {
    s + spec_spaces(w - s.len())
}

/// Left-align `s` in a column of `width` characters.
pub fn padded(s: &str, width: usize) -> (t: String)
    ensures
        t@ == spec_pad(s@, width as int),
{
    let mut t = s.to_owned();
    let mut n = t.unicode_len();
    proof {
        assert(t@ =~= s@ + spec_spaces(0));
    }
    while n < width
        invariant
            n == t@.len(),
            s@.len() <= t@.len(),
            t@ == s@ + spec_spaces(t@.len() - s@.len()),
            s@.len() >= width ==> t@.len() == s@.len(),
            s@.len() < width ==> t@.len() <= width,
        decreases width - n,
    {
        t.append(" ");
        proof {
            reveal_strlit(" ");
            assert(" "@ =~= seq![' ']);
            assert(t@ =~= s@ + spec_spaces(t@.len() - s@.len()));
        }
        n = n + 1;
    }
    proof {
        assert(t@ =~= spec_pad(s@, width as int));
    }
    t
}

/// One fixed-width audit line: date, time, decision, user, group, binary
/// path, single-space separated.
pub open spec fn spec_render_line(
    date: Seq<char>,
    time: Seq<char>,
    decision: Seq<char>,
    user: Seq<char>,
    group: Seq<char>,
    path: Seq<char>,
) -> Seq<char> {
    spec_pad(date, 10) + seq![' '] + spec_pad(time, 8) + seq![' '] + spec_pad(decision, 8)
        + seq![' '] + spec_pad(user, 16) + seq![' '] + spec_pad(group, 16) + seq![' ']
        + spec_pad(path, 32)
}

/// Lay the six columns out as one line.
pub fn render_line(
    date: &str,
    time: &str,
    decision: &str,
    user: &str,
    group: &str,
    path: &str,
) -> (line: String)
    ensures
        line@ == spec_render_line(date@, time@, decision@, user@, group@, path@),
{
    let mut line = padded(date, 10);
    line.append(" ");
    let col_time = padded(time, 8);
    line.append(col_time.as_str());
    line.append(" ");
    let col_decision = padded(decision, 8);
    line.append(col_decision.as_str());
    line.append(" ");
    let col_user = padded(user, 16);
    line.append(col_user.as_str());
    line.append(" ");
    let col_group = padded(group, 16);
    line.append(col_group.as_str());
    line.append(" ");
    let col_path = padded(path, 32);
    line.append(col_path.as_str());
    proof {
        reveal_strlit(" ");
        assert(" "@ =~= seq![' ']);
        assert(line@ =~= spec_render_line(date@, time@, decision@, user@, group@, path@));
    }
    line
}

/// Render one consumed record, given the consumption-time timestamp and
/// the resolved display names (absent when resolution failed).
pub fn render_audit_line(
    ev: &SuidEvent,
    date: &str,
    time: &str,
    user: Option<String>,
    group: Option<String>,
) -> (line: String)
    ensures
        line@ == spec_render_line(
            date@,
            time@,
            spec_decision_label(ev.denied),
            (match user {
                Some(u) => u@,
                None => spec_decimal(ev.uid as int),
            }),
            (match group {
                Some(g) => g@,
                None => spec_decimal(ev.gid as int),
            }),
            spec_decoded_path(ev.path@),
        ),
{
    let decision = decision_label(ev.denied);
    let user_col = display_name(user, ev.uid);
    let group_col = display_name(group, ev.gid);
    let path_col = decode_path(&ev.path);
    render_line(
        date,
        time,
        decision,
        user_col.as_str(),
        group_col.as_str(),
        path_col.as_str(),
    )
}

} // verus!
