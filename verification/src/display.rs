//! Status-message formatting: the decimal missed-update count, the default
//! messages, and substitution of the count marker in a caller-supplied
//! template.

use crate::state::{RecordModel, UpdateState};
use vstd::prelude::*;
use vstd::string::{StrSliceExecFns, StringExecFns};

verus! {

/// The decimal digit character for a value below ten.
pub open spec fn spec_digit(d: nat) -> char
    recommends
        d < 10,
{
    if d == 0 {
        '0'
    } else if d == 1 {
        '1'
    } else if d == 2 {
        '2'
    } else if d == 3 {
        '3'
    } else if d == 4 {
        '4'
    } else if d == 5 {
        '5'
    } else if d == 6 {
        '6'
    } else if d == 7 {
        '7'
    } else if d == 8 {
        '8'
    } else {
        '9'
    }
}

/// Decimal representation of `n`: most significant digit first, no leading
/// zeros, a single digit for values below ten.
pub open spec fn spec_decimal(n: nat) -> Seq<char>
    decreases n,
{
    if n < 10 {
        seq![spec_digit(n)]
    } else {
        spec_decimal(n / 10) + seq![spec_digit(n % 10)]
    }
}

/// `template` with every occurrence of the count marker '$' replaced by
/// `digits`; everything else is kept as it stands.
pub open spec fn spec_replace_marker(template: Seq<char>, digits: Seq<char>) -> Seq<char>
    decreases template.len(),
{
    if template.len() == 0 {
        Seq::empty()
    } else if template[0] == '$' {
        digits + spec_replace_marker(template.drop_first(), digits)
    } else {
        seq![template[0]] + spec_replace_marker(template.drop_first(), digits)
    }
}

proof fn lemma_replace_marker_snoc(t: Seq<char>, d: Seq<char>, c: char)
    ensures
        spec_replace_marker(t.push(c), d) == spec_replace_marker(t, d) + (if c == '$' {
            d
        } else {
            seq![c]
        }),
    decreases t.len(),
{
    if t.len() == 0 {
        let s = t.push(c);
        assert(s.len() == 1);
        assert(s[0] == c);
        assert(s.drop_first() =~= Seq::<char>::empty());
        assert(spec_replace_marker(s.drop_first(), d) =~= Seq::<char>::empty());
        if c == '$' {
            assert(spec_replace_marker(s, d) =~= d);
            assert(spec_replace_marker(t, d) + d =~= d);
        } else {
            assert(spec_replace_marker(s, d) =~= seq![c]);
            assert(spec_replace_marker(t, d) + seq![c] =~= seq![c]);
        }
    } else {
        assert(t.push(c)[0] == t[0]);
        assert(t.push(c).drop_first() =~= t.drop_first().push(c));
        lemma_replace_marker_snoc(t.drop_first(), d, c);
        assert(spec_replace_marker(t.push(c), d) =~= spec_replace_marker(t, d) + (if c == '$' {
            d
        } else {
            seq![c]
        }));
    }
}

proof fn lemma_replace_marker_plain_suffix(t: Seq<char>, d: Seq<char>, s: int, j: int)
    requires
        0 <= s <= j <= t.len(),
        forall|k: int| s <= k < j ==> t[k] != '$',
    ensures
        spec_replace_marker(t.take(j), d) == spec_replace_marker(t.take(s), d) + t.subrange(s, j),
    decreases j - s,
{
    if j == s {
        assert(spec_replace_marker(t.take(s), d) + t.subrange(s, j) =~= spec_replace_marker(
            t.take(s),
            d,
        ));
    } else {
        lemma_replace_marker_plain_suffix(t, d, s, j - 1);
        assert(t.take(j) =~= t.take(j - 1).push(t[j - 1]));
        lemma_replace_marker_snoc(t.take(j - 1), d, t[j - 1]);
        assert(spec_replace_marker(t.take(s), d) + t.subrange(s, j - 1) + seq![t[j - 1]]
            =~= spec_replace_marker(t.take(s), d) + t.subrange(s, j));
    }
}

/// The decimal string of `n`.
pub fn u32_to_decimal(n: u32) -> (r: String)
    ensures
        r@ == spec_decimal(n as nat),
    decreases n,
{
    if n < 10 {
        digit_str(n).to_owned()
    } else {
        let mut r = u32_to_decimal(n / 10);
        r.append(digit_str(n % 10));
        r
    }
}

/// The digit character of `d`, as a borrowed one-character string.
fn digit_str(d: u32) -> (r: &'static str)
    requires
        d < 10,
    ensures
        r@ == seq![spec_digit(d as nat)],
{
    proof {
        reveal_strlit("0");
        reveal_strlit("1");
        reveal_strlit("2");
        reveal_strlit("3");
        reveal_strlit("4");
        reveal_strlit("5");
        reveal_strlit("6");
        reveal_strlit("7");
        reveal_strlit("8");
        reveal_strlit("9");
    }
    let r: &'static str = if d == 0 {
        "0"
    } else if d == 1 {
        "1"
    } else if d == 2 {
        "2"
    } else if d == 3 {
        "3"
    } else if d == 4 {
        "4"
    } else if d == 5 {
        "5"
    } else if d == 6 {
        "6"
    } else if d == 7 {
        "7"
    } else if d == 8 {
        "8"
    } else {
        "9"
    };
    proof {
        assert(r@ =~= seq![spec_digit(d as nat)]);
    }
    r
}

/// `template` with every '$' replaced by `digits`. No other part of the
/// template is altered.
pub fn replace_marker(template: &str, digits: &str) -> (r: String)
    ensures
        r@ == spec_replace_marker(template@, digits@),
{
    let n = template.unicode_len();
    let mut out = String::new();
    let mut seg_start: usize = 0;
    let mut i: usize = 0;
    while i < n
        invariant
            seg_start <= i <= n,
            n == template@.len(),
            out@ == spec_replace_marker(template@.take(seg_start as int), digits@),
            forall|k: int| seg_start <= k < i ==> template@[k] != '$',
        decreases n - i,
    {
        let c = template.get_char(i);
        if c == '$' {
            out.append(template.substring_char(seg_start, i));
            proof {
                lemma_replace_marker_plain_suffix(
                    template@,
                    digits@,
                    seg_start as int,
                    i as int,
                );
            }
            out.append(digits);
            proof {
                assert(template@.take(i as int + 1) =~= template@.take(i as int).push(
                    template@[i as int],
                ));
                lemma_replace_marker_snoc(
                    template@.take(i as int),
                    digits@,
                    template@[i as int],
                );
            }
            seg_start = i + 1;
        }
        i += 1;
    }
    out.append(template.substring_char(seg_start, n));
    proof {
        lemma_replace_marker_plain_suffix(template@, digits@, seg_start as int, n as int);
        assert(template@.take(n as int) =~= template@);
    }
    out
}

/// The status line for a record. `Synced` prints the default "synced" unless
/// a replacement message is given; `Unsynced` prints the default
/// "unsynced (n)" unless a template is given, in which case every '$' in the
/// template becomes the decimal missed-update count.
pub fn display_message(
    state: &UpdateState,
    synced_message: Option<&str>,
    unsynced_message: Option<&str>,
) -> (r: String)
    ensures
        state@ == RecordModel::Synced ==> r@ == (match synced_message {
            Some(m) => m@,
            None => "synced"@,
        }),
        state@ matches RecordModel::Unsynced { missed, .. } ==> r@ == (match unsynced_message {
            Some(t) => spec_replace_marker(t@, spec_decimal(missed as nat)),
            None => "unsynced ("@ + spec_decimal(missed as nat) + ")"@,
        }),
{
    match state {
        UpdateState::Synced => match synced_message {
            Some(m) => m.to_owned(),
            None => "synced".to_owned(),
        },
        UpdateState::Unsynced(missed, _) => {
            let digits = u32_to_decimal(*missed);
            match unsynced_message {
                Some(t) => replace_marker(t, digits.as_str()),
                None => {
                    let mut r = "unsynced (".to_owned();
                    r.append(digits.as_str());
                    r.append(")");
                    r
                },
            }
        },
    }
}

} // verus!
