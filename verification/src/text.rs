use vstd::prelude::*;

use crate::order::chars_of;

verus! {

/// `String::from_iter` over characters: the string of those characters.
#[verifier::external_body]
pub(crate) fn string_from_chars(chars: Vec<char>) -> (s: String)
    ensures
        s@ == chars@,
{
    String::from_iter(chars)
}

/// `String::leak`: the string's text, kept for the rest of the program.
#[verifier::external_body]
fn leak_string(s: String) -> (r: &'static str)
    ensures
        r@ == s@,
{
    s.leak()
}

/// The character of a decimal digit.
pub open spec fn digit_char(d: nat) -> char {
    if d == 0 {
        '0'
    } else if d == 1 {
        '1'
    } else if d == 2 {
        '2'
    } else if d == 3 {
        '3'
    } else if d == 4 {
        '4'
    } else if d == 5 {
        '5'
    } else if d == 6 {
        '6'
    } else if d == 7 {
        '7'
    } else if d == 8 {
        '8'
    } else {
        '9'
    }
}

/// The decimal representation of a number, without leading zeros.
pub open spec fn decimal(n: nat) -> Seq<char>
    decreases n,
{
    if n < 10 {
        seq![digit_char(n)]
    } else {
        decimal(n / 10).push(digit_char(n % 10))
    }
}

fn digit_of(d: u64) -> (c: char)
    requires
        d < 10,
    ensures
        c == digit_char(d as nat),
{
    if d == 0 {
        '0'
    } else if d == 1 {
        '1'
    } else if d == 2 {
        '2'
    } else if d == 3 {
        '3'
    } else if d == 4 {
        '4'
    } else if d == 5 {
        '5'
    } else if d == 6 {
        '6'
    } else if d == 7 {
        '7'
    } else if d == 8 {
        '8'
    } else {
        '9'
    }
}

fn push_decimal(n: u64, out: &mut Vec<char>)
    ensures
        final(out)@ == old(out)@ + decimal(n as nat),
    decreases n,
{
    if n >= 10 {
        push_decimal(n / 10, out);
    }
    out.push(digit_of(n % 10));
    proof {
        if n >= 10 {
            assert(old(out)@ + decimal(n as nat) =~= old(out)@ + decimal((n / 10) as nat) + seq![
                digit_char((n % 10) as nat),
            ]);
        } else {
            assert(decimal(n as nat) =~= seq![digit_char(n as nat)]);
        }
    }
}

/// The decimal representation of a number.
pub fn decimal_string(n: u64) -> (s: String)
    ensures
        s@ == decimal(n as nat),
{
    let mut v: Vec<char> = Vec::new();
    push_decimal(n, &mut v);
    proof {
        assert(v@ =~= decimal(n as nat));
    }
    string_from_chars(v)
}

/// The decimal representation of a signed number: a minus sign before the digits of a
/// negative number.
pub open spec fn signed_decimal(n: int) -> Seq<char> {
    if n < 0 {
        seq!['-'] + decimal((-n) as nat)
    } else {
        decimal(n as nat)
    }
}

/// The decimal representation of a signed number.
pub fn signed_decimal_string(n: i64) -> (s: String)
    ensures
        s@ == signed_decimal(n as int),
{
    let mut v: Vec<char> = Vec::new();
    if n < 0 {
        v.push('-');
        let m: u64 = (-(n as i128)) as u64;
        push_decimal(m, &mut v);
        proof {
            assert(v@ =~= seq!['-'] + decimal((-n) as nat));
        }
    } else {
        push_decimal(n as u64, &mut v);
        proof {
            assert(v@ =~= decimal(n as nat));
        }
    }
    string_from_chars(v)
}

/// The upper-case form of an ASCII lower-case letter; every other character as it is.
pub open spec fn ascii_upper(c: char) -> char {
    if 'a' <= c && c <= 'z' {
        ((c as u32) - 32) as char
    } else {
        c
    }
}

fn ascii_upper_of(c: char) -> (r: char)
    ensures
        r == ascii_upper(c),
{
    if 'a' <= c && c <= 'z' {
        let code = (c as u32) - 32;
        let b = code as u8;
        proof {
            assert(b as u32 == code);
        }
        b as char
    } else {
        c
    }
}

/// The camel-case form of a snake-case name, from position `i` on, where the previous
/// character was an underscore if `upper` holds: underscores dropped, and the character after
/// an underscore made upper case.
pub open spec fn camel_from(s: Seq<char>, i: int, upper: bool) -> Seq<char>
    decreases s.len() - i,
{
    if i >= s.len() || i < 0 {
        Seq::empty()
    } else if s[i] == '_' {
        camel_from(s, i + 1, true)
    } else if upper {
        seq![ascii_upper(s[i])] + camel_from(s, i + 1, false)
    } else {
        seq![s[i]] + camel_from(s, i + 1, false)
    }
}

/// The camel-case form of a snake-case name.
pub open spec fn snake_to_camel(s: Seq<char>) -> Seq<char> {
    camel_from(s, 0, false)
}

/// The camel-case form of a snake-case name, as a new string.
pub fn snake_to_camel_string(snake: &str) -> (r: String)
    ensures
        r@ == snake_to_camel(snake@),
{
    let chars = chars_of(snake);
    let mut out: Vec<char> = Vec::new();
    let mut uppercase_next = false;
    let mut i: usize = 0;
    while i < chars.len()
        invariant
            i <= chars.len(),
            chars@ == snake@,
            out@ + camel_from(chars@, i as int, uppercase_next) == snake_to_camel(snake@),
        decreases chars.len() - i,
    {
        let c = chars[i];
        if c == '_' {
            uppercase_next = true;
        } else if uppercase_next {
            out.push(ascii_upper_of(c));
            uppercase_next = false;
            proof {
                assert(out@ + camel_from(chars@, i + 1, false) =~= old_out_plus(out@, chars@, i as int));
            }
        } else {
            out.push(c);
        }
        i = i + 1;
    }
    string_from_chars(out)
}

spec fn old_out_plus(out: Seq<char>, s: Seq<char>, i: int) -> Seq<char> {
    out + camel_from(s, i + 1, false)
}

/// The camel-case form of a snake-case name, kept for the rest of the program.
pub fn leaking_snake_to_camel(snake: &'static str) -> (r: &'static str)
    ensures
        r@ == snake_to_camel(snake@),
{
    leak_string(snake_to_camel_string(snake))
}


/// The number of underscores in the name from position `i` on.
pub open spec fn underscores_from(s: Seq<char>, i: int) -> int
    decreases s.len() - i,
{
    if i >= s.len() || i < 0 {
        0
    } else {
        (if s[i] == '_' {
            1int
        } else {
            0int
        }) + underscores_from(s, i + 1)
    }
}

proof fn lemma_ascii_upper_not_underscore(c: char)
    requires
        c != '_',
    ensures
        ascii_upper(c) != '_',
{
    if 'a' <= c && c <= 'z' {
        assert(('a' as u32) == 97 && ('z' as u32) == 122 && ('_' as u32) == 95);
        let u = ((c as u32) - 32) as char;
        assert(u as u32 == (c as u32) - 32);
    }
}

proof fn lemma_camel_from(s: Seq<char>, i: int, upper: bool)
    requires
        0 <= i <= s.len(),
    ensures
        forall|k: int| 0 <= k < camel_from(s, i, upper).len() ==> #[trigger] camel_from(s, i, upper)[k] != '_',
        camel_from(s, i, upper).len() + underscores_from(s, i) == s.len() - i,
        !upper && (forall|j: int| i <= j < s.len() ==> s[j] != '_') ==> camel_from(s, i, upper)
            == s.subrange(i, s.len() as int),
    decreases s.len() - i,
{
    if i < s.len() {
        lemma_camel_from(s, i + 1, true);
        lemma_camel_from(s, i + 1, false);
        let rest_t = camel_from(s, i + 1, true);
        let rest_f = camel_from(s, i + 1, false);
        if s[i] == '_' {
        } else {
            let x = if upper {
                ascii_upper(s[i])
            } else {
                s[i]
            };
            lemma_ascii_upper_not_underscore(s[i]);
            let r = seq![x] + rest_f;
            assert(camel_from(s, i, upper) == r);
            assert forall|k: int| 0 <= k < r.len() implies #[trigger] r[k] != '_' by {
                if k > 0 {
                    assert(r[k] == rest_f[k - 1]);
                }
            }
            if !upper && (forall|j: int| i <= j < s.len() ==> s[j] != '_') {
                assert(r =~= s.subrange(i, s.len() as int));
            }
        }
    }
}

/// The camel-case form of a snake-case name holds no underscore, and is as long as the name
/// less its underscores; a name without underscores is its own camel-case form, so turning a
/// camel-case form into camel case again leaves it as it is.
pub proof fn law_snake_to_camel(s: Seq<char>)
    ensures
        !snake_to_camel(s).contains('_'),
        snake_to_camel(s).len() == s.len() - underscores_from(s, 0),
        !s.contains('_') ==> snake_to_camel(s) == s,
        snake_to_camel(snake_to_camel(s)) == snake_to_camel(s),
{
    lemma_camel_from(s, 0, false);
    let r = snake_to_camel(s);
    if r.contains('_') {
        let k = choose|k: int| 0 <= k < r.len() && r[k] == '_';
        assert(r[k] != '_');
    }
    if !s.contains('_') {
        assert forall|j: int| 0 <= j < s.len() implies s[j] != '_' by {
            if s[j] == '_' {
                assert(s.contains('_'));
            }
        }
        assert(s.subrange(0, s.len() as int) =~= s);
    }
    lemma_camel_from(r, 0, false);
    assert forall|j: int| 0 <= j < r.len() implies r[j] != '_' by {}
    assert(r.subrange(0, r.len() as int) =~= r);
}

} // verus!
