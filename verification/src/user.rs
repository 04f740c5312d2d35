//! The signed-in user: the `user_id` cookie's value, how it is read back into
//! an id, and how an id is written into it.
use vstd::prelude::*;
use vstd::string::*;
use crate::http::Status;
use crate::text::chars_of;

verus! {

/// A request whose `user_id` cookie holds a user id.
pub struct AuthenticatedUser {
    pub id: i64,
}

pub open spec fn is_digit(c: char) -> bool {
    '0' <= c && c <= '9'
}

pub open spec fn digit_value(c: char) -> int {
    (c as u32) - ('0' as u32)
}

pub open spec fn all_digits(s: Seq<char>) -> bool {
    forall|i: int| 0 <= i < s.len() ==> is_digit(#[trigger] s[i])
}

/// The number that the decimal digits `s` spell.
pub open spec fn digits_value(s: Seq<char>) -> nat
    decreases s.len(),
{
    if s.len() == 0 {
        0
    } else {
        (digits_value(s.drop_last()) * 10 + digit_value(s.last())) as nat
    }
}

/// Whether the text starts with a minus sign.
pub open spec fn is_negative(s: Seq<char>) -> bool {
    s.len() > 0 && s[0] == '-'
}

/// The text after a leading `+` or `-`, or all of it when there is none.
pub open spec fn unsigned_part(s: Seq<char>) -> Seq<char> {
    if s.len() > 0 && (s[0] == '-' || s[0] == '+') {
        s.drop_first()
    } else {
        s
    }
}

/// The value a sign and digits spell.
pub open spec fn signed_value(s: Seq<char>) -> int {
    if is_negative(s) {
        -digits_value(unsigned_part(s))
    } else {
        digits_value(unsigned_part(s)) as int
    }
}

/// What `str::parse::<i64>` gives for `s`: an optional `+` or `-` followed by
/// one or more ASCII digits whose value fits in an `i64`; anything else is
/// refused.
pub open spec fn parse_i64(s: Seq<char>) -> Option<i64> {
    if unsigned_part(s).len() == 0 || !all_digits(unsigned_part(s)) {
        None
    } else if i64::MIN <= signed_value(s) && signed_value(s) <= i64::MAX {
        Some(signed_value(s) as i64)
    } else {
        None
    }
}

pub open spec fn digit_char(d: nat) -> char {
    ((d + ('0' as u32)) as u32) as char
}

/// The decimal digits of `n`, most significant first, without leading zeros.
pub open spec fn digits_of(n: nat) -> Seq<char>
    decreases n,
{
    if n < 10 {
        seq![digit_char(n)]
    } else {
        digits_of(n / 10).push(digit_char(n % 10))
    }
}

/// The decimal text of `x` (what `i64::to_string` writes).
pub open spec fn decimal(x: int) -> Seq<char> {
    if x < 0 {
        seq!['-'] + digits_of((-x) as nat)
    } else {
        digits_of(x as nat)
    }
}

/// A magnitude past every one an `i64` can have (2^64 + 1).
const SATURATED: u128 = 0x1_0000_0000_0000_0001;

/// The value of `text` as `str::parse::<i64>` reads it.
pub fn parse_user_id(text: &str) -> (r: Option<i64>)
    ensures
        r == parse_i64(text@),
{
    let v = chars_of(text);
    let n = v.len();
    let mut start: usize = 0;
    let mut negative = false;
    if n > 0 && v[0] == '-' {
        negative = true;
        start = 1;
    } else if n > 0 && v[0] == '+' {
        start = 1;
    }
    let ghost digits = unsigned_part(text@);
    assert(digits =~= v@.subrange(start as int, n as int));
    if start == n {
        return None;
    }
    // `acc` is the value of the digits read so far, held at `SATURATED`
    // once it is past every magnitude an `i64` can have.
    let mut acc: u128 = 0;
    let mut i: usize = start;
    while i < n
        invariant
            v@ == text@,
            n == v@.len(),
            start <= i <= n,
            digits == v@.subrange(start as int, n as int),
            digits == unsigned_part(text@),
            negative == is_negative(text@),
            all_digits(v@.subrange(start as int, i as int)),
            acc <= SATURATED,
            acc == SATURATED ==> digits_value(v@.subrange(start as int, i as int)) >= SATURATED,
            acc < SATURATED ==> acc == digits_value(v@.subrange(start as int, i as int)),
        decreases n - i,
    {
        let c = v[i];
        if c < '0' || c > '9' {
            assert(!is_digit(digits[i - start]));
            assert(!all_digits(digits));
            return None;
        }
        let d = (c as u32 - '0' as u32) as u128;
        let ghost prev = v@.subrange(start as int, i as int);
        let ghost next = v@.subrange(start as int, i + 1);
        assert(next.drop_last() =~= prev);
        assert(next.last() == c);
        if acc < SATURATED {
            let x = acc * 10 + d;
            acc = if x < SATURATED {
                x
            } else {
                SATURATED
            };
        } else {
            assert(digits_value(next) >= digits_value(prev) * 10) by (nonlinear_arith)
                requires
                    digits_value(next) == digits_value(prev) * 10 + digit_value(c),
                    digit_value(c) >= 0,
            ;
        }
        i = i + 1;
    }
    assert(v@.subrange(start as int, n as int) =~= digits);
    if acc == SATURATED {
        return None;
    }
    if negative {
        if acc > 0x8000_0000_0000_0000 {
            None
        } else {
            Some((0i128 - acc as i128) as i64)
        }
    } else {
        if acc > 0x7fff_ffff_ffff_ffff {
            None
        } else {
            Some(acc as i64)
        }
    }
}

proof fn lemma_digits_of(n: nat)
    ensures
        digits_of(n).len() > 0,
        all_digits(digits_of(n)),
        digits_value(digits_of(n)) == n,
    decreases n,
{
    if n < 10 {
        assert(digit_value(digit_char(n)) == n);
        assert(digits_of(n).drop_last() =~= Seq::<char>::empty());
        assert(digits_value(Seq::<char>::empty()) == 0);
    } else {
        lemma_digits_of(n / 10);
        let s = digits_of(n);
        assert(s.drop_last() =~= digits_of(n / 10));
        assert(s.last() == digit_char(n % 10));
        assert(digit_value(digit_char(n % 10)) == n % 10);
        assert forall|i: int| 0 <= i < s.len() implies is_digit(#[trigger] s[i]) by {
            if i < s.len() - 1 {
                assert(s[i] == digits_of(n / 10)[i]);
            }
        }
    }
}

fn digit_to_char(d: u64) -> (c: char)
    requires
        d < 10,
    ensures
        c == digit_char(d as nat),
{
    match d {
        0 => '0',
        1 => '1',
        2 => '2',
        3 => '3',
        4 => '4',
        5 => '5',
        6 => '6',
        7 => '7',
        8 => '8',
        _ => '9',
    }
}

fn push_digits(s: &mut String, n: u64)
    ensures
        final(s)@ == old(s)@ + digits_of(n as nat),
    decreases n,
{
    if n >= 10 {
        push_digits(s, n / 10);
    }
    let c = digit_to_char(n % 10);
    s.push(c);
    assert(digits_of(n as nat) =~= if n < 10 {
        seq![digit_char(n as nat)]
    } else {
        digits_of((n / 10) as nat).push(digit_char((n % 10) as nat))
    });
}

/// The decimal text of `id`, as the `user_id` cookie holds it.
pub fn format_user_id(id: i64) -> (r: String)
    ensures
        r@ == decimal(id as int),
{
    let mut s = String::new();
    if id < 0 {
        s.push('-');
        let m = (0i128 - id as i128) as u64;
        push_digits(&mut s, m);
    } else {
        push_digits(&mut s, id as u64);
    }
    assert(s@ =~= decimal(id as int));
    s
}

/// Law: an id written into the `user_id` cookie (as `register` writes it)
/// is read back as the same id by the request guard and by every page that
/// looks up the signed-in user.
pub proof fn cookie_round_trip(id: i64)
    ensures
        parse_i64(decimal(id as int)) == Some(id),
{
    let x = id as int;
    if x < 0 {
        let m = (-x) as nat;
        lemma_digits_of(m);
        let s = decimal(x);
        assert(s[0] == '-');
        assert(s.drop_first() =~= digits_of(m));
    } else {
        let m = x as nat;
        lemma_digits_of(m);
        let s = decimal(x);
        assert(is_digit(s[0]));
    }
}

/// Law: only an optional sign followed by one or more ASCII digits reads
/// as a number.
pub proof fn parsed_text_is_signed_digits(s: Seq<char>)
    ensures
        parse_i64(s) is Some ==> s.len() > 0 && (is_digit(s[0]) || s[0] == '+' || s[0] == '-')
            && (forall|i: int| 1 <= i < s.len() ==> is_digit(#[trigger] s[i])) && (s.len() == 1
            ==> is_digit(s[0])),
{
    if parse_i64(s) is Some {
        let d = unsigned_part(s);
        if s[0] == '+' || s[0] == '-' {
            assert forall|i: int| 1 <= i < s.len() implies is_digit(#[trigger] s[i]) by {
                assert(s[i] == d[i - 1]);
            }
        } else {
            assert(is_digit(d[0]));
        }
    }
}

/// Law: a single digit reads as its value, and a digit appended to a
/// number's digits reads as ten times the number plus the digit, while the
/// result fits; a leading `-` negates it.
pub proof fn parse_reads_decimal_digits(s: Seq<char>, c: char)
    requires
        is_digit(c),
    ensures
        parse_i64(seq![c]) == Some(digit_value(c) as i64),
        s.len() > 0 && all_digits(s) && parse_i64(s) is Some && (parse_i64(s)->0) * 10
            + digit_value(c) <= i64::MAX ==> parse_i64(s.push(c)) == Some(
            ((parse_i64(s)->0) * 10 + digit_value(c)) as i64,
        ),
        s.len() > 0 && all_digits(s) && parse_i64(s) is Some ==> parse_i64(seq!['-'] + s)
            == Some((-(parse_i64(s)->0)) as i64),
{
    let one = seq![c];
    assert(one.drop_last() =~= Seq::<char>::empty());
    assert(digits_value(Seq::<char>::empty()) == 0);
    assert(unsigned_part(one) == one);
    if s.len() > 0 && all_digits(s) && parse_i64(s) is Some {
        assert(unsigned_part(s) == s);
        let t = s.push(c);
        assert(t.drop_last() =~= s);
        assert(all_digits(t)) by {
            assert forall|i: int| 0 <= i < t.len() implies is_digit(#[trigger] t[i]) by {
                if i < s.len() {
                    assert(t[i] == s[i]);
                }
            }
        }
        assert(unsigned_part(t) == t);
        let m = seq!['-'] + s;
        assert(m[0] == '-');
        assert(m.drop_first() =~= s);
    }
}

/// The request guard: a request is signed in when its `user_id` cookie is
/// present and holds a number; otherwise it is answered `401 Unauthorized`.
pub fn from_request(cookie: Option<&str>) -> (r: Result<AuthenticatedUser, Status>)
    ensures
        match cookie {
            Some(v) => match parse_i64(v@) {
                Some(id) => r == Ok::<AuthenticatedUser, Status>(AuthenticatedUser { id }),
                None => r == Err::<AuthenticatedUser, Status>(Status::Unauthorized),
            },
            None => r == Err::<AuthenticatedUser, Status>(Status::Unauthorized),
        },
{
    match cookie {
        Some(v) => match parse_user_id(v) {
            Some(id) => Ok(AuthenticatedUser { id }),
            None => Err(Status::Unauthorized),
        },
        None => Err(Status::Unauthorized),
    }
}

/// The id held by a `user_id` cookie, when there is one and it reads as a
/// number.
pub open spec fn cookie_user_id(cookie: Option<Seq<char>>) -> Option<i64> {
    match cookie {
        Some(v) => parse_i64(v),
        None => None,
    }
}

pub fn current_user_id(cookie: Option<&str>) -> (r: Option<i64>)
    ensures
        r == cookie_user_id(
            match cookie {
                Some(v) => Some(v@),
                None => None,
            },
        ),
{
    match cookie {
        Some(v) => parse_user_id(v),
        None => None,
    }
}

} // verus!
