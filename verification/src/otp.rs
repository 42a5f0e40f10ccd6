//! User-name validators for the two one-time-password channels: email
//! addresses (sent through SES) and E.164 phone numbers (sent through SNS).

use vstd::prelude::*;
use vstd::utf8::encode_utf8;
use crate::interface::{AuthenticationError, AuthenticationErrorView, OTPService};
use crate::text::{chars_of, chars_contain_char};

verus! {

/// The length of `s` in bytes when encoded as UTF-8, as `str::len` reports it.
pub open spec fn byte_len(s: Seq<char>) -> int {
    (encode_utf8(s).len() as usize) as int
}

/// `i` is the position of the one and only `'@'` of `s`.
pub open spec fn sole_at_sign(s: Seq<char>, i: int) -> bool {
    &&& 0 <= i < s.len()
    &&& s[i] == '@'
    &&& forall|j: int| 0 <= j < s.len() && j != i ==> s[j] != '@'
}

/// What the email validator decides of `s`: the checks in order, and the
/// reason of the first that fails.
pub open spec fn email_outcome(s: Seq<char>) -> Result<(), AuthenticationErrorView> {
    if byte_len(s) < 3 || byte_len(s) > 254 {
        Err(AuthenticationErrorView::InvalidFormat("Email length is invalid"@))
    } else if s.contains(' ') {
        Err(AuthenticationErrorView::InvalidFormat("Email cannot contain spaces"@))
    } else if !(exists|i: int| sole_at_sign(s, i)) {
        Err(AuthenticationErrorView::InvalidFormat("Email must contain exactly one '@'"@))
    } else if exists|i: int| sole_at_sign(s, i) && (i == 0 || i == s.len() - 1) {
        Err(AuthenticationErrorView::InvalidFormat("Email local or domain parts is empty"@))
    } else if exists|i: int| sole_at_sign(s, i) && !s.subrange(i + 1, s.len() as int).contains('.') {
        Err(AuthenticationErrorView::InvalidFormat("Email domain must contain a dot."@))
    } else {
        Ok(())
    }
}

/// `c` is one of the ASCII digits `0` to `9`.
pub open spec fn is_ascii_digit(c: char) -> bool {
    '0' <= c && c <= '9'
}

/// What the phone-number validator decides of `s`.
pub open spec fn phone_outcome(s: Seq<char>) -> Result<(), AuthenticationErrorView> {
    if byte_len(s) < 5 || byte_len(s) > 16 {
        Err(AuthenticationErrorView::InvalidFormat("Phone number length is invalid"@))
    } else if !(s.len() > 0 && s[0] == '+') {
        Err(AuthenticationErrorView::InvalidFormat("Phone number must start with '+' (E.164 format)"@))
    } else if !(forall|i: int| 1 <= i < s.len() ==> is_ascii_digit(#[trigger] s[i])) {
        Err(AuthenticationErrorView::InvalidFormat("Phone number must contain only digits after '+'"@))
    } else {
        Ok(())
    }
}

/// The position of the first `c` in `s` at or after `from`, if any.
fn find_char_from(s: &Vec<char>, c: char, from: usize) -> (res: Option<usize>)
    requires
        from <= s@.len(),
    ensures
        match res {
            Some(i) => from <= i < s@.len() && s@[i as int] == c
                && forall|j: int| from <= j < i ==> s@[j] != c,
            None => forall|j: int| from <= j < s@.len() ==> s@[j] != c,
        },
{
    let mut i: usize = from;
    while i < s.len()
        invariant
            from <= i <= s@.len(),
            forall|j: int| from <= j < i ==> s@[j] != c,
        decreases s@.len() - i,
    {
        if s[i] == c {
            return Some(i);
        }
        i = i + 1;
    }
    None
}

/// Validates email addresses, the user names of the email channel.
pub struct SESService {}

impl SESService {
    pub fn new() -> (res: Self) {
        SESService {}
    }
}

impl OTPService for SESService {
    open spec fn validation_outcome(&self, user_name: Seq<char>) -> Result<(), AuthenticationErrorView> {
        email_outcome(user_name)
    }

    fn validation_user_name(&self, user_name: &str) -> (res: Result<(), AuthenticationError>) {
        let n: usize = user_name.len();
        if n < 3 || n > 254 {
            return Err(AuthenticationError::invalid_format("Email length is invalid"));
        }
        let s = chars_of(user_name);
        if chars_contain_char(&s, ' ') {
            return Err(AuthenticationError::invalid_format("Email cannot contain spaces"));
        }
        let first = find_char_from(&s, '@', 0);
        let at: usize = match first {
            None => {
                assert(!(exists|i: int| sole_at_sign(s@, i)));
                return Err(AuthenticationError::invalid_format("Email must contain exactly one '@'"));
            },
            Some(i) => i,
        };
        let second = find_char_from(&s, '@', at + 1);
        if let Some(k) = second {
            assert(!(exists|i: int| sole_at_sign(s@, i))) by {
                assert forall|i: int| !sole_at_sign(s@, i) by {
                    if sole_at_sign(s@, i) {
                        assert(s@[at as int] == '@');
                        assert(s@[k as int] == '@');
                    }
                }
            }
            return Err(AuthenticationError::invalid_format("Email must contain exactly one '@'"));
        }
        assert(sole_at_sign(s@, at as int));
        assert forall|i: int| sole_at_sign(s@, i) implies i == at by {
            if i != at {
                assert(s@[at as int] == '@');
            }
        }
        if at == 0 || at == s.len() - 1 {
            return Err(AuthenticationError::invalid_format("Email local or domain parts is empty"));
        }
        let dot = find_char_from(&s, '.', at + 1);
        match dot {
            None => {
                assert(!s@.subrange(at + 1, s@.len() as int).contains('.')) by {
                    assert forall|j: int| 0 <= j < s@.len() - (at + 1)
                        implies #[trigger] s@.subrange(at + 1, s@.len() as int)[j] != '.' by {
                        assert(s@[at + 1 + j] != '.');
                    }
                }
                Err(AuthenticationError::invalid_format("Email domain must contain a dot."))
            },
            Some(d) => {
                assert(s@.subrange(at + 1, s@.len() as int)[d - (at + 1)] == '.');
                Ok(())
            },
        }
    }
}

/// Validates phone numbers in E.164 form, the user names of the SMS channel.
pub struct SNSService {}

impl SNSService {
    pub fn new() -> (res: Self) {
        SNSService {}
    }
}

impl OTPService for SNSService {
    open spec fn validation_outcome(&self, user_name: Seq<char>) -> Result<(), AuthenticationErrorView> {
        phone_outcome(user_name)
    }

    fn validation_user_name(&self, user_name: &str) -> (res: Result<(), AuthenticationError>) {
        let n: usize = user_name.len();
        if n < 5 || n > 16 {
            return Err(AuthenticationError::invalid_format("Phone number length is invalid"));
        }
        let s = chars_of(user_name);
        if !(s.len() > 0 && s[0] == '+') {
            return Err(AuthenticationError::invalid_format("Phone number must start with '+' (E.164 format)"));
        }
        let mut i: usize = 1;
        while i < s.len()
            invariant
                1 <= i <= s@.len(),
                s@ == user_name@,
                s@[0] == '+',
                5 <= byte_len(user_name@) <= 16,
                forall|j: int| 1 <= j < i ==> is_ascii_digit(#[trigger] s@[j]),
            decreases s@.len() - i,
        {
            let c = s[i];
            if !('0' <= c && c <= '9') {
                assert(!is_ascii_digit(s@[i as int]));
                assert(!(forall|j: int| 1 <= j < s@.len() ==> is_ascii_digit(#[trigger] s@[j])));
                return Err(AuthenticationError::invalid_format("Phone number must contain only digits after '+'"));
            }
            i = i + 1;
        }
        Ok(())
    }
}

/// Email laws, stated of the email validator's outcome on every string `s`:
/// an address is accepted exactly when its UTF-8 length is between 3 and 254
/// bytes, it holds no space, and it holds one `'@'` that is neither first nor
/// last and is followed somewhere by a `'.'`.
pub proof fn lemma_email_accepted_exactly(s: Seq<char>)
    ensures
        (SESService {}).validation_outcome(s) is Ok <==> {
            &&& 3 <= byte_len(s) <= 254
            &&& forall|k: int| 0 <= k < s.len() ==> s[k] != ' '
            &&& exists|i: int| {
                &&& 0 < i < s.len() - 1
                &&& s[i] == '@'
                &&& (forall|k: int| 0 <= k < s.len() && k != i ==> s[k] != '@')
                &&& (exists|j: int| i < j < s.len() && s[j] == '.')
            }
        },
{
    let ok = (SESService {}).validation_outcome(s) is Ok;
    let good = {
        &&& 3 <= byte_len(s) <= 254
        &&& forall|k: int| 0 <= k < s.len() ==> s[k] != ' '
        &&& exists|i: int| {
            &&& 0 < i < s.len() - 1
            &&& s[i] == '@'
            &&& (forall|k: int| 0 <= k < s.len() && k != i ==> s[k] != '@')
            &&& (exists|j: int| i < j < s.len() && s[j] == '.')
        }
    };
    if ok {
        assert(!s.contains(' '));
        let i = choose|i: int| sole_at_sign(s, i);
        assert(sole_at_sign(s, i));
        assert(!(i == 0 || i == s.len() - 1));
        assert(s.subrange(i + 1, s.len() as int).contains('.'));
        let d = choose|d: int| 0 <= d < s.len() - (i + 1) && #[trigger] s.subrange(i + 1, s.len() as int)[d] == '.';
        assert(s[i + 1 + d] == '.');
        assert forall|k: int| 0 <= k < s.len() implies s[k] != ' ' by {
            if s[k] == ' ' {
                assert(s.contains(' '));
            }
        }
        assert(good);
    }
    if good {
        let i = choose|i: int| {
            &&& 0 < i < s.len() - 1
            &&& s[i] == '@'
            &&& (forall|k: int| 0 <= k < s.len() && k != i ==> s[k] != '@')
            &&& (exists|j: int| i < j < s.len() && s[j] == '.')
        };
        let j = choose|j: int| i < j < s.len() && s[j] == '.';
        assert(sole_at_sign(s, i));
        assert forall|m: int| sole_at_sign(s, m) implies m == i by {
            if m != i {
                assert(s[i] == '@');
            }
        }
        assert(s.subrange(i + 1, s.len() as int)[j - (i + 1)] == '.');
        assert(ok);
    }
}

/// An address whose one `'@'` is followed by text without a `'.'` (and that
/// passes the earlier checks: length, no spaces, both parts non-empty) is
/// refused for its domain, whatever the part before the `'@'` holds.
pub proof fn lemma_email_domain_without_dot(s: Seq<char>, i: int)
    requires
        3 <= byte_len(s) <= 254,
        forall|k: int| 0 <= k < s.len() ==> s[k] != ' ',
        0 < i < s.len() - 1,
        s[i] == '@',
        forall|k: int| 0 <= k < s.len() && k != i ==> s[k] != '@',
        forall|j: int| i < j < s.len() ==> s[j] != '.',
    ensures
        (SESService {}).validation_outcome(s)
            == Err::<(), AuthenticationErrorView>(AuthenticationErrorView::InvalidFormat("Email domain must contain a dot."@)),
{
    assert(sole_at_sign(s, i));
    assert forall|m: int| sole_at_sign(s, m) implies m == i by {
        if m != i {
            assert(s[i] == '@');
        }
    }
    assert(!s.contains(' '));
    assert(!s.subrange(i + 1, s.len() as int).contains('.')) by {
        assert forall|d: int| 0 <= d < s.len() - (i + 1)
            implies #[trigger] s.subrange(i + 1, s.len() as int)[d] != '.' by {
            assert(s[i + 1 + d] != '.');
        }
    }
}

/// Phone laws, stated of the phone validator's outcome on every string `s`:
/// a number is accepted exactly when its UTF-8 length is between 5 and 16
/// bytes, it starts with `'+'`, and every later character is an ASCII digit.
pub proof fn lemma_phone_accepted_exactly(s: Seq<char>)
    ensures
        (SNSService {}).validation_outcome(s) is Ok <==> {
            &&& 5 <= byte_len(s) <= 16
            &&& s.len() > 0
            &&& s[0] == '+'
            &&& forall|k: int| 1 <= k < s.len() ==> '0' <= #[trigger] s[k] && s[k] <= '9'
        },
{
}

/// A number of valid length that does not start with `'+'` is refused for
/// that reason, whatever its other characters are.
pub proof fn lemma_phone_without_plus(s: Seq<char>)
    requires
        5 <= byte_len(s) <= 16,
        s.len() == 0 || s[0] != '+',
    ensures
        (SNSService {}).validation_outcome(s)
            == Err::<(), AuthenticationErrorView>(AuthenticationErrorView::InvalidFormat("Phone number must start with '+' (E.164 format)"@)),
{
}

} // verus!
