//! The create-user request object and its validation rules.

use vstd::prelude::*;
use vstd::string::StrSliceExecFns;

use crate::shared::role::Role;
use crate::shared::text::{ascii_alphanumeric, is_ascii_alphanumeric_char};

verus! {

/// Which rule a request object broke.
#[derive(Debug, Clone, Copy, PartialEq, Eq, Structural)]
pub enum ValidationError {
    Email,
    UserName,
    Password,
}

// ---------------------------------------------------------------------------
// The email rule, after the HTML5 form-validation one: the address splits at
// its last '@' into a local part of at most 64 characters from a fixed class,
// and a domain of at most 255 characters made of dot-separated labels, each
// 1 to 63 characters, alphanumeric at both ends, with hyphens allowed
// between.  Domains given as bracketed IP literals or in non-ASCII
// (internationalized) form are not accepted.
// ---------------------------------------------------------------------------

/// A character the local part of an email may hold.
pub open spec fn email_local_char(c: char) -> bool {
    ||| ascii_alphanumeric(c)
    ||| c == '.' ||| c == '!' ||| c == '#' ||| c == '$' ||| c == '%' ||| c == '&'
    ||| c == '\'' ||| c == '*' ||| c == '+' ||| c == '/' ||| c == '=' ||| c == '?'
    ||| c == '^' ||| c == '_' ||| c == '`' ||| c == '{' ||| c == '|' ||| c == '}'
    ||| c == '~' ||| c == '-'
}

/// A character a domain label may hold.
pub open spec fn email_label_char(c: char) -> bool {
    ascii_alphanumeric(c) || c == '-'
}

/// A valid local part: 1 to 64 characters of the allowed class.
pub open spec fn valid_email_local(s: Seq<char>) -> bool {
    &&& 1 <= s.len() <= 64
    &&& forall|k: int| 0 <= k < s.len() ==> email_local_char(#[trigger] s[k])
}

/// Some character of the 64 starting at `i` is a dot.  Asked of every
/// position of a domain, this bounds each label at 63 characters.
pub open spec fn dot_in_window(s: Seq<char>, i: int) -> bool {
    exists|k: int| i <= k < i + 64 && s[k] == '.'
}

/// The label-boundary rule at position `k`: a character that begins a label
/// (the first, or one after a dot) or ends one (the last, or one before a
/// dot) is alphanumeric.  This also rules out empty labels, so no leading,
/// trailing or doubled dots.
pub open spec fn label_boundaries_ok(s: Seq<char>, k: int) -> bool {
    &&& (k == 0 || s[k - 1] == '.') ==> ascii_alphanumeric(s[k])
    &&& (k == s.len() - 1 || s[k + 1] == '.') ==> ascii_alphanumeric(s[k])
}

/// A valid domain: 1 to 255 characters of dot-separated labels; every label
/// begins and ends alphanumerically and is at most 63 characters.
pub open spec fn valid_email_domain(s: Seq<char>) -> bool {
    &&& 1 <= s.len() <= 255
    &&& (forall|k: int| 0 <= k < s.len() ==> email_label_char(#[trigger] s[k]) || s[k] == '.')
    &&& (forall|k: int| 0 <= k < s.len() ==> #[trigger] label_boundaries_ok(s, k))
    &&& (forall|i: int| 0 <= i && i + 64 <= s.len() ==> #[trigger] dot_in_window(s, i))
}

/// A valid split of an email at position `i`: the last `'@'` of the string,
/// with a valid local part before it and a valid domain after it.
pub open spec fn email_split_at(s: Seq<char>, i: int) -> bool {
    &&& 0 <= i < s.len()
    &&& s[i] == '@'
    &&& (forall|k: int| i < k < s.len() ==> s[k] != '@')
    &&& valid_email_local(s.subrange(0, i))
    &&& valid_email_domain(s.subrange(i + 1, s.len() as int))
}

/// A valid email address as this service accepts it.
pub open spec fn valid_email(s: Seq<char>) -> bool {
    exists|i: int| email_split_at(s, i)
}

/// Checks a character against [`email_local_char`].
fn is_email_local_char(c: char) -> (r: bool)
    ensures
        r == email_local_char(c),
{
    is_ascii_alphanumeric_char(c)
        || c == '.' || c == '!' || c == '#' || c == '$' || c == '%' || c == '&'
        || c == '\'' || c == '*' || c == '+' || c == '/' || c == '=' || c == '?'
        || c == '^' || c == '_' || c == '`' || c == '{' || c == '|' || c == '}'
        || c == '~' || c == '-'
}

/// Checks a character against [`email_label_char`].
fn is_email_label_char(c: char) -> (r: bool)
    ensures
        r == email_label_char(c),
{
    is_ascii_alphanumeric_char(c) || c == '-'
}

/// Checks the first `end` characters of `s` against [`valid_email_local`].
fn check_email_local(s: &str, end: usize) -> (r: bool)
    requires
        end <= s@.len(),
    ensures
        r == valid_email_local(s@.subrange(0, end as int)),
{
    let ghost local = s@.subrange(0, end as int);
    if end < 1 || end > 64 {
        return false;
    }
    let mut i: usize = 0;
    while i < end
        invariant
            i <= end,
            end <= s@.len(),
            local == s@.subrange(0, end as int),
            forall|k: int| 0 <= k < i ==> email_local_char(#[trigger] local[k]),
        decreases end - i,
    {
        let c = s.get_char(i);
        proof {
            assert(local[i as int] == s@[i as int]);
        }
        if !is_email_local_char(c) {
            return false;
        }
        i = i + 1;
    }
    true
}

/// Checks the characters of `s` from `start` on against
/// [`valid_email_domain`].
#[verifier::rlimit(60)]
fn check_email_domain(s: &str, start: usize) -> (r: bool)
    requires
        start <= s@.len(),
    ensures
        r == valid_email_domain(s@.subrange(start as int, s@.len() as int)),
{
    let ghost domain = s@.subrange(start as int, s@.len() as int);
    let len = s.unicode_len();
    if len - start < 1 || len - start > 255 {
        return false;
    }

    // Every character is a label character or a dot.
    let mut j: usize = start;
    while j < len
        invariant
            start <= j <= len,
            len == s@.len(),
            domain == s@.subrange(start as int, len as int),
            forall|k: int| 0 <= k < j - start
                ==> email_label_char(#[trigger] domain[k]) || domain[k] == '.',
        decreases len - j,
    {
        let c = s.get_char(j);
        proof {
            assert(domain[j - start] == s@[j as int]);
        }
        if !is_email_label_char(c) && c != '.' {
            return false;
        }
        j = j + 1;
    }

    // Every label begins and ends alphanumerically.
    let mut j: usize = start;
    while j < len
        invariant
            start <= j <= len,
            len == s@.len(),
            domain == s@.subrange(start as int, len as int),
            forall|k: int| 0 <= k < j - start ==> #[trigger] label_boundaries_ok(domain, k),
        decreases len - j,
    {
        let c = s.get_char(j);
        let begins_label = j == start || s.get_char(j - 1) == '.';
        let ends_label = j + 1 == len || s.get_char(j + 1) == '.';
        let alnum = is_ascii_alphanumeric_char(c);
        proof {
            assert(domain[j - start] == s@[j as int]);
            assert(j > start ==> domain[j - start - 1] == s@[j - 1]);
            assert(j + 1 < len ==> domain[j - start + 1] == s@[j + 1]);
        }
        if (begins_label || ends_label) && !alnum {
            proof {
                assert(!label_boundaries_ok(domain, j - start));
            }
            return false;
        }
        proof {
            assert(label_boundaries_ok(domain, j - start));
        }
        j = j + 1;
    }

    // No label exceeds 63 characters: every 64-character window holds a dot.
    let mut i: usize = start;
    while len - i >= 64
        invariant
            start <= i <= len,
            len == s@.len(),
            domain == s@.subrange(start as int, len as int),
            forall|w: int| 0 <= w < i - start && w + 64 <= domain.len()
                ==> #[trigger] dot_in_window(domain, w),
        decreases len - i,
    {
        let mut k: usize = i;
        let mut found = false;
        while k < i + 64
            invariant
                i <= k <= i + 64,
                i + 64 <= len,
                len == s@.len(),
                start <= i,
                domain == s@.subrange(start as int, len as int),
                found <==> exists|p: int| i <= p < k && s@[p] == '.',
            decreases i + 64 - k,
        {
            if s.get_char(k) == '.' {
                found = true;
            }
            k = k + 1;
        }
        if !found {
            proof {
                assert(!dot_in_window(domain, i - start)) by {
                    if dot_in_window(domain, i - start) {
                        let p = choose|p: int|
                            i - start <= p < i - start + 64 && domain[p] == '.';
                        assert(s@[p + start] == '.');
                    }
                }
            }
            return false;
        }
        proof {
            assert(dot_in_window(domain, i - start)) by {
                let p = choose|p: int| i <= p < i + 64 && s@[p] == '.';
                assert(domain[p - start] == '.');
            }
        }
        i = i + 1;
    }

    proof {
        assert forall|w: int| 0 <= w && w + 64 <= domain.len() implies #[trigger] dot_in_window(
            domain,
            w,
        ) by {
            assert(w < i - start);
        }
    }
    true
}

/// Checks `s` against [`valid_email`].
pub fn validate_email(s: &str) -> (r: bool)
    ensures
        r == valid_email(s@),
{
    let len = s.unicode_len();

    // Find the last '@'.
    let mut at_pos: usize = 0;
    let mut seen_at = false;
    let mut i: usize = 0;
    while i < len
        invariant
            i <= len,
            len == s@.len(),
            seen_at <==> exists|k: int| 0 <= k < i && s@[k] == '@',
            seen_at ==> at_pos < i && s@[at_pos as int] == '@'
                && forall|k: int| at_pos < k < i ==> s@[k] != '@',
        decreases len - i,
    {
        if s.get_char(i) == '@' {
            seen_at = true;
            at_pos = i;
        }
        i = i + 1;
    }
    if !seen_at {
        proof {
            if valid_email(s@) {
                let w = choose|w: int| email_split_at(s@, w);
                assert(s@[w] == '@');
            }
        }
        return false;
    }

    // Any valid split sits at the last '@'.
    proof {
        if valid_email(s@) {
            let w = choose|w: int| email_split_at(s@, w);
            assert(w == at_pos as int) by {
                if w < at_pos as int {
                    assert(s@[at_pos as int] != '@');
                }
                if w > at_pos as int {
                    assert(s@[w] != '@');
                }
            }
        }
    }

    if !check_email_local(s, at_pos) {
        return false;
    }
    if !check_email_domain(s, at_pos + 1) {
        return false;
    }
    proof {
        assert(email_split_at(s@, at_pos as int));
    }
    true
}

/// A request to create a user.
#[derive(Debug, Clone)]
pub struct CreateUserDto {
    pub email: String,
    pub user_name: String,
    pub password: String,
    pub role: Role,
}

impl CreateUserDto {
    /// The validation rule: a valid email, and a user name and password of
    /// 1 to 1024 characters each.
    pub open spec fn spec_valid(self) -> bool {
        &&& valid_email(self.email@)
        &&& 1 <= self.user_name@.len() <= 1024
        &&& 1 <= self.password@.len() <= 1024
    }

    /// Validates the request, reporting the first rule broken.
    pub fn validate(&self) -> (r: Result<(), ValidationError>)
        ensures
            r is Ok <==> self.spec_valid(),
            r matches Err(e) ==> match e {
                ValidationError::Email => !valid_email(self.email@),
                ValidationError::UserName => !(1 <= self.user_name@.len() <= 1024),
                ValidationError::Password => !(1 <= self.password@.len() <= 1024),
            },
    {
        if !validate_email(self.email.as_str()) {
            return Err(ValidationError::Email);
        }
        let name_len = self.user_name.as_str().unicode_len();
        if name_len < 1 || name_len > 1024 {
            return Err(ValidationError::UserName);
        }
        let password_len = self.password.as_str().unicode_len();
        if password_len < 1 || password_len > 1024 {
            return Err(ValidationError::Password);
        }
        Ok(())
    }
}

} // verus!
