//! The records the service reads and writes, and the checks on them.

pub mod auth;
pub mod notes;
pub mod users;

use vstd::prelude::*;

use crate::text::{contains_char_in, find_char, is_first_occurrence};
use vstd::string::*;

verus! {

/// A calendar date and time without a time zone, as the database stores it.
#[verifier::external_type_specification]
#[verifier::external_body]
pub struct ExNaiveDateTime(chrono::NaiveDateTime);

/// The part after the `@` of an address is a domain: it holds a dot, and
/// neither starts nor ends with one.
pub open spec fn valid_domain(domain: Seq<char>) -> bool {
    &&& domain.contains('.')
    &&& domain[0] != '.'
    &&& domain.last() != '.'
}

/// An address splits at its first `@` into a non-empty local part and a
/// valid domain.
pub open spec fn valid_email(email: Seq<char>) -> bool {
    exists|at: int|
        #![trigger is_first_occurrence(email, '@', at)]
        is_first_occurrence(email, '@', at) && 0 < at && valid_domain(
            email.subrange(at + 1, email.len() as int),
        )
}

/// An address made of a part without `@`, an `@` and a rest is valid exactly
/// when that first part is non-empty and the rest holds a dot and neither
/// starts nor ends with one, whatever other characters (`-`, digits, further
/// `@`) either part holds.
pub proof fn email_validity_by_parts(local: Seq<char>, domain: Seq<char>)
    requires
        !local.contains('@'),
    ensures
        valid_email(local + seq!['@'] + domain) <==> (local.len() > 0 && domain.contains('.')
            && domain[0] != '.' && domain[domain.len() - 1] != '.'),
{
    let s = local + seq!['@'] + domain;
    let at = local.len() as int;
    assert(s[at] == '@');
    assert forall|j: int| 0 <= j < at implies s[j] != '@' by {
        assert(s[j] == local[j]);
        if local[j] == '@' {
            assert(local.contains('@'));
        }
    }
    assert(is_first_occurrence(s, '@', at));
    assert(s.subrange(at + 1, s.len() as int) =~= domain);
    assert forall|other: int| is_first_occurrence(s, '@', other) implies other == at by {
        if other < at {
            assert(s[other] == local[other]);
            assert(local.contains('@'));
        } else if other > at {
            assert(s[at] != '@');
        }
    }
    if domain.contains('.') && domain.len() > 0 {
        assert(domain.last() == domain[domain.len() - 1]);
    }
}

/// An address without an `@` is never valid.
pub proof fn email_without_at_is_invalid(email: Seq<char>)
    requires
        !email.contains('@'),
    ensures
        !valid_email(email),
{
    assert forall|at: int| !is_first_occurrence(email, '@', at) by {
        if is_first_occurrence(email, '@', at) {
            assert(email.contains('@'));
        }
    }
}

/// Whether `email` looks like an e-mail address: a non-empty part before the
/// first `@`, and after it a domain that holds a dot and neither starts nor
/// ends with one.
pub fn is_valid_email(email: &str) -> (r: bool)
    ensures
        r == valid_email(email@),
{
    let n = email.unicode_len();
    match find_char(email, '@') {
        None => {
            assert forall|at: int| !is_first_occurrence(email@, '@', at) by {
                if is_first_occurrence(email@, '@', at) {
                    assert(email@.contains('@'));
                }
            }
            false
        },
        Some(at) => {
            assert forall|other: int| is_first_occurrence(email@, '@', other) implies other
                == at by {
                if other < at {
                    assert(email@[other] != '@');
                } else if other > at {
                    assert(email@[at as int] != '@');
                }
            }
            if at == 0 {
                return false;
            }
            let start = at + 1;
            let ghost domain = email@.subrange(start as int, n as int);
            if start >= n {
                assert(!domain.contains('.'));
                return false;
            }
            assert(domain[0] == email@[start as int]);
            assert(domain.last() == email@[n - 1]);
            if email.get_char(start) == '.' || email.get_char(n - 1) == '.' {
                return false;
            }
            contains_char_in(email, '.', start, n)
        },
    }
}

} // verus!
