//! Email validation for the text-input demo feature.
//!
//! The rule is deliberately shallow: an empty input is acceptable (the
//! field just shows its prompt), and otherwise the text must contain a
//! dot and exactly one `@` that is neither the first nor the last
//! character.

use vstd::prelude::*;
use vstd::string::StrSliceExecFns;
use vstd::string::StringExecFns;

verus! {

/// How many times `c` occurs in `s`.
pub open spec fn count_char(s: Seq<char>, c: char) -> nat
    decreases s.len(),
{
    if s.len() == 0 {
        0
    } else {
        count_char(s.drop_last(), c) + (if s.last() == c {
            1nat
        } else {
            0nat
        })
    }
}

/// Whether the text passes validation: empty, or a dot somewhere and a
/// single `@` with a nonempty part on each side.
pub open spec fn email_valid(s: Seq<char>) -> bool {
    s.len() == 0 || (count_char(s, '@') == 1 && s.contains('.') && s[0] != '@' && s[s.len() - 1]
        != '@')
}

/// The user-facing message for each outcome, in the order the checks are
/// made: prompt on empty input, then the missing `@`, the missing
/// domain dot, a malformed split around `@`, and finally success.
pub open spec fn email_message(s: Seq<char>) -> Seq<char> {
    if s.len() == 0 {
        "Digite um email..."@
    } else if !s.contains('@') {
        "Email deve conter @"@
    } else if !s.contains('.') {
        "Email deve conter um domínio"@
    } else if !(count_char(s, '@') == 1 && s[0] != '@' && s[s.len() - 1] != '@') {
        "Formato de email inválido"@
    } else {
        "✓ Email válido!"@
    }
}

/// Counting over a prefix grows by one exactly at positions holding `c`.
proof fn lemma_count_char_take_step(s: Seq<char>, c: char, i: int)
    requires
        0 <= i < s.len(),
    ensures
        count_char(s.take(i + 1), c) == count_char(s.take(i), c) + (if s[i] == c {
            1nat
        } else {
            0nat
        }),
{
    assert(s.take(i + 1).drop_last() =~= s.take(i));
    assert(s.take(i + 1).last() == s[i]);
}

/// A positive count names an occurrence, and a zero count rules one out.
proof fn lemma_count_char_contains(s: Seq<char>, c: char)
    ensures
        count_char(s, c) > 0 <==> s.contains(c),
    decreases s.len(),
{
    if s.len() > 0 {
        lemma_count_char_contains(s.drop_last(), c);
        if s.contains(c) && s.last() != c {
            let i = choose|i: int| 0 <= i < s.len() && s[i] == c;
            assert(s.drop_last()[i] == c);
            assert(s.drop_last().contains(c));
        }
        if s.drop_last().contains(c) {
            let i = choose|i: int| 0 <= i < s.drop_last().len() && s.drop_last()[i] == c;
            assert(s[i] == c);
        }
    }
}

/// Checks the text against the email rule and returns the verdict with
/// its user-facing message.
pub fn validate_email(text: &str) -> (r: (bool, String))
    ensures
        r.0 == email_valid(text@),
        r.1@ == email_message(text@),
{
    let n: usize = text.unicode_len();
    if n == 0 {
        return (true, String::from_str("Digite um email..."));
    }
    let mut at_count: usize = 0;
    let mut has_dot: bool = false;
    let mut i: usize = 0;
    proof {
        assert(text@.take(0) =~= Seq::<char>::empty());
    }
    while i < n
        invariant
            n == text@.len(),
            i <= n,
            at_count <= i,
            at_count == count_char(text@.take(i as int), '@'),
            has_dot <==> exists|j: int| 0 <= j < i && text@[j] == '.',
        decreases n - i,
    {
        let c = text.get_char(i);
        proof {
            lemma_count_char_take_step(text@, '@', i as int);
        }
        if c == '@' {
            at_count = at_count + 1;
        }
        if c == '.' {
            has_dot = true;
        }
        i = i + 1;
    }
    proof {
        assert(text@.take(n as int) =~= text@);
        lemma_count_char_contains(text@, '@');
        lemma_count_char_contains(text@, '.');
        assert(has_dot <==> text@.contains('.'));
    }
    if at_count == 0 {
        return (false, String::from_str("Email deve conter @"));
    }
    if !has_dot {
        return (false, String::from_str("Email deve conter um domínio"));
    }
    let first = text.get_char(0);
    let last = text.get_char(n - 1);
    if at_count != 1 || first == '@' || last == '@' {
        return (false, String::from_str("Formato de email inválido"));
    }
    (true, String::from_str("✓ Email válido!"))
}

} // verus!
