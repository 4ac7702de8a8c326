//! Echo detection: a reply that merely repeats the user's text, compared
//! with all whitespace removed from both sides.

use vstd::prelude::*;
use vstd::string::StrSliceExecFns;
use crate::text::{chars_of, is_space_char, is_space, string_from_chars};

verus! {

/// `s` with every whitespace character removed.
pub open spec fn keep_non_space(s: Seq<char>) -> Seq<char>
    decreases s.len(),
{
    if s.len() == 0 {
        Seq::empty()
    } else if is_space_char(s[0]) {
        keep_non_space(s.drop_first())
    } else {
        seq![s[0]] + keep_non_space(s.drop_first())
    }
}

/// A reply is an echo when both sides are non-empty after whitespace
/// removal and are then character-for-character identical.
pub open spec fn is_parrot_spec(user: Seq<char>, reply: Seq<char>) -> bool {
    let u = keep_non_space(user);
    let r = keep_non_space(reply);
    u.len() > 0 && r.len() > 0 && u == r
}

/// `s` with all whitespace characters filtered out.
pub fn normalize_for_parrot(s: &str) -> (r: String)
    ensures
        r@ == keep_non_space(s@),
{
    let v = chars_of(s);
    let n = v.len();
    let mut out: Vec<char> = Vec::new();
    let mut i: usize = 0;
    proof {
        assert(v@.skip(0) =~= v@);
        assert(Seq::<char>::empty() + keep_non_space(v@) =~= keep_non_space(v@));
    }
    while i < n
        invariant
            n == v@.len(),
            i <= n,
            keep_non_space(v@) == out@ + keep_non_space(v@.skip(i as int)),
        decreases n - i,
    {
        let ghost rest = v@.skip(i as int);
        if !is_space(v[i]) {
            out.push(v[i]);
        }
        i += 1;
        proof {
            assert(rest.drop_first() =~= v@.skip(i as int));
        }
    }
    proof {
        assert(v@.skip(n as int) =~= Seq::<char>::empty());
        assert(out@ + Seq::<char>::empty() =~= out@);
    }
    string_from_chars(&out)
}

/// Whether `reply_text` is a structural echo of `user_text`: identical
/// character for character once all whitespace is removed from both, with
/// both non-empty after that removal.
pub fn is_parrot_reply(user_text: &str, reply_text: &str) -> (r: bool)
    ensures
        r == is_parrot_spec(user_text@, reply_text@),
{
    let u = normalize_for_parrot(user_text);
    let r = normalize_for_parrot(reply_text);
    if u.as_str().unicode_len() == 0 || r.as_str().unicode_len() == 0 {
        return false;
    }
    u == r
}

} // verus!
