//! Reduction of a status's HTML body to plain text: tags are dropped, the
//! five basic character entities are decoded, and the result is trimmed.

use vstd::prelude::*;
use crate::text::{
    chars_of, replace_all_spec, replace_all_vec, string_from_chars, trim_spec, trim_vec,
};

verus! {

/// The characters of `s` that stand outside `<...>` tags, with `<` and `>`
/// acting as tag delimiters wherever they occur.
pub open spec fn strip_tags_spec(s: Seq<char>, in_tag: bool) -> Seq<char>
    decreases s.len(),
{
    if s.len() == 0 {
        Seq::empty()
    } else {
        let c = s[0];
        let rest = s.drop_first();
        if c == '<' {
            strip_tags_spec(rest, true)
        } else if c == '>' {
            strip_tags_spec(rest, false)
        } else if !in_tag {
            seq![c] + strip_tags_spec(rest, in_tag)
        } else {
            strip_tags_spec(rest, in_tag)
        }
    }
}

/// The five entity decodings, applied in the order the stripper uses them.
pub open spec fn decode_entities_spec(s: Seq<char>) -> Seq<char> {
    replace_all_spec(
        replace_all_spec(
            replace_all_spec(
                replace_all_spec(replace_all_spec(s, "&apos;"@, "'"@), "&quot;"@, "\""@),
                "&amp;"@,
                "&"@,
            ),
            "&lt;"@,
            "<"@,
        ),
        "&gt;"@,
        ">"@,
    )
}

/// What `strip_html` returns: tags dropped, entities decoded, ends trimmed.
pub open spec fn strip_html_spec(s: Seq<char>) -> Seq<char> {
    trim_spec(decode_entities_spec(strip_tags_spec(s, false)))
}

fn strip_tags(v: &Vec<char>) -> (r: Vec<char>)
    ensures
        r@ == strip_tags_spec(v@, false),
{
    let n = v.len();
    let mut out: Vec<char> = Vec::new();
    let mut in_tag = false;
    let mut i: usize = 0;
    proof {
        assert(v@.skip(0) =~= v@);
        assert(Seq::<char>::empty() + strip_tags_spec(v@, false) =~= strip_tags_spec(v@, false));
    }
    while i < n
        invariant
            n == v@.len(),
            i <= n,
            strip_tags_spec(v@, false) == out@ + strip_tags_spec(v@.skip(i as int), in_tag),
        decreases n - i,
    {
        let ghost rest = v@.skip(i as int);
        let c = v[i];
        if c == '<' {
            in_tag = true;
        } else if c == '>' {
            in_tag = false;
        } else if !in_tag {
            out.push(c);
        }
        i += 1;
        proof {
            assert(rest.drop_first() =~= v@.skip(i as int));
        }
    }
    proof {
        assert(v@.skip(n as int) =~= Seq::<char>::empty());
        assert(out@ + Seq::<char>::empty() =~= out@);
    }
    out
}

/// Reduces an HTML status body to plain text: characters inside `<...>`
/// tags are dropped, `&apos; &quot; &amp; &lt; &gt;` are decoded, and
/// surrounding whitespace is trimmed.
pub fn strip_html(input: &str) -> (r: String)
    ensures
        r@ == strip_html_spec(input@),
{
    proof {
        reveal_strlit("&apos;");
        reveal_strlit("&quot;");
        reveal_strlit("&amp;");
        reveal_strlit("&lt;");
        reveal_strlit("&gt;");
    }
    let v = chars_of(input);
    let stripped = strip_tags(&v);
    let s1 = replace_all_vec(&stripped, &chars_of("&apos;"), &chars_of("'"));
    let s2 = replace_all_vec(&s1, &chars_of("&quot;"), &chars_of("\""));
    let s3 = replace_all_vec(&s2, &chars_of("&amp;"), &chars_of("&"));
    let s4 = replace_all_vec(&s3, &chars_of("&lt;"), &chars_of("<"));
    let s5 = replace_all_vec(&s4, &chars_of("&gt;"), &chars_of(">"));
    let trimmed = trim_vec(&s5);
    string_from_chars(&trimmed)
}

} // verus!
