//! Configuration-side helpers that are pure computation: the visibility
//! enum with its textual forms, the default streaming URL derived from
//! the HTTP base, the secret-masking used for logs, the default reply
//! model, and the temperature rule for newer models.

use vstd::prelude::*;
use vstd::string::StrSliceExecFns;
use vstd::string::StringExecFns;
use crate::text::{chars_of, contains_pat, contains_seq, has_prefix_at, string_from_chars,
    subrange_vec};

verus! {

/// A post's visibility on the platform.
#[derive(Clone, Copy, PartialEq, Eq, Structural, Debug)]
pub enum Visibility {
    Public,
    Unlisted,
    Private,
    Direct,
}

/// The wire word for each visibility.
pub open spec fn visibility_str(v: Visibility) -> Seq<char> {
    match v {
        Visibility::Public => "public"@,
        Visibility::Unlisted => "unlisted"@,
        Visibility::Private => "private"@,
        Visibility::Direct => "direct"@,
    }
}

/// The two characters are equal once an ASCII capital is lowered; `b` is
/// expected lowercase.
pub open spec fn same_ci(a: char, b: char) -> bool {
    a == b || (0x41 <= a as u32 && a as u32 <= 0x5a && a as u32 + 0x20 == b as u32)
}

/// `a` equals `b` after lowering `a`'s ASCII capitals, as comparing
/// `a.to_ascii_lowercase()` with a lowercase `b` does.
pub open spec fn matches_ci(a: Seq<char>, b: Seq<char>) -> bool {
    a.len() == b.len() && forall|i: int| 0 <= i < a.len() ==> same_ci(a[i], #[trigger] b[i])
}

fn eq_ci(a: &Vec<char>, b: &Vec<char>) -> (r: bool)
    ensures
        r == matches_ci(a@, b@),
{
    let n = a.len();
    if n != b.len() {
        return false;
    }
    let mut i: usize = 0;
    while i < n
        invariant
            n == a@.len() == b@.len(),
            i <= n,
            forall|k: int| 0 <= k < i ==> same_ci(a@[k], #[trigger] b@[k]),
        decreases n - i,
    {
        let ca = a[i];
        let cb = b[i];
        if ca != cb {
            let x = ca as u32;
            let y = cb as u32;
            if !(0x41 <= x && x <= 0x5a && x + 0x20 == y) {
                return false;
            }
        }
        i += 1;
    }
    true
}

impl Visibility {
    /// The wire word, for requests and logs.
    pub fn as_str(self) -> (r: &'static str)
        ensures
            r@ == visibility_str(self),
    {
        match self {
            Visibility::Public => "public",
            Visibility::Unlisted => "unlisted",
            Visibility::Private => "private",
            Visibility::Direct => "direct",
        }
    }

    /// Reads a visibility word, ASCII-case-insensitively; `None` exactly
    /// when the text is none of the four words.
    pub fn parse(s: &str) -> (r: Option<Visibility>)
        ensures
            match r {
                Some(v) => matches_ci(s@, visibility_str(v)),
                None => !matches_ci(s@, "public"@) && !matches_ci(s@, "unlisted"@)
                    && !matches_ci(s@, "private"@) && !matches_ci(s@, "direct"@),
            },
    {
        proof {
            reveal_strlit("public");
            reveal_strlit("unlisted");
            reveal_strlit("private");
            reveal_strlit("direct");
        }
        let v = chars_of(s);
        if eq_ci(&v, &chars_of("public")) {
            Some(Visibility::Public)
        } else if eq_ci(&v, &chars_of("unlisted")) {
            Some(Visibility::Unlisted)
        } else if eq_ci(&v, &chars_of("private")) {
            Some(Visibility::Private)
        } else if eq_ci(&v, &chars_of("direct")) {
            Some(Visibility::Direct)
        } else {
            None
        }
    }
}

/// What the default streaming URL is: the HTTP base with its scheme
/// turned into the websocket one and the streaming path appended; a base
/// with neither HTTP scheme is taken to be a websocket URL already.
pub open spec fn default_streaming_ws_spec(base: Seq<char>) -> Seq<char> {
    if "https://"@.is_prefix_of(base) {
        "wss://"@ + base.skip(8) + "/api/v1/streaming"@
    } else if "http://"@.is_prefix_of(base) {
        "ws://"@ + base.skip(7) + "/api/v1/streaming"@
    } else {
        base
    }
}

/// Derives the default streaming URL from the HTTP base URL.
pub fn default_streaming_ws(http_base: &str) -> (r: String)
    ensures
        r@ == default_streaming_ws_spec(http_base@),
{
    proof {
        reveal_strlit("https://");
        reveal_strlit("http://");
    }
    let v = chars_of(http_base);
    if has_prefix_at(&v, 0, &chars_of("https://")) {
        proof {
            assert(v@.skip(0) =~= v@);
            assert(v@.subrange(8, v@.len() as int) =~= v@.skip(8));
        }
        let rest = subrange_vec(&v, 8, v.len());
        String::from_str("wss://").concat(string_from_chars(&rest).as_str()).concat(
            "/api/v1/streaming",
        )
    } else if has_prefix_at(&v, 0, &chars_of("http://")) {
        proof {
            assert(v@.skip(0) =~= v@);
            assert(v@.subrange(7, v@.len() as int) =~= v@.skip(7));
        }
        let rest = subrange_vec(&v, 7, v.len());
        String::from_str("ws://").concat(string_from_chars(&rest).as_str()).concat(
            "/api/v1/streaming",
        )
    } else {
        proof {
            assert(v@.skip(0) =~= v@);
        }
        String::from_str(http_base)
    }
}

/// What masking leaves of a secret: three asterisks for anything of six
/// characters or fewer, otherwise its first three characters and the
/// asterisks.
pub open spec fn mask_spec(s: Seq<char>) -> Seq<char> {
    if s.len() <= 6 {
        "***"@
    } else {
        s.take(3) + "***"@
    }
}

/// Masks a secret for log output.
pub fn mask(s: &str) -> (r: String)
    ensures
        r@ == mask_spec(s@),
{
    let n = s.unicode_len();
    if n <= 6 {
        String::from_str("***")
    } else {
        let head = s.substring_char(0, 3);
        proof {
            assert(s@.subrange(0, 3) =~= s@.take(3));
        }
        String::from_str(head).concat("***")
    }
}

/// The reply model used when none is configured.
pub fn default_reply_model() -> (r: String)
    ensures
        r@ == "gpt-4.1-mini"@,
{
    String::from_str("gpt-4.1-mini")
}

/// Whether the transport may send a sampling temperature to this model:
/// models whose name mentions `gpt-5` reject one.
pub fn model_accepts_temperature(model: &str) -> (r: bool)
    ensures
        r == !contains_seq(model@, "gpt-5"@),
{
    let v = chars_of(model);
    !contains_pat(&v, &chars_of("gpt-5"))
}

} // verus!
