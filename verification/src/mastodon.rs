//! Data carried by the platform: notifications, statuses, accounts, and a
//! status's thread context.  The HTTP calls that produce and consume these
//! values live outside the library; only plain data crosses the boundary.

use vstd::prelude::*;
use vstd::string::StrSliceExecFns;
use vstd::string::StringExecFns;
use crate::text::trim_spec;

verus! {

/// One post, as the stream and the context call deliver it.
pub struct Status {
    pub id: String,
    /// The post body as HTML.
    pub content: String,
    pub visibility: String,
    pub in_reply_to_id: Option<String>,
}

/// The account behind a notification.
pub struct Account {
    pub acct: String,
    /// The platform marks registered bots; absent means unknown.
    pub bot: Option<bool>,
}

/// One notification from the event stream.
pub struct Notification {
    pub id: String,
    /// The notification kind, `mention` being the one acted on.
    pub notif_type: String,
    pub status: Option<Status>,
    pub account: Account,
}

/// The thread around a status: ancestors oldest first, descendants unused.
pub struct StatusContext {
    pub ancestors: Vec<Status>,
    pub descendants: Vec<Status>,
}

/// The posted reply body: the author's handle as a leading mention, a
/// space, then the reply text.
pub fn build_reply_status_text(reply_to_acct: &str, body: &str) -> (r: String)
    ensures
        r@ == "@"@ + reply_to_acct@ + " "@ + body@,
{
    let r = String::from_str("@").concat(reply_to_acct).concat(" ").concat(body);
    proof {
        assert(r@ =~= "@"@ + reply_to_acct@ + " "@ + body@);
    }
    r
}

/// The body a standalone post may carry: the trimmed text, refused when
/// nothing is left after trimming.  `Some` exactly when the trimmed text
/// is non-empty.
pub fn trimmed_status_text(text: &str) -> (r: Option<String>)
    ensures
        match r {
            Some(s) => s@ == trim_spec(text@) && s@.len() > 0,
            None => trim_spec(text@).len() == 0,
        },
{
    let t = crate::text::trim_str(text);
    if t.as_str().unicode_len() == 0 {
        None
    } else {
        Some(t)
    }
}

} // verus!
