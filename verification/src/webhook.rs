//! Webhook dispatch: routing one inbound event to one handler decision, and
//! parsing the conversion command out of a mention's text.

use vstd::prelude::*;

use crate::seatalk_api::webhooks::ReceivedMessage;

verus! {

/// Errors of the webhook layer that the library itself decides.
#[derive(Debug)]
pub enum WebhookError {
    /// The mention's text does not hold a recognizable command.
    BadRequest(String),
}

/// Whether `pat` occurs in `s` at character position `i`.
pub open spec fn spec_match_at(s: Seq<char>, pat: Seq<char>, i: int) -> bool {
    0 <= i && i + pat.len() <= s.len() && s.subrange(i, i + pat.len()) == pat
}

/// The first position at or after `from` where `pat` occurs in `s`.
pub open spec fn spec_find(s: Seq<char>, pat: Seq<char>, from: int) -> Option<int>
    decreases s.len() + 1 - from,
{
    if from + pat.len() > s.len() {
        Option::None
    } else if spec_match_at(s, pat, from) {
        Option::Some(from)
    } else {
        spec_find(s, pat, from + 1)
    }
}

proof fn lemma_find_props(s: Seq<char>, pat: Seq<char>, from: int)
    ensures
        (match spec_find(s, pat, from) {
            Option::Some(i) => from <= i && spec_match_at(s, pat, i),
            Option::None => true,
        }),
    decreases s.len() + 1 - from,
{
    if from + pat.len() > s.len() {
    } else if spec_match_at(s, pat, from) {
    } else {
        lemma_find_props(s, pat, from + 1);
    }
}

/// The first position at or after `i` that does not hold a space.
pub open spec fn spec_skip_spaces(s: Seq<char>, i: int) -> int
    decreases s.len() - i,
{
    if 0 <= i < s.len() && s[i] == ' ' {
        spec_skip_spaces(s, i + 1)
    } else {
        i
    }
}

/// `t` with one trailing slash removed, if it ends with one.
pub open spec fn spec_strip_trailing_slash(t: Seq<char>) -> Seq<char> {
    if t.len() > 0 && t.last() == '/' {
        t.drop_last()
    } else {
        t
    }
}

/// The set name a command text holds: an optional leading mention (anything
/// starting with '@') before the literal `/convert`, then spaces, then a
/// sticker- or emoji-set URL; the name is what follows the URL prefix, with
/// one trailing slash stripped.
pub open spec fn spec_parse_set_name(s: Seq<char>) -> Option<Seq<char>> {
    match spec_find(s, ("/convert")@, 0) {
        Option::None => Option::None,
        Option::Some(i) => if i == 0 || s[0] == '@' {
            let j = spec_skip_spaces(s, i + ("/convert")@.len());
            if spec_match_at(s, ("https://t.me/addstickers/")@, j) {
                Option::Some(
                    spec_strip_trailing_slash(
                        s.subrange(j + ("https://t.me/addstickers/")@.len(), s.len() as int),
                    ),
                )
            } else if spec_match_at(s, ("https://t.me/addemoji/")@, j) {
                Option::Some(
                    spec_strip_trailing_slash(
                        s.subrange(j + ("https://t.me/addemoji/")@.len(), s.len() as int),
                    ),
                )
            } else {
                Option::None
            }
        } else {
            Option::None
        },
    }
}

/// Whether `pat` occurs in `s` at character position `i`.
fn match_at(s: &str, pat: &str, i: usize) -> (r: bool)
    ensures
        r == spec_match_at(s@, pat@, i as int),
{
    let n = s.unicode_len();
    let m = pat.unicode_len();
    if m > n || i > n - m {
        return false;
    }
    let mut k: usize = 0;
    while k < m
        invariant
            k <= m,
            m <= n,
            i <= n - m,
            n == s@.len(),
            m == pat@.len(),
            forall|q: int| 0 <= q < k ==> s@[i + q] == pat@[q],
        decreases m - k,
    {
        if s.get_char(i + k) != pat.get_char(k) {
            proof {
                if spec_match_at(s@, pat@, i as int) {
                    assert(s@.subrange(i as int, i as int + m as int)[k as int] == pat@[k as int]);
                }
            }
            return false;
        }
        k += 1;
    }
    proof {
        assert(s@.subrange(i as int, i as int + m as int) =~= pat@);
    }
    true
}

/// The first occurrence of `pat` in `s`, as a character position.
fn find_substring(s: &str, pat: &str) -> (r: Option<usize>)
    ensures
        (match r {
            Option::Some(i) => spec_find(s@, pat@, 0) == Option::Some(i as int),
            Option::None => spec_find(s@, pat@, 0) is None,
        }),
{
    let n = s.unicode_len();
    let m = pat.unicode_len();
    if m > n {
        proof {
            assert(spec_find(s@, pat@, 0) is None);
        }
        return Option::None;
    }
    if m == 0 {
        proof {
            assert(s@.subrange(0, 0) =~= pat@);
            assert(spec_match_at(s@, pat@, 0));
        }
        return Option::Some(0);
    }
    let mut i: usize = 0;
    while i <= n - m
        invariant
            1 <= m <= n,
            i <= n - m + 1,
            n == s@.len(),
            m == pat@.len(),
            spec_find(s@, pat@, 0) == spec_find(s@, pat@, i as int),
        decreases n - m - i + 1,
    {
        if match_at(s, pat, i) {
            proof {
                assert(spec_find(s@, pat@, i as int) == Option::Some(i as int));
            }
            return Option::Some(i);
        }
        proof {
            assert(spec_find(s@, pat@, i as int) == spec_find(s@, pat@, i as int + 1));
        }
        i += 1;
    }
    proof {
        assert(spec_find(s@, pat@, i as int) is None);
    }
    Option::None
}

/// The first position at or after `i` in `s` that does not hold a space.
fn skip_spaces(s: &str, i: usize) -> (r: usize)
    requires
        i <= s@.len(),
    ensures
        r == spec_skip_spaces(s@, i as int),
        i <= r <= s@.len(),
{
    let n = s.unicode_len();
    let mut j = i;
    while j < n && s.get_char(j) == ' '
        invariant
            i <= j <= n,
            n == s@.len(),
            spec_skip_spaces(s@, i as int) == spec_skip_spaces(s@, j as int),
        decreases n - j,
    {
        proof {
            assert(spec_skip_spaces(s@, j as int) == spec_skip_spaces(s@, j as int + 1));
        }
        j += 1;
    }
    proof {
        assert(spec_skip_spaces(s@, j as int) == j as int);
    }
    j
}

/// Parses the sticker-set name out of a mention's text; text that does not
/// hold the command and a set URL is rejected, and the caller answers with a
/// usage hint in the thread rather than a webhook-level error.
pub fn parse_sticker_set_name(message: &str) -> (r: Result<String, WebhookError>)
    ensures
        (match r {
            Result::Ok(name) => spec_parse_set_name(message@) == Option::Some(name@),
            Result::Err(e) => spec_parse_set_name(message@) is None && (e
                matches WebhookError::BadRequest(m) && m@ == ("Cannot capture URL")@),
        }),
{
    proof {
        reveal_strlit("/convert");
        reveal_strlit("https://t.me/addstickers/");
        reveal_strlit("https://t.me/addemoji/");
    }
    // binds the character count, so the position arithmetic below stays in range
    let _n = message.unicode_len();
    let i = match find_substring(message, "/convert") {
        Option::Some(i) => i,
        Option::None => {
            return Result::Err(WebhookError::BadRequest(("Cannot capture URL").to_owned()));
        },
    };
    proof {
        lemma_find_props(message@, ("/convert")@, 0);
    }
    if i != 0 && message.get_char(0) != '@' {
        return Result::Err(WebhookError::BadRequest(("Cannot capture URL").to_owned()));
    }
    let j = skip_spaces(message, i + 8);
    if match_at(message, "https://t.me/addstickers/", j) {
        let start = j + 25;
        Result::Ok(strip_tail_slash(message, start))
    } else if match_at(message, "https://t.me/addemoji/", j) {
        let start = j + 22;
        Result::Ok(strip_tail_slash(message, start))
    } else {
        Result::Err(WebhookError::BadRequest(("Cannot capture URL").to_owned()))
    }
}

/// The tail of `s` from `start`, with one trailing slash removed.
fn strip_tail_slash(s: &str, start: usize) -> (r: String)
    requires
        start <= s@.len(),
    ensures
        r@ == spec_strip_trailing_slash(s@.subrange(start as int, s@.len() as int)),
{
    let n = s.unicode_len();
    if start < n && s.get_char(n - 1) == '/' {
        let t = s.substring_char(start, n - 1);
        proof {
            assert(s@.subrange(start as int, n as int).last() == s@[n - 1]);
            assert(s@.subrange(start as int, n as int).drop_last() =~= s@.subrange(
                start as int,
                n as int - 1,
            ));
        }
        t.to_owned()
    } else {
        let t = s.substring_char(start, n);
        t.to_owned()
    }
}

/// The decision for one inbound event.
#[derive(Debug)]
pub enum DispatchAction {
    /// Echo the verification challenge synchronously.
    Challenge { seatalk_challenge: String },
    /// Send the two promotional messages to the sender.
    SubscriberPromo { employee_code: String },
    /// Send the two promotional messages to the group.
    GroupPromo { group_id: String },
    /// Detach a conversion job; the triggering message id becomes the job's
    /// thread id.
    SpawnJob { group_id: String, thread_id: String, text: String },
    /// A mention already inside a thread matches no handler.
    DropEvent,
}

/// Whether the mention lies outside any thread.
pub open spec fn spec_thread_empty(t: Option<String>) -> bool {
    match t {
        Option::None => true,
        Option::Some(s) => s@.len() == 0,
    }
}

/// Whether `gid` stands in the allow-list.
pub open spec fn spec_allowed(allow: Seq<String>, gid: Seq<char>) -> bool {
    exists|k: int| 0 <= k < allow.len() && allow[k]@ == gid
}

/// The decision the dispatcher takes for `event` under `allow`: echo a
/// challenge; promote to a subscriber; promote to a group that is not
/// allow-listed; spawn a job for an allow-listed group mention outside any
/// thread; drop a mention already inside a thread.
pub open spec fn spec_dispatch(event: ReceivedMessage, allow: Seq<String>) -> DispatchAction {
    match event {
        ReceivedMessage::EventVerification { event, .. } => DispatchAction::Challenge {
            seatalk_challenge: event.seatalk_challenge,
        },
        ReceivedMessage::MessageFromBotSubscriber { event, .. } => DispatchAction::SubscriberPromo {
            employee_code: event.employee_code,
        },
        ReceivedMessage::NewMentionedMessageFromGroupChat { event, .. } => if !spec_allowed(
            allow,
            event.group_id@,
        ) {
            DispatchAction::GroupPromo { group_id: event.group_id }
        } else if spec_thread_empty(event.message.thread_id) {
            DispatchAction::SpawnJob {
                group_id: event.group_id,
                thread_id: event.message.message_id,
                text: event.message.text.plain_text,
            }
        } else {
            DispatchAction::DropEvent
        },
    }
}

/// Whether `x` stands in `v`.
fn contains_string(v: &Vec<String>, x: &String) -> (r: bool)
    ensures
        r == spec_allowed(v@, x@),
{
    let mut k: usize = 0;
    while k < v.len()
        invariant
            k <= v@.len(),
            forall|q: int| 0 <= q < k ==> v@[q]@ != x@,
        decreases v@.len() - k,
    {
        if x.eq(&v[k]) {
            proof {
                assert(v@[k as int]@ == x@);
            }
            return true;
        }
        k += 1;
    }
    false
}

/// Routes one inbound event to its handler decision. In particular a group
/// mention with a non-empty thread id is dropped, whatever the sender and
/// the text.
pub fn dispatch(event: ReceivedMessage, allowlist: &Vec<String>) -> (a: DispatchAction)
    ensures
        a == spec_dispatch(event, allowlist@),
{
    match event {
        ReceivedMessage::EventVerification { event, .. } => DispatchAction::Challenge {
            seatalk_challenge: event.seatalk_challenge,
        },
        ReceivedMessage::MessageFromBotSubscriber { event, .. } => DispatchAction::SubscriberPromo {
            employee_code: event.employee_code,
        },
        ReceivedMessage::NewMentionedMessageFromGroupChat { event, .. } => {
            if !contains_string(allowlist, &event.group_id) {
                DispatchAction::GroupPromo { group_id: event.group_id }
            } else {
                let empty_thread = match &event.message.thread_id {
                    Option::None => true,
                    Option::Some(t) => t.as_str().is_empty(),
                };
                if empty_thread {
                    DispatchAction::SpawnJob {
                        group_id: event.group_id,
                        thread_id: event.message.message_id,
                        text: event.message.text.plain_text,
                    }
                } else {
                    DispatchAction::DropEvent
                }
            }
        },
    }
}

/// A group mention that already lies inside a thread never spawns a job,
/// whatever the allow-list holds and whatever the text says.
pub proof fn lemma_thread_mention_never_spawns(event: ReceivedMessage, allow: Seq<String>)
    requires
        event matches ReceivedMessage::NewMentionedMessageFromGroupChat { event: e, .. }
            && e.message.thread_id matches Option::Some(t) && t@.len() > 0,
    ensures
        !(spec_dispatch(event, allow) is SpawnJob),
{
}

} // verus!
