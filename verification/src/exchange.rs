//! What this console says about its own publishing to coalition exchange.
//!
//! The link decides what to do with an answer; this says it, in one line whatever
//! happened, so a refusal is said once rather than once per attempt and its counts grow
//! in place. Only this console can name what would change a refusal: which roles may
//! publish.

use vstd::prelude::*;
use crate::session::{Role, role_name, spec_role_name};
use crate::text::{decimal, push_decimal, push_str, uppercase, uppercase_of};

verus! {

/// A set of products this console publishes to coalition exchange.
#[derive(Debug, Clone, Copy, PartialEq, Eq, Structural)]
pub enum ExchangeItem {
    Handoffs,
    Warnings,
    Reports,
    Tracks,
    Health,
}

/// How PN-09 colours the exchange line.
#[derive(Debug, Clone, Copy, PartialEq, Eq, Structural)]
pub enum ExchangeStanding {
    /// Everything held has reached the node, or is on its way.
    Current,
    /// Something held has not reached the node yet, or the node dropped a set.
    Waiting,
    /// The node refused this console as a publisher.
    Refused,
}

/// A publish answer the node refused, in its own words.
#[derive(Debug, Clone, PartialEq, Eq)]
pub struct PublishRefusal {
    pub item: ExchangeItem,
    pub status: u16,
    pub reason: String,
}

/// A set the node has not taken yet, and how often it was offered.
#[derive(Debug, Clone, PartialEq, Eq)]
pub struct PublishRetry {
    pub attempts: u32,
    pub last_failure: String,
}

/// What the link reports of this console's publishing.
#[derive(Debug, Clone, Default, PartialEq, Eq)]
pub struct ExchangePublishing {
    pub posts: u64,
    pub delivered: u64,
    pub superseded: u64,
    pub rejected: u64,
    pub refused: Option<PublishRefusal>,
    pub retrying: Option<PublishRetry>,
    pub last_rejection: Option<PublishRefusal>,
}

/// The link's standing on exchange: the sets it holds and what became of its publishing.
#[derive(Debug, Clone, Default, PartialEq, Eq)]
pub struct LinkStanding {
    pub waiting: Vec<ExchangeItem>,
    pub publishing: ExchangePublishing,
}

/// PN-09's line about this console's exchange publishing.
#[derive(Debug, Clone, PartialEq, Eq)]
pub struct OwnedExchangeLine {
    pub standing: ExchangeStanding,
    pub text: String,
}

/// An item in the words the line uses.
pub open spec fn item_words(item: ExchangeItem) -> Seq<char> {
    match item {
        ExchangeItem::Handoffs => "handoffs"@,
        ExchangeItem::Warnings => "launch warnings"@,
        ExchangeItem::Reports => "mission report"@,
        ExchangeItem::Tracks => "tracks"@,
        ExchangeItem::Health => "health"@,
    }
}

/// Words separated by commas.
pub open spec fn comma_list(words: Seq<Seq<char>>) -> Seq<char>
    decreases words.len(),
{
    if words.len() == 0 {
        Seq::empty()
    } else if words.len() == 1 {
        words[0]
    } else {
        comma_list(words.drop_last()) + ", "@ + words.last()
    }
}

/// Words as a list in prose: "a", "a and b", "a, b and c".
pub open spec fn joined(words: Seq<Seq<char>>, conjunction: Seq<char>) -> Seq<char> {
    if words.len() == 0 {
        Seq::empty()
    } else if words.len() == 1 {
        words[0]
    } else {
        comma_list(words.drop_last()) + " "@ + conjunction + " "@ + words.last()
    }
}

/// The views of a list of strings.
pub open spec fn views(words: Seq<String>) -> Seq<Seq<char>> {
    words.map_values(|w: String| w@)
}

/// Whether a held list reads in the singular: a mission report, or health, alone.
pub open spec fn reads_singular(items: Seq<ExchangeItem>) -> bool {
    items.len() == 1 && (items[0] == ExchangeItem::Reports || items[0] == ExchangeItem::Health)
}

/// The held items as a noun phrase, and the verb that agrees with it.
pub open spec fn items_phrase(items: Seq<ExchangeItem>) -> (Seq<char>, Seq<char>) {
    if items.len() == 0 {
        ("nothing"@, "is"@)
    } else {
        (
            "this console's "@ + joined(items.map_values(|i: ExchangeItem| item_words(i)), "and"@),
            if reads_singular(items) { "is"@ } else { "are"@ },
        )
    }
}

/// A text with its first character in upper case.
pub open spec fn capital(text: Seq<char>) -> Seq<char> {
    if text.len() == 0 {
        Seq::empty()
    } else {
        uppercase_of(text[0]) + text.subrange(1, text.len() as int)
    }
}

/// "s" unless the count is one.
pub open spec fn plural_s(n: nat) -> Seq<char> {
    if n == 1 { ""@ } else { "s"@ }
}

/// What would change a refusal: a new session for a `401`, a publishing role otherwise.
pub open spec fn what_changes(status: u16, publishers: Seq<char>) -> Seq<char> {
    if status == 401 {
        "sent when the link signs in again"@
    } else {
        "nothing more is sent until this console's link signs in as a role that may publish ("@
            + publishers + ")"@
    }
}

/// Who the node refused, in its own terms.
pub open spec fn whom(status: u16) -> Seq<char> {
    if status == 401 {
        "no longer accepts this link's session"@
    } else {
        "refused this console as a publisher"@
    }
}

/// The refusal sentence: the node's words, what is held, and what would change it.
pub open spec fn refused_text(status: u16, reason: Seq<char>, held: Seq<char>, are: Seq<char>, publishers: Seq<char>) -> Seq<char> {
    "Not publishing to coalition exchange: the node "@ + whom(status) + " ("@ + decimal(status as nat)
        + ": "@ + reason + "). "@ + capital(held) + " "@ + are
        + " held here, the newest set of each, and "@ + what_changes(status, publishers)
        + ". Partners are not told about them until then."@
}

/// The sentence for a set the node has not taken yet.
pub open spec fn waiting_text(held: Seq<char>, are: Seq<char>, waiting: nat, attempts: nat, failure: Seq<char>, ceiling_s: nat) -> Seq<char> {
    "Coalition exchange: "@ + held + " "@ + are + " waiting for the node, which has not taken "@
        + (if waiting == 1 { "it"@ } else { "them"@ }) + " after "@ + decimal(attempts) + " attempt"@
        + plural_s(attempts) + " (the last: "@ + failure
        + "). Offered again at a growing interval, never less often than every "@ + decimal(ceiling_s)
        + " s."@
}

/// The sentence for a console with nothing waiting.
pub open spec fn quiet_text(delivered: nat) -> Seq<char> {
    if delivered == 0 {
        "Coalition exchange: nothing published from this console yet."@
    } else {
        "Coalition exchange: "@ + decimal(delivered) + " set"@ + plural_s(delivered)
            + " published from this console; nothing waiting."@
    }
}

/// The sentence and colour before the superseded and rejected sets are said.
pub open spec fn base_line(standing: LinkStanding, publishers: Seq<char>, ceiling_s: nat) -> (ExchangeStanding, Seq<char>) {
    let p = standing.publishing;
    let held = items_phrase(standing.waiting@).0;
    let are = items_phrase(standing.waiting@).1;
    if p.refused is Some {
        let r = p.refused->0;
        (ExchangeStanding::Refused, refused_text(r.status, r.reason@, held, are, publishers))
    } else if p.retrying is Some && standing.waiting@.len() != 0 {
        let t = p.retrying->0;
        (ExchangeStanding::Waiting, waiting_text(held, are, standing.waiting@.len(), t.attempts as nat, t.last_failure@, ceiling_s))
    } else if standing.waiting@.len() == 0 {
        (ExchangeStanding::Current, quiet_text(p.delivered as nat))
    } else {
        (ExchangeStanding::Current, "Coalition exchange: sending "@ + held + " to the node."@)
    }
}

/// The superseded sets, said after the base sentence.
pub open spec fn with_superseded(text: Seq<char>, n: nat) -> Seq<char> {
    if n > 0 {
        text + " "@ + decimal(n) + " older set"@ + plural_s(n) + " "@
            + (if n == 1 { "was"@ } else { "were"@ }) + " replaced by a newer one before "@
            + (if n == 1 { "it"@ } else { "they"@ })
            + " could be sent; only the newest set of each is held."@
    } else {
        text
    }
}

/// The last rejected set, said after the rest.
pub open spec fn with_rejection(text: Seq<char>, rejected: nat, rejection: Option<PublishRefusal>) -> Seq<char> {
    match rejection {
        Some(r) => text + " The node rejected "@ + decimal(rejected) + " set"@ + plural_s(rejected)
            + " as sent, the last of "@ + item_words(r.item) + " ("@ + decimal(r.status as nat) + ": "@
            + r.reason@ + "); each was dropped, and the next set for that item replaces it."@,
        None => text,
    }
}

/// The whole line for one standing: a rejected set turns a current line to waiting.
pub open spec fn exchange_line_of(standing: LinkStanding, publishers: Seq<char>, ceiling_s: nat) -> (ExchangeStanding, Seq<char>) {
    let base = base_line(standing, publishers, ceiling_s);
    let p = standing.publishing;
    let text = with_rejection(with_superseded(base.1, p.superseded as nat), p.rejected as nat, p.last_rejection);
    let kind = if p.last_rejection is Some && base.0 == ExchangeStanding::Current {
        ExchangeStanding::Waiting
    } else {
        base.0
    };
    (kind, text)
}

/// An item in the words the line uses.
pub fn item_in_words(item: ExchangeItem) -> (words: &'static str)
    ensures
        words@ == item_words(item),
{
    match item {
        ExchangeItem::Handoffs => "handoffs",
        ExchangeItem::Warnings => "launch warnings",
        ExchangeItem::Reports => "mission report",
        ExchangeItem::Tracks => "tracks",
        ExchangeItem::Health => "health",
    }
}

/// Words as a list in prose, the last joined by `conjunction`: "a", "a and b",
/// "a, b and c"; nothing for no words.
pub fn join(words: &[String], conjunction: &str) -> (text: String)
    ensures
        text@ == joined(views(words@), conjunction@),
{
    let n = words.len();
    let ghost ws = views(words@);
    if n == 0 {
        return String::new();
    }
    if n == 1 {
        let one = words[0].clone();
        return one;
    }
    let mut text = String::new();
    let mut i: usize = 0;
    while i < n - 1
        invariant
            n == words@.len(),
            n >= 2,
            ws == views(words@),
            i <= n - 1,
            text@ == comma_list(ws.take(i as int)),
        decreases n - 1 - i,
    {
        let ghost before = text@;
        if i > 0 {
            push_str(&mut text, ", ");
        }
        push_str(&mut text, words[i].as_str());
        proof {
            assert(ws.take(i + 1).drop_last() =~= ws.take(i as int));
            assert(ws.take(i + 1).last() == ws[i as int]);
            if i == 0 {
                assert(ws.take(0) =~= Seq::<Seq<char>>::empty());
                assert(text@ =~= ws[0]);
            }
        }
        i = i + 1;
    }
    proof {
        assert(ws.take((n - 1) as int) =~= ws.drop_last());
    }
    push_str(&mut text, " ");
    push_str(&mut text, conjunction);
    push_str(&mut text, " ");
    push_str(&mut text, words[n - 1].as_str());
    text
}

/// A text with its first character in upper case.
pub fn capitalised(text: &str) -> (out: String)
    ensures
        out@ == capital(text@),
{
    let n = text.unicode_len();
    if n == 0 {
        return String::new();
    }
    let first = text.get_char(0);
    let mut out = uppercase(first);
    push_str(&mut out, text.substring_char(1, n));
    out
}

/// The held items as a noun phrase, and the verb that agrees with it: "this console's
/// handoffs and launch warnings", "are"; "this console's mission report", "is".
pub fn items_in_words(items: &[ExchangeItem]) -> (phrase: (String, &'static str))
    ensures
        phrase.0@ == items_phrase(items@).0,
        phrase.1@ == items_phrase(items@).1,
{
    let n = items.len();
    if n == 0 {
        return (String::from_str("nothing"), "is");
    }
    let mut words: Vec<String> = Vec::new();
    let mut i: usize = 0;
    while i < n
        invariant
            n == items@.len(),
            i <= n,
            words@.len() == i,
            forall|k: int| 0 <= k < i ==> #[trigger] words@[k]@ == item_words(items@[k]),
        decreases n - i,
    {
        words.push(String::from_str(item_in_words(items[i])));
        i = i + 1;
    }
    assert(views(words@) =~= items@.map_values(|it: ExchangeItem| item_words(it)));
    let mut held = String::from_str("this console's ");
    let list = join(words.as_slice(), "and");
    push_str(&mut held, list.as_str());
    let singular = n == 1 && (items[0] == ExchangeItem::Reports || items[0] == ExchangeItem::Health);
    (held, if singular { "is" } else { "are" })
}

/// The roles that may publish to exchange, as a sentence: their names joined by "or".
pub fn roles_that_may_publish(roles: &[Role]) -> (sentence: String)
    ensures
        sentence@ == joined(roles@.map_values(|r: Role| spec_role_name(r)), "or"@),
{
    let n = roles.len();
    let mut names: Vec<String> = Vec::new();
    let mut i: usize = 0;
    while i < n
        invariant
            n == roles@.len(),
            i <= n,
            names@.len() == i,
            forall|k: int| 0 <= k < i ==> #[trigger] names@[k]@ == spec_role_name(roles@[k]),
        decreases n - i,
    {
        names.push(String::from_str(role_name(roles[i])));
        i = i + 1;
    }
    assert(views(names@) =~= roles@.map_values(|r: Role| spec_role_name(r)));
    join(names.as_slice(), "or")
}

/// The refusal, in the node's own words, with what is held and what would change it:
/// signing in again for a `401`, a role that may publish (`publishers`) otherwise.
pub fn refused_sentence(refused: &PublishRefusal, held: &str, are: &str, publishers: &str) -> (text: String)
    ensures
        text@ == refused_text(refused.status, refused.reason@, held@, are@, publishers@),
{
    let mut changes = String::new();
    if refused.status == 401 {
        push_str(&mut changes, "sent when the link signs in again");
    } else {
        push_str(&mut changes, "nothing more is sent until this console's link signs in as a role that may publish (");
        push_str(&mut changes, publishers);
        push_str(&mut changes, ")");
    }
    assert(changes@ =~= what_changes(refused.status, publishers@));
    let mut text = String::from_str("Not publishing to coalition exchange: the node ");
    push_str(&mut text, if refused.status == 401 {
        "no longer accepts this link's session"
    } else {
        "refused this console as a publisher"
    });
    push_str(&mut text, " (");
    push_decimal(&mut text, refused.status as u64);
    push_str(&mut text, ": ");
    push_str(&mut text, refused.reason.as_str());
    push_str(&mut text, "). ");
    let capital_held = capitalised(held);
    push_str(&mut text, capital_held.as_str());
    push_str(&mut text, " ");
    push_str(&mut text, are);
    push_str(&mut text, " held here, the newest set of each, and ");
    push_str(&mut text, changes.as_str());
    push_str(&mut text, ". Partners are not told about them until then.");
    text
}

/// The sentence for one standing, in one line whatever happened. `publishers` is the
/// sentence naming the roles that may publish; `retry_ceiling_s` is the longest interval
/// at which the link offers a set again.
pub fn line_for(standing: &LinkStanding, publishers: &str, retry_ceiling_s: u64) -> (line: OwnedExchangeLine)
    ensures
        line.standing == exchange_line_of(*standing, publishers@, retry_ceiling_s as nat).0,
        line.text@ == exchange_line_of(*standing, publishers@, retry_ceiling_s as nat).1,
{
    let publishing = &standing.publishing;
    let (held, are) = items_in_words(standing.waiting.as_slice());
    let waiting_len = standing.waiting.len();
    let mut kind;
    let mut text;
    if let Some(refused) = &publishing.refused {
        kind = ExchangeStanding::Refused;
        text = refused_sentence(refused, held.as_str(), are, publishers);
    } else if publishing.retrying.is_some() && waiting_len != 0 {
        let retrying = publishing.retrying.as_ref().unwrap();
        kind = ExchangeStanding::Waiting;
        text = String::from_str("Coalition exchange: ");
        push_str(&mut text, held.as_str());
        push_str(&mut text, " ");
        push_str(&mut text, are);
        push_str(&mut text, " waiting for the node, which has not taken ");
        push_str(&mut text, if waiting_len == 1 { "it" } else { "them" });
        push_str(&mut text, " after ");
        push_decimal(&mut text, retrying.attempts as u64);
        push_str(&mut text, " attempt");
        push_str(&mut text, if retrying.attempts == 1 { "" } else { "s" });
        push_str(&mut text, " (the last: ");
        push_str(&mut text, retrying.last_failure.as_str());
        push_str(&mut text, "). Offered again at a growing interval, never less often than every ");
        push_decimal(&mut text, retry_ceiling_s);
        push_str(&mut text, " s.");
    } else if waiting_len == 0 {
        kind = ExchangeStanding::Current;
        if publishing.delivered == 0 {
            text = String::from_str("Coalition exchange: nothing published from this console yet.");
        } else {
            text = String::from_str("Coalition exchange: ");
            push_decimal(&mut text, publishing.delivered);
            push_str(&mut text, " set");
            push_str(&mut text, if publishing.delivered == 1 { "" } else { "s" });
            push_str(&mut text, " published from this console; nothing waiting.");
        }
    } else {
        kind = ExchangeStanding::Current;
        text = String::from_str("Coalition exchange: sending ");
        push_str(&mut text, held.as_str());
        push_str(&mut text, " to the node.");
    }
    assert(kind == base_line(*standing, publishers@, retry_ceiling_s as nat).0);
    assert(text@ == base_line(*standing, publishers@, retry_ceiling_s as nat).1);
    let superseded = publishing.superseded;
    if superseded > 0 {
        let one = superseded == 1;
        push_str(&mut text, " ");
        push_decimal(&mut text, superseded);
        push_str(&mut text, " older set");
        push_str(&mut text, if one { "" } else { "s" });
        push_str(&mut text, " ");
        push_str(&mut text, if one { "was" } else { "were" });
        push_str(&mut text, " replaced by a newer one before ");
        push_str(&mut text, if one { "it" } else { "they" });
        push_str(&mut text, " could be sent; only the newest set of each is held.");
    }
    if let Some(rejection) = &publishing.last_rejection {
        push_str(&mut text, " The node rejected ");
        push_decimal(&mut text, publishing.rejected);
        push_str(&mut text, " set");
        push_str(&mut text, if publishing.rejected == 1 { "" } else { "s" });
        push_str(&mut text, " as sent, the last of ");
        push_str(&mut text, item_in_words(rejection.item));
        push_str(&mut text, " (");
        push_decimal(&mut text, rejection.status as u64);
        push_str(&mut text, ": ");
        push_str(&mut text, rejection.reason.as_str());
        push_str(&mut text, "); each was dropped, and the next set for that item replaces it.");
        if kind == ExchangeStanding::Current {
            kind = ExchangeStanding::Waiting;
        }
    }
    OwnedExchangeLine { standing: kind, text }
}

} // verus!
