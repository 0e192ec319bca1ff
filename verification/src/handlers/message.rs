//! Message validation and the chat-partner list.

use vstd::prelude::*;

verus! {

/// Request payload for sending a message.
#[derive(Debug)]
pub struct SendMessageRequest {
    pub text: Option<String>,
    pub image: Option<String>,
}

/// A failed message request; the string is what the response body carries.
#[derive(Debug)]
pub struct DbError(pub String);

impl DbError {
    /// The HTTP status of every `DbError`: 500.
    pub fn status_code(&self) -> (r: u16)
        ensures
            r == 500,
    {
        500
    }

    /// The response body: the underlying error's message.
    pub fn body(&self) -> (r: String)
        ensures
            r@ == self.0@,
    {
        self.0.clone()
    }

    /// The error's own description.
    pub fn message(&self) -> (r: String)
        ensures
            r@ == "error occured while processing request."@,
    {
        "error occured while processing request.".to_owned()
    }

    /// The error when the database pool is not registered with the app.
    pub fn pool_not_found() -> (r: DbError)
        ensures
            r.0@ == "database connection pool not found"@,
    {
        DbError("database connection pool not found".to_owned())
    }
}

/// The refusal of a send request that is decided before the database is
/// consulted, in the order the checks are made.
pub open spec fn send_message_violation(sender: u128, receiver: u128, has_text: bool, has_image: bool) -> Option<Seq<char>> {
    if !has_text && !has_image {
        Some("Text or image is required"@)
    } else if sender == receiver {
        Some("Cannot send messages to yourself"@)
    } else {
        None
    }
}

/// Checks a send request: it carries text or an image, and is not addressed
/// to the sender.
pub fn validate_send_message(sender_id: u128, receiver_id: u128, payload: &SendMessageRequest) -> (r: Result<(), DbError>)
    ensures
        match send_message_violation(sender_id, receiver_id, payload.text is Some, payload.image is Some) {
            Some(msg) => r matches Err(e) && e.0@ == msg,
            None => r is Ok,
        },
{
    if payload.text.is_none() && payload.image.is_none() {
        return Err(DbError("Text or image is required".to_owned()));
    }
    if sender_id == receiver_id {
        return Err(DbError("Cannot send messages to yourself".to_owned()));
    }
    Ok(())
}

/// Refuses a send request whose receiver does not exist.
pub fn check_receiver_exists(receiver_exists: bool) -> (r: Result<(), DbError>)
    ensures
        receiver_exists ==> r is Ok,
        !receiver_exists ==> (r matches Err(e) && e.0@ == "Receiver not found"@),
{
    if !receiver_exists {
        return Err(DbError("Receiver not found".to_owned()));
    }
    Ok(())
}

/// The other party of a message `(sender_id, receiver_id)` seen from `me`.
pub open spec fn partner_of(me: u128, m: (u128, u128)) -> u128 {
    if m.0 == me {
        m.1
    } else {
        m.0
    }
}

/// Strictly increasing: sorted, with no value twice.
pub open spec fn strictly_increasing(s: Seq<u128>) -> bool {
    forall|i: int, j: int| 0 <= i < j < s.len() ==> s[i] < s[j]
}

/// `x` is the partner of one of the messages.
pub open spec fn is_partner(me: u128, messages: Seq<(u128, u128)>, x: u128) -> bool {
    exists|i: int| 0 <= i < messages.len() && #[trigger] partner_of(me, messages[i]) == x
}

/// Inserts `x` into a strictly increasing vector, keeping it so; nothing
/// changes when `x` is already there.
fn insert_sorted(v: &mut Vec<u128>, x: u128)
    requires
        strictly_increasing(old(v)@),
    ensures
        strictly_increasing(final(v)@),
        forall|y: u128| final(v)@.contains(y) <==> (old(v)@.contains(y) || y == x),
{
    let mut k: usize = 0;
    while k < v.len() && v[k] < x
        invariant
            k <= v@.len(),
            forall|i: int| 0 <= i < k ==> v@[i] < x,
        decreases v@.len() - k,
    {
        k = k + 1;
    }
    if k < v.len() && v[k] == x {
        assert(v@[k as int] == x);
        return;
    }
    let ghost before = v@;
    v.insert(k, x);
    proof {
        assert(v@ == before.subrange(0, k as int).push(x) + before.subrange(k as int, before.len() as int));
        assert forall|i: int, j: int| 0 <= i < j < v@.len() implies v@[i] < v@[j] by {
            if j < k {
            } else if i < k && j == k {
            } else if i < k && j > k {
                assert(before[i] < before[j - 1]);
            } else if i == k {
                assert(before[j - 1] >= x);
                if k < before.len() {
                    assert(before[k as int] > x);
                    assert(before[k as int] <= before[j - 1]);
                }
            } else {
                assert(before[i - 1] < before[j - 1]);
            }
        }
        assert forall|y: u128| v@.contains(y) <==> (before.contains(y) || y == x) by {
            if v@.contains(y) {
                let i = choose|i: int| 0 <= i < v@.len() && v@[i] == y;
                if i < k {
                    assert(before[i] == y);
                } else if i > k {
                    assert(before[i - 1] == y);
                }
            }
            if before.contains(y) {
                let i = choose|i: int| 0 <= i < before.len() && before[i] == y;
                if i < k {
                    assert(v@[i] == y);
                } else {
                    assert(v@[i + 1] == y);
                }
            }
            if y == x {
                assert(v@[k as int] == x);
            }
        }
    }
}

/// The distinct chat partners of `me`, in increasing order: for each message
/// the party that is not `me` (the sender, when `me` is not the sender).
pub fn chat_partner_ids(me: u128, messages: &[(u128, u128)]) -> (r: Vec<u128>)
    ensures
        strictly_increasing(r@),
        forall|x: u128| r@.contains(x) <==> is_partner(me, messages@, x),
{
    let mut r: Vec<u128> = Vec::new();
    let mut i: usize = 0;
    while i < messages.len()
        invariant
            i <= messages@.len(),
            strictly_increasing(r@),
            forall|x: u128| r@.contains(x) <==> is_partner(me, messages@.subrange(0, i as int), x),
        decreases messages@.len() - i,
    {
        let (sender, receiver) = messages[i];
        let p = if sender == me { receiver } else { sender };
        let ghost old_r = r@;
        insert_sorted(&mut r, p);
        proof {
            let pre = messages@.subrange(0, i as int);
            let post = messages@.subrange(0, i + 1);
            assert(post[i as int] == messages@[i as int]);
            assert(partner_of(me, post[i as int]) == p);
            assert forall|x: u128| r@.contains(x) <==> is_partner(me, post, x) by {
                if is_partner(me, post, x) {
                    let j = choose|j: int| 0 <= j < post.len() && #[trigger] partner_of(me, post[j]) == x;
                    if j < i {
                        assert(pre[j] == post[j]);
                        assert(is_partner(me, pre, x));
                    }
                }
                if old_r.contains(x) {
                    assert(is_partner(me, pre, x));
                    let j = choose|j: int| 0 <= j < pre.len() && #[trigger] partner_of(me, pre[j]) == x;
                    assert(post[j] == pre[j]);
                }
            }
        }
        i = i + 1;
    }
    assert(messages@.subrange(0, messages@.len() as int) == messages@);
    r
}

/// Every chat partner appears exactly once in the list, and the list is
/// sorted: no two positions hold the same id.
pub proof fn lemma_chat_partners_distinct(ids: Seq<u128>)
    requires
        strictly_increasing(ids),
    ensures
        forall|i: int, j: int| 0 <= i < ids.len() && 0 <= j < ids.len() && i != j ==> ids[i] != ids[j],
{
    assert forall|i: int, j: int| 0 <= i < ids.len() && 0 <= j < ids.len() && i != j implies ids[i] != ids[j] by {
        if i < j {
            assert(ids[i] < ids[j]);
        } else {
            assert(ids[j] < ids[i]);
        }
    }
}

/// The logged-in user is never listed as its own chat partner unless it
/// sent a message to itself.
pub proof fn lemma_self_not_partner(me: u128, messages: Seq<(u128, u128)>, ids: Seq<u128>)
    requires
        forall|x: u128| ids.contains(x) <==> is_partner(me, messages, x),
        forall|i: int| 0 <= i < messages.len() ==> messages[i] != (me, me),
    ensures
        !ids.contains(me),
{
    if ids.contains(me) {
        let i = choose|i: int| 0 <= i < messages.len() && #[trigger] partner_of(me, messages[i]) == me;
        assert(messages[i] != (me, me));
    }
}

/// What the checks on a send request decide, stated over its parts: a
/// request that carries text or an image (or both) and is addressed to
/// another user is accepted; one that carries neither is refused as such
/// first; one addressed to its sender is refused otherwise.
pub proof fn lemma_send_message_checks(sender: u128, receiver: u128, has_text: bool, has_image: bool)
    ensures
        (sender != receiver && (has_text || has_image)) ==> send_message_violation(sender, receiver, has_text, has_image) is None,
        send_message_violation(sender, receiver, has_text, has_image) is None ==> (sender != receiver && (has_text || has_image)),
        (!has_text && !has_image) ==> send_message_violation(sender, receiver, has_text, has_image) == Some("Text or image is required"@),
        ((has_text || has_image) && sender == receiver) ==> send_message_violation(sender, receiver, has_text, has_image)
            == Some("Cannot send messages to yourself"@),
{
}

} // verus!
