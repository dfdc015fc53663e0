//! What the client makes of the gateway's replies: which replies succeed, what error each
//! failing reply becomes, and how the long-polling event endpoints are followed.
use vstd::prelude::*;
use crate::error::{Error, is_local_error};

verus! {

/// How the client reads the HTTP status of a reply.
#[derive(Clone, Copy, Debug, PartialEq, Eq, Structural)]
pub enum ResponseKind {
    /// The status the endpoint answers with on success.
    Success,
    BadRequest,
    Forbidden,
    NotFound,
    MethodNotAllowed,
    NotAcceptable,
    RequestTimeout,
}

/// The status `status` of a reply from an endpoint that succeeds with `success_code`; 404 is
/// read as such only where the endpoint can answer it. `None` for statuses the gateway never
/// sends.
pub open spec fn spec_classify(status: u16, success_code: u16, is_404_captable: bool) -> Option<
    ResponseKind,
> {
    if status == success_code {
        Some(ResponseKind::Success)
    } else if status == 400 {
        Some(ResponseKind::BadRequest)
    } else if status == 403 {
        Some(ResponseKind::Forbidden)
    } else if status == 404 && is_404_captable {
        Some(ResponseKind::NotFound)
    } else if status == 405 {
        Some(ResponseKind::MethodNotAllowed)
    } else if status == 406 {
        Some(ResponseKind::NotAcceptable)
    } else if status == 408 {
        Some(ResponseKind::RequestTimeout)
    } else {
        None
    }
}

/// How a reply's status is read: the success code succeeds; any other status 400 is a bad
/// request, 403 forbidden, 405 a method not allowed, 406 not acceptable and 408 a timeout,
/// whether or not the endpoint answers 404; 404 is not found only where the endpoint answers
/// it; every other status is none of these.
pub proof fn lemma_classify_by_status(status: u16, success_code: u16, is_404_captable: bool)
    ensures
        status == success_code ==> spec_classify(status, success_code, is_404_captable) == Some(
            ResponseKind::Success,
        ),
        status != success_code ==> {
            let r = spec_classify(status, success_code, is_404_captable);
            &&& status == 400 ==> r == Some(ResponseKind::BadRequest)
            &&& status == 403 ==> r == Some(ResponseKind::Forbidden)
            &&& status == 404 ==> r == (if is_404_captable {
                Some(ResponseKind::NotFound)
            } else {
                None::<ResponseKind>
            })
            &&& status == 405 ==> r == Some(ResponseKind::MethodNotAllowed)
            &&& status == 406 ==> r == Some(ResponseKind::NotAcceptable)
            &&& status == 408 ==> r == Some(ResponseKind::RequestTimeout)
            &&& (status != 400 && status != 403 && status != 404 && status != 405 && status
                != 406 && status != 408) ==> r is None
        },
        status != 404 ==> spec_classify(status, success_code, true) == spec_classify(
            status,
            success_code,
            false,
        ),
{
}

/// Reads the HTTP status of a reply.
pub fn classify_response(status: u16, success_code: u16, is_404_captable: bool) -> (r: Option<
    ResponseKind,
>)
    ensures
        r == spec_classify(status, success_code, is_404_captable),
{
    if status == success_code {
        Some(ResponseKind::Success)
    } else if status == 400 {
        Some(ResponseKind::BadRequest)
    } else if status == 403 {
        Some(ResponseKind::Forbidden)
    } else if status == 404 && is_404_captable {
        Some(ResponseKind::NotFound)
    } else if status == 405 {
        Some(ResponseKind::MethodNotAllowed)
    } else if status == 406 {
        Some(ResponseKind::NotAcceptable)
    } else if status == 408 {
        Some(ResponseKind::RequestTimeout)
    } else {
        None
    }
}

/// The message of a 400 reply: `"recv message"`, then each message of the reply's body on a
/// line of its own.
pub open spec fn spec_bad_request_message(messages: Seq<Seq<char>>) -> Seq<char>
    decreases messages.len(),
{
    if messages.len() == 0 {
        "recv message"@
    } else {
        spec_bad_request_message(messages.drop_last()) + "\n"@ + messages.last()
    }
}

/// The texts of a list of `String`s.
pub open spec fn texts(v: Seq<String>) -> Seq<Seq<char>> {
    v.map_values(|s: String| s@)
}

/// The message of a timed-out long poll.
pub open spec fn timeout_message() -> Seq<char> {
    "recv RequestTimeout"@
}

/// The message of the error that a failing reply becomes; `messages` are those of a 400 body.
pub open spec fn spec_failure_message(kind: ResponseKind, messages: Seq<Seq<char>>) -> Seq<char> {
    match kind {
        ResponseKind::BadRequest => spec_bad_request_message(messages),
        ResponseKind::Forbidden => "recv Forbidden"@,
        ResponseKind::NotFound => "recv Not Found"@,
        ResponseKind::MethodNotAllowed => "recv Method Not Allowed"@,
        ResponseKind::NotAcceptable => "recv Not Acceptable"@,
        ResponseKind::RequestTimeout => timeout_message(),
        ResponseKind::Success => Seq::empty(),
    }
}

/// Every message of a 400 reply starts with `"recv message"`.
pub proof fn lemma_bad_request_message_prefix(messages: Seq<Seq<char>>)
    ensures
        crate::text::has_prefix(spec_bad_request_message(messages), "recv message"@),
    decreases messages.len(),
{
    reveal_strlit("recv message");
    let whole = spec_bad_request_message(messages);
    if messages.len() > 0 {
        lemma_bad_request_message_prefix(messages.drop_last());
        let p = spec_bad_request_message(messages.drop_last());
        assert(whole =~= p + ("\n"@ + messages.last()));
        assert(whole.subrange(0, 12) =~= p.subrange(0, 12));
    } else {
        assert(whole.subrange(0, 12) =~= whole);
    }
}

/// Joins the messages of a 400 reply's body under `"recv message"`.
pub fn bad_request_message(messages: &Vec<String>) -> (r: String)
    ensures
        r@ == spec_bad_request_message(texts(messages@)),
{
    let mut r = "recv message".to_owned();
    let mut i: usize = 0;
    while i < messages.len()
        invariant
            i <= messages.len(),
            r@ == spec_bad_request_message(texts(messages@.subrange(0, i as int))),
        decreases messages.len() - i,
    {
        r.append("\n");
        r.append(messages[i].as_str());
        proof {
            let t = texts(messages@.subrange(0, i + 1));
            assert(t.drop_last() =~= texts(messages@.subrange(0, i as int)));
            assert(t.last() == messages@[i as int]@);
        }
        i = i + 1;
    }
    assert(messages@.subrange(0, messages.len() as int) =~= messages@);
    r
}

/// The error that a failing reply becomes; `messages` are those of a 400 reply's body.
pub fn failure_error(kind: ResponseKind, messages: &Vec<String>) -> (e: Error)
    requires
        kind != ResponseKind::Success,
    ensures
        is_local_error(e, spec_failure_message(kind, texts(messages@))),
{
    match kind {
        ResponseKind::BadRequest => Error::LocalError(bad_request_message(messages)),
        ResponseKind::Forbidden => Error::create_local_error("recv Forbidden"),
        ResponseKind::NotFound => Error::create_local_error("recv Not Found"),
        ResponseKind::MethodNotAllowed => Error::create_local_error("recv Method Not Allowed"),
        ResponseKind::NotAcceptable => Error::create_local_error("recv Not Acceptable"),
        ResponseKind::RequestTimeout => Error::create_local_error("recv RequestTimeout"),
        ResponseKind::Success => vstd::pervasive::unreached(),
    }
}

/// Whether the error is that of a timed-out long poll, which the event endpoints read as a
/// `TIMEOUT` event.
pub fn is_timeout(e: &Error) -> (r: bool)
    ensures
        r == is_local_error(*e, timeout_message()),
{
    match e {
        Error::LocalError(m) => crate::text::same_text(m.as_str(), "recv RequestTimeout"),
        _ => false,
    }
}

/// A 408 reply from an event endpoint becomes the timeout error, which the endpoint reads as
/// a `TIMEOUT` event and not as a failure.
pub proof fn lemma_request_timeout_is_timeout_event(
    success_code: u16,
    is_404_captable: bool,
    messages: Seq<Seq<char>>,
)
    requires
        success_code != 408,
    ensures
        spec_classify(408, success_code, is_404_captable) == Some(ResponseKind::RequestTimeout),
        spec_failure_message(ResponseKind::RequestTimeout, messages) == timeout_message(),
        forall|kind: ResponseKind|
            kind != ResponseKind::RequestTimeout && kind != ResponseKind::Success
                ==> #[trigger] spec_failure_message(kind, messages) != timeout_message(),
{
    lemma_bad_request_message_prefix(messages);
    reveal_strlit("recv message");
    reveal_strlit("recv RequestTimeout");
    assert(spec_bad_request_message(messages).subrange(0, 12)[5] == 'm');
    assert(spec_bad_request_message(messages) != timeout_message()) by {
        assert(timeout_message()[5] == 'R');
    }
    reveal_strlit("recv RequestTimeout");
    reveal_strlit("recv Forbidden");
    reveal_strlit("recv Not Found");
    reveal_strlit("recv Method Not Allowed");
    reveal_strlit("recv Not Acceptable");
    assert("recv Forbidden"@ != timeout_message()) by {
        assert("recv Forbidden"@[5] != timeout_message()[5]);
    }
    assert("recv Not Found"@ != timeout_message()) by {
        assert("recv Not Found"@[5] != timeout_message()[5]);
    }
    assert("recv Method Not Allowed"@ != timeout_message()) by {
        assert("recv Method Not Allowed"@[5] != timeout_message()[5]);
    }
    assert("recv Not Acceptable"@ != timeout_message()) by {
        assert("recv Not Acceptable"@[5] != timeout_message()[5]);
    }
}

/// What one reply of a long-polling event endpoint asks of the listener: an event to pass on
/// to the observer, if any, and whether listening ends.
pub struct ListenStep<E> {
    pub notify: Option<E>,
    pub finished: bool,
}

/// How many replies a listener reads: up to and including the first that `finishes`
/// says ends listening, or all of them.
pub open spec fn replies_read<R>(replies: Seq<R>, finishes: spec_fn(R) -> bool) -> nat
    decreases replies.len(),
{
    if replies.len() == 0 {
        0
    } else if finishes(replies[0]) {
        1
    } else {
        1 + replies_read(replies.drop_first(), finishes)
    }
}

/// The events a listener passes on when the endpoint answers `replies` in turn: one step per
/// reply, which passes on `forwarded` of the reply, until a step whose reply `finishes`.
pub open spec fn spec_listen<R, E>(
    replies: Seq<R>,
    forwarded: spec_fn(R) -> Option<E>,
    finishes: spec_fn(R) -> bool,
) -> Seq<E>
    decreases replies.len(),
{
    if replies.len() == 0 {
        Seq::empty()
    } else {
        let head = match forwarded(replies[0]) {
            Some(e) => seq![e],
            None => Seq::empty(),
        };
        if finishes(replies[0]) {
            head
        } else {
            head + spec_listen(replies.drop_first(), forwarded, finishes)
        }
    }
}

/// The events of one reply, as a sequence.
pub open spec fn passed_on<R, E>(forwarded: spec_fn(R) -> Option<E>, a: R) -> Seq<E> {
    match forwarded(a) {
        Some(e) => seq![e],
        None => Seq::empty(),
    }
}

proof fn lemma_filter_map_prepend<R, E>(forwarded: spec_fn(R) -> Option<E>, a: R, s: Seq<R>)
    ensures
        (seq![a] + s).filter_map(forwarded) == passed_on(forwarded, a) + s.filter_map(forwarded),
    decreases s.len(),
{
    let head = passed_on(forwarded, a);
    if s.len() == 0 {
        assert((seq![a] + s) =~= seq![a]);
        assert(seq![a].drop_last() =~= Seq::<R>::empty());
        assert(Seq::<R>::empty().filter_map(forwarded) =~= Seq::<E>::empty());
        assert(s.filter_map(forwarded) =~= Seq::<E>::empty());
        assert(seq![a].filter_map(forwarded) =~= head);
        assert(head + s.filter_map(forwarded) =~= head);
    } else {
        lemma_filter_map_prepend(forwarded, a, s.drop_last());
        assert((seq![a] + s).drop_last() =~= seq![a] + s.drop_last());
        assert((seq![a] + s).last() == s.last());
        match forwarded(s.last()) {
            Some(e) => {
                assert(head + s.filter_map(forwarded) =~= (head + s.drop_last().filter_map(
                    forwarded,
                )) + seq![e]);
            },
            None => {},
        }
    }
}

/// A listener passes on, in order, exactly the events of the replies it reads; it reads up
/// to the first reply that ends listening and nothing after it. The peer, data and media
/// listeners are instances: their `listen_step` passes on `spec_forwarded` of the reply and
/// finishes when `spec_finishes` of the reply holds.
pub proof fn lemma_listen_passes_on_replies_up_to_finish<R, E>(
    replies: Seq<R>,
    forwarded: spec_fn(R) -> Option<E>,
    finishes: spec_fn(R) -> bool,
)
    ensures
        replies_read(replies, finishes) <= replies.len(),
        spec_listen(replies, forwarded, finishes) == replies.take(
            replies_read(replies, finishes) as int,
        ).filter_map(forwarded),
        forall|i: int|
            0 <= i < replies_read(replies, finishes) - 1 ==> !finishes(#[trigger] replies[i]),
        replies_read(replies, finishes) < replies.len() ==> finishes(
            replies[replies_read(replies, finishes) - 1],
        ),
    decreases replies.len(),
{
    if replies.len() > 0 {
        let rest = replies.drop_first();
        lemma_listen_passes_on_replies_up_to_finish(rest, forwarded, finishes);
        let k = replies_read(replies, finishes) as int;
        if finishes(replies[0]) {
            assert(replies.take(1) =~= seq![replies[0]] + Seq::<R>::empty());
            lemma_filter_map_prepend(forwarded, replies[0], Seq::<R>::empty());
            assert(Seq::<R>::empty().filter_map(forwarded) =~= Seq::<E>::empty());
            assert(passed_on(forwarded, replies[0]) + Seq::<E>::empty() =~= passed_on(
                forwarded,
                replies[0],
            ));
        } else {
            assert(replies.take(k) =~= seq![replies[0]] + rest.take(k - 1));
            lemma_filter_map_prepend(forwarded, replies[0], rest.take(k - 1));
            assert forall|i: int| 0 <= i < k - 1 implies !finishes(#[trigger] replies[i]) by {
                if i > 0 {
                    assert(replies[i] == rest[i - 1]);
                }
            }
            if k < replies.len() {
                assert(replies[k - 1] == rest[k - 2]);
            }
        }
    } else {
        assert(replies.take(0) =~= Seq::<R>::empty());
    }
}

} // verus!
