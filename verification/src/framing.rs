//! Message framing of the Legacy engine: a byte stream is cut into messages
//! at every zero byte, and each message is decoded as text.

use vstd::prelude::*;
use vstd::utf8::decode_utf8;
use vstd::utf8::valid_utf8;

verus! {

/// The byte that ends a message.
pub const DELIMITER: u8 = 0;

/// The complete messages in `bytes`, in order, and the partial message after
/// the last delimiter.
pub open spec fn split(bytes: Seq<u8>) -> (Seq<Seq<u8>>, Seq<u8>)
    decreases bytes.len(),
{
    if bytes.len() == 0 {
        (Seq::empty(), Seq::empty())
    } else {
        let (messages, partial) = split(bytes.drop_last());
        if bytes.last() == DELIMITER {
            (messages.push(partial), Seq::empty())
        } else {
            (messages, partial.push(bytes.last()))
        }
    }
}

/// The messages, each followed by a delimiter, and then `rest`.
pub open spec fn framed(messages: Seq<Seq<u8>>, rest: Seq<u8>) -> Seq<u8>
    decreases messages.len(),
{
    if messages.len() == 0 {
        rest
    } else {
        framed(messages.drop_last(), messages.last() + seq![DELIMITER] + rest)
    }
}

/// No byte of `bytes` is the delimiter.
pub open spec fn unbroken(bytes: Seq<u8>) -> bool {
    forall|i: int| 0 <= i < bytes.len() ==> bytes[i] != DELIMITER
}

/// `messages` and `rest` are a framing of `bytes`: put together again they
/// give `bytes`, and no delimiter is left inside any of them.
pub open spec fn is_framing(bytes: Seq<u8>, messages: Seq<Seq<u8>>, rest: Seq<u8>) -> bool {
    &&& bytes == framed(messages, rest)
    &&& unbroken(rest)
    &&& forall|k: int| 0 <= k < messages.len() ==> unbroken(#[trigger] messages[k])
}

/// Appending bytes behind a framed stream appends them behind its rest.
pub proof fn lemma_framed_append(messages: Seq<Seq<u8>>, rest: Seq<u8>, more: Seq<u8>)
    ensures
        framed(messages, rest) + more == framed(messages, rest + more),
    decreases messages.len(),
{
    if messages.len() > 0 {
        let tail = messages.last() + seq![DELIMITER] + rest;
        lemma_framed_append(messages.drop_last(), tail, more);
        assert(tail + more =~= messages.last() + seq![DELIMITER] + (rest + more));
    } else {
        assert(framed(messages, rest) + more =~= framed(messages, rest + more));
    }
}

/// A stream framed with one more message in front of `rest`.
pub proof fn lemma_framed_push(messages: Seq<Seq<u8>>, message: Seq<u8>, rest: Seq<u8>)
    ensures
        framed(messages.push(message), rest) == framed(messages, message + seq![DELIMITER] + rest),
{
    assert(messages.push(message).drop_last() =~= messages);
}

/// What [`split`] returns is a framing of its input.
pub proof fn lemma_split_is_framing(bytes: Seq<u8>)
    ensures
        is_framing(bytes, split(bytes).0, split(bytes).1),
    decreases bytes.len(),
{
    if bytes.len() > 0 {
        let front = bytes.drop_last();
        let (messages, partial) = split(front);
        lemma_split_is_framing(front);
        lemma_framed_append(messages, partial, seq![bytes.last()]);
        assert(bytes =~= front + seq![bytes.last()]);
        if bytes.last() == DELIMITER {
            lemma_framed_push(messages, partial, Seq::empty());
            assert(partial + seq![DELIMITER] + Seq::<u8>::empty() =~= partial + seq![bytes.last()]);
        } else {
            assert(partial.push(bytes.last()) =~= partial + seq![bytes.last()]);
        }
    } else {
        assert(bytes =~= framed(Seq::empty(), Seq::empty()));
    }
}

/// Splitting a stream that ends in an unbroken `tail`: the tail joins the
/// partial message.
pub proof fn lemma_split_unbroken_tail(bytes: Seq<u8>, tail: Seq<u8>)
    requires
        unbroken(tail),
    ensures
        split(bytes + tail) == (split(bytes).0, split(bytes).1 + tail),
    decreases tail.len(),
{
    if tail.len() == 0 {
        assert(bytes + tail =~= bytes);
        assert(split(bytes).1 + tail =~= split(bytes).1);
    } else {
        let all = bytes + tail;
        assert(all.drop_last() =~= bytes + tail.drop_last());
        assert(all.last() == tail.last());
        lemma_split_unbroken_tail(bytes, tail.drop_last());
        assert((split(bytes).1 + tail.drop_last()).push(tail.last()) =~= split(bytes).1 + tail);
    }
}

/// Splitting a stream that was framed from unbroken parts gives the parts
/// back.
proof fn lemma_split_of_framed(messages: Seq<Seq<u8>>, rest: Seq<u8>)
    requires
        unbroken(rest),
        forall|k: int| 0 <= k < messages.len() ==> unbroken(#[trigger] messages[k]),
    ensures
        split(framed(messages, Seq::empty())) == (messages, Seq::<u8>::empty()),
        split(framed(messages, rest)) == (messages, rest),
    decreases messages.len(),
{
    if messages.len() == 0 {
        lemma_split_unbroken_tail(Seq::empty(), rest);
        assert(Seq::<u8>::empty() + rest =~= rest);
        assert(split(Seq::<u8>::empty()).0 =~= messages);
    } else {
        let front = messages.drop_last();
        let last = messages.last();
        assert forall|k: int| 0 <= k < front.len() implies unbroken(#[trigger] front[k]) by {
            assert(front[k] == messages[k]);
        }
        lemma_split_of_framed(front, last);
        // framed(front, last) splits into (front, last); one delimiter more
        // completes `last`.
        let upto = framed(front, last);
        lemma_framed_append(front, last, seq![DELIMITER]);
        let ended = upto + seq![DELIMITER];
        assert(ended.drop_last() =~= upto);
        assert(ended.last() == DELIMITER);
        assert(split(ended) == (front.push(last), Seq::<u8>::empty()));
        assert(front.push(last) =~= messages);
        assert(last + seq![DELIMITER] + Seq::<u8>::empty() =~= last + seq![DELIMITER]);
        assert(framed(messages, Seq::empty()) == ended);
        lemma_framed_append(front, last + seq![DELIMITER], rest);
        assert(last + seq![DELIMITER] + rest =~= (last + seq![DELIMITER]) + rest);
        assert(framed(messages, rest) == ended + rest);
        lemma_split_unbroken_tail(ended, rest);
        assert(Seq::<u8>::empty() + rest =~= rest);
    }
}

/// A byte stream has exactly one framing, the one that [`split`] computes.
pub proof fn lemma_framing_is_unique(bytes: Seq<u8>, messages: Seq<Seq<u8>>, rest: Seq<u8>)
    requires
        is_framing(bytes, messages, rest),
    ensures
        split(bytes) == (messages, rest),
{
    lemma_split_of_framed(messages, rest);
}

/// Splitting after more bytes have arrived: the messages found so far stay,
/// and the scan goes on from the partial message.
pub proof fn lemma_split_resumes(bytes: Seq<u8>, more: Seq<u8>)
    ensures
        split(bytes + more).0 == split(bytes).0 + split(split(bytes).1 + more).0,
        split(bytes + more).1 == split(split(bytes).1 + more).1,
    decreases more.len(),
{
    let partial = split(bytes).1;
    if more.len() == 0 {
        assert(bytes + more =~= bytes);
        assert(partial + more =~= partial);
        lemma_split_is_framing(bytes);
        lemma_split_unbroken_tail(Seq::empty(), partial);
        assert(Seq::<u8>::empty() + partial =~= partial);
        assert(split(bytes).0 + split(partial).0 =~= split(bytes).0);
    } else {
        let front = more.drop_last();
        lemma_split_resumes(bytes, front);
        assert((bytes + more).drop_last() =~= bytes + front);
        assert((partial + more).drop_last() =~= partial + front);
        assert((bytes + more).last() == more.last());
        assert((partial + more).last() == more.last());
        if more.last() == DELIMITER {
            assert((split(bytes).0 + split(partial + front).0).push(split(partial + front).1)
                =~= split(bytes).0 + split(partial + front).0.push(split(partial + front).1));
        }
    }
}

/// A stream without a delimiter holds no message: all of it is the partial
/// message.
pub proof fn lemma_split_unbroken(bytes: Seq<u8>)
    requires
        unbroken(bytes),
    ensures
        split(bytes) == (Seq::<Seq<u8>>::empty(), bytes),
{
    lemma_split_unbroken_tail(Seq::empty(), bytes);
    assert(Seq::<u8>::empty() + bytes =~= bytes);
}

/// The scan from the start: when the first delimiter is at `i`, the bytes
/// before it are the first message, and the scan goes on behind it.
pub proof fn lemma_split_at_first_delimiter(bytes: Seq<u8>, i: int)
    requires
        0 <= i < bytes.len(),
        bytes[i] == DELIMITER,
        unbroken(bytes.take(i)),
    ensures
        split(bytes).0 == seq![bytes.take(i)] + split(bytes.skip(i + 1)).0,
        split(bytes).1 == split(bytes.skip(i + 1)).1,
{
    let head = bytes.take(i + 1);
    let tail = bytes.skip(i + 1);
    assert(bytes =~= head + tail);
    lemma_split_unbroken(bytes.take(i));
    assert(head.drop_last() =~= bytes.take(i));
    assert(head.last() == DELIMITER);
    assert(split(head).0 =~= seq![bytes.take(i)]);
    lemma_split_resumes(head, tail);
    assert(Seq::<u8>::empty() + tail =~= tail);
}

/// The byte sequences that `messages` holds.
pub open spec fn message_views(messages: Seq<Vec<u8>>) -> Seq<Seq<u8>> {
    Seq::new(messages.len(), |k: int| messages[k]@)
}

/// Cuts every complete message off the front of `buffer` and returns them
/// in order, each without its delimiter. What follows the last delimiter
/// stays in `buffer` for the bytes to come.
pub fn take_messages(buffer: &mut Vec<u8>) -> (messages: Vec<Vec<u8>>)
    ensures
        message_views(messages@) == split(old(buffer)@).0,
        final(buffer)@ == split(old(buffer)@).1,
{
    let mut messages: Vec<Vec<u8>> = Vec::new();
    let mut partial: Vec<u8> = Vec::new();
    let mut i: usize = 0;
    assert(buffer@.take(0) =~= Seq::<u8>::empty());
    assert(message_views(messages@) =~= Seq::<Seq<u8>>::empty());
    while i < buffer.len()
        invariant
            i <= buffer.len(),
            message_views(messages@) == split(buffer@.take(i as int)).0,
            partial@ == split(buffer@.take(i as int)).1,
        decreases buffer.len() - i,
    {
        let byte = buffer[i];
        proof {
            let upto = buffer@.take(i as int + 1);
            assert(upto.drop_last() =~= buffer@.take(i as int));
            assert(upto.last() == byte);
        }
        if byte == DELIMITER {
            let ghost before = message_views(messages@);
            messages.push(partial);
            assert(message_views(messages@) =~= before.push(partial@));
            partial = Vec::new();
        } else {
            partial.push(byte);
        }
        i = i + 1;
    }
    assert(buffer@.take(i as int) =~= buffer@);
    *buffer = partial;
    messages
}

/// The text that permissive decoding makes of `bytes`.
pub uninterp spec fn lossy_text(bytes: Seq<u8>) -> Seq<char>;

/// `String::from_utf8_lossy`: decodes `bytes` as UTF-8 and never fails; an
/// ill-formed sequence comes out as the replacement character. The text is
/// a function of the bytes alone, and for well-formed input it is the text
/// that the bytes encode.
#[verifier::external_body]
pub(crate) fn decode_lossy(bytes: &Vec<u8>) -> (text: String)
    ensures
        text@ == lossy_text(bytes@),
        valid_utf8(bytes@) ==> text@ == decode_utf8(bytes@),
{
    String::from_utf8_lossy(bytes).into_owned()
}

/// The text of each message, by permissive decoding.
pub open spec fn message_texts(messages: Seq<Seq<u8>>) -> Seq<Seq<char>> {
    Seq::new(messages.len(), |k: int| lossy_text(messages[k]))
}

/// The character sequences that `texts` holds.
pub open spec fn text_views(texts: Seq<String>) -> Seq<Seq<char>> {
    Seq::new(texts.len(), |k: int| texts[k]@)
}

/// The framing decoder: cuts every complete message off the front of
/// `buffer` and returns the messages as text, in order. A message that is
/// not well-formed text is decoded as far as it goes and never makes this
/// fail. What follows the last delimiter stays in `buffer`.
pub fn decode_messages(buffer: &mut Vec<u8>) -> (texts: Vec<String>)
    ensures
        text_views(texts@) == message_texts(split(old(buffer)@).0),
        final(buffer)@ == split(old(buffer)@).1,
        forall|k: int|
            0 <= k < texts.len() && valid_utf8(#[trigger] split(old(buffer)@).0[k]) ==> texts@[k]@
                == decode_utf8(split(old(buffer)@).0[k]),
{
    let messages = take_messages(buffer);
    let mut texts: Vec<String> = Vec::new();
    let mut k: usize = 0;
    while k < messages.len()
        invariant
            k <= messages.len(),
            texts.len() == k,
            forall|j: int| 0 <= j < k ==> texts@[j]@ == lossy_text(#[trigger] messages@[j]@),
            forall|j: int|
                0 <= j < k && valid_utf8(#[trigger] messages@[j]@) ==> texts@[j]@ == decode_utf8(
                    messages@[j]@,
                ),
        decreases messages.len() - k,
    {
        texts.push(decode_lossy(&messages[k]));
        k = k + 1;
    }
    assert(text_views(texts@) =~= message_texts(message_views(messages@)));
    assert forall|k: int|
        0 <= k < texts.len() && valid_utf8(
            #[trigger] split(old(buffer)@).0[k],
        ) implies texts@[k]@ == decode_utf8(split(old(buffer)@).0[k]) by {
        assert(split(old(buffer)@).0[k] == messages@[k]@);
    }
    texts
}

} // verus!
