use vstd::prelude::*;
use vstd::utf8::{
    encode_utf8, encode_utf8_valid_utf8, is_char_boundary, length_of_first_scalar,
    pop_first_scalar, valid_utf8, valid_utf8_split,
};

use crate::types::opt_view;

verus! {

/// The largest number of bytes one outbound call carries.
pub const CHUNK_LIMIT: usize = 900;

/// Interaction response type: a message with source.
pub const CHANNEL_MESSAGE_WITH_SOURCE: u8 = 4;

/// The largest character boundary of `b` at or below `k`.
pub open spec fn last_boundary(b: Seq<u8>, k: int) -> int
    decreases k,
{
    if k <= 0 {
        0
    } else if is_char_boundary(b, k) {
        k
    } else {
        last_boundary(b, k - 1)
    }
}

/// Where the first piece of a long reply `b` ends: at the last character
/// boundary that keeps it within `CHUNK_LIMIT` bytes.
pub open spec fn cut_of(b: Seq<u8>) -> int {
    let k = last_boundary(b, CHUNK_LIMIT as int);
    if 0 < k <= CHUNK_LIMIT {
        k
    } else {
        CHUNK_LIMIT as int
    }
}

/// The pieces a reply of bytes `b` is sent in: `b` whole if it fits,
/// otherwise the longest run of whole characters that fits, then the rest
/// in the same way.
pub open spec fn chunks_of(b: Seq<u8>) -> Seq<Seq<u8>>
    decreases b.len(),
{
    if b.len() <= CHUNK_LIMIT {
        seq![b]
    } else {
        seq![b.subrange(0, cut_of(b))] + chunks_of(b.subrange(cut_of(b), b.len() as int))
    }
}

/// One call to the chat platform.
#[derive(Debug, Clone)]
pub enum OutboundCall {
    /// An answer to the interaction `interaction_id`, authorised by its
    /// one-time token.
    InteractionResponse {
        interaction_id: String,
        interaction_token: String,
        interaction_type: u8,
        content: String,
    },
    /// A plain message in channel `channel_id`.
    ChannelMessage { channel_id: String, content: String },
}

/// Call `c` carries `piece` to `target`, as an interaction response when a
/// `token` is given and as a channel message otherwise.
pub open spec fn call_carries(
    c: OutboundCall,
    target: Seq<char>,
    token: Option<Seq<char>>,
    piece: Seq<u8>,
) -> bool {
    match c {
        OutboundCall::InteractionResponse {
            interaction_id,
            interaction_token,
            interaction_type,
            content,
        } => token == Some(interaction_token@) && interaction_id@ == target && interaction_type
            == CHANNEL_MESSAGE_WITH_SOURCE && encode_utf8(content@) == piece,
        OutboundCall::ChannelMessage { channel_id, content } => token is None && channel_id@
            == target && encode_utf8(content@) == piece,
    }
}

/// `calls` deliver text `text` to `target`, one call per piece and in order.
pub open spec fn delivers(
    calls: Seq<OutboundCall>,
    text: Seq<char>,
    target: Seq<char>,
    token: Option<Seq<char>>,
) -> bool {
    &&& calls.len() == chunks_of(encode_utf8(text)).len()
    &&& forall|i: int|
        0 <= i < calls.len() ==> call_carries(
            #[trigger] calls[i],
            target,
            token,
            chunks_of(encode_utf8(text))[i],
        )
}

/// Within any four consecutive positions up to the end of valid UTF-8
/// there is a character boundary.
proof fn lemma_boundary_near(b: Seq<u8>, k: int)
    requires
        valid_utf8(b),
        0 <= k <= b.len(),
    ensures
        exists|j: int| k - 3 <= j <= k && 0 <= j && is_char_boundary(b, j),
    decreases b.len(),
{
    if k == 0 {
        assert(is_char_boundary(b, 0));
    } else {
        let l = length_of_first_scalar(b);
        assert(1 <= l <= 4 && l <= b.len());
        if k < l {
            assert(is_char_boundary(b, 0));
        } else {
            let t = pop_first_scalar(b);
            assert(t.len() == b.len() - l);
            lemma_boundary_near(t, k - l);
            let j = choose|j: int| k - l - 3 <= j <= k - l && 0 <= j && is_char_boundary(t, j);
            assert(is_char_boundary(b, j + l));
        }
    }
}

proof fn lemma_last_boundary(b: Seq<u8>, k: int)
    requires
        valid_utf8(b),
        0 <= k <= b.len(),
    ensures
        0 <= last_boundary(b, k) <= k,
        is_char_boundary(b, last_boundary(b, k)),
        forall|j: int| 0 <= j <= k && is_char_boundary(b, j) ==> j <= last_boundary(b, k),
    decreases k,
{
    if k <= 0 {
        assert(is_char_boundary(b, 0));
    } else if is_char_boundary(b, k) {
    } else {
        lemma_last_boundary(b, k - 1);
    }
}

/// The first piece of a long reply ends on a character boundary, within
/// `CHUNK_LIMIT` bytes and no more than three bytes short of it.
proof fn lemma_cut(b: Seq<u8>)
    requires
        valid_utf8(b),
        b.len() > CHUNK_LIMIT,
    ensures
        cut_of(b) == last_boundary(b, CHUNK_LIMIT as int),
        CHUNK_LIMIT - 3 <= cut_of(b) <= CHUNK_LIMIT,
        is_char_boundary(b, cut_of(b)),
{
    lemma_last_boundary(b, CHUNK_LIMIT as int);
    lemma_boundary_near(b, CHUNK_LIMIT as int);
}

/// For a reply of valid UTF-8 `b`: every piece is valid UTF-8 of at most
/// `CHUNK_LIMIT` bytes, every piece but the last is longer than
/// `CHUNK_LIMIT - 4` bytes, and the pieces put together give `b` back.
pub proof fn lemma_chunks(b: Seq<u8>)
    requires
        valid_utf8(b),
    ensures
        chunks_of(b).len() >= 1,
        forall|i: int|
            0 <= i < chunks_of(b).len() ==> (#[trigger] chunks_of(b)[i]).len() <= CHUNK_LIMIT
                && valid_utf8(chunks_of(b)[i]),
        forall|i: int|
            0 <= i < chunks_of(b).len() - 1 ==> (#[trigger] chunks_of(b)[i]).len() > CHUNK_LIMIT
                - 4,
        chunks_of(b).flatten() == b,
    decreases b.len(),
{
    if b.len() <= CHUNK_LIMIT {
        assert(seq![b].drop_first() =~= Seq::<Seq<u8>>::empty());
        assert(Seq::<Seq<u8>>::empty().flatten() == Seq::<u8>::empty());
        assert(b + Seq::<u8>::empty() =~= b);
        assert(chunks_of(b).flatten() == chunks_of(b).first() + chunks_of(b).drop_first().flatten());
    } else {
        lemma_cut(b);
        let c = cut_of(b);
        valid_utf8_split(b, c);
        let head = b.subrange(0, c);
        let rest = b.subrange(c, b.len() as int);
        lemma_chunks(rest);
        let cs = chunks_of(b);
        assert(cs.drop_first() =~= chunks_of(rest));
        assert(head + rest =~= b);
        assert(cs.first() == head);
        assert(cs.flatten() == cs.first() + cs.drop_first().flatten());
        assert forall|i: int| 0 <= i < cs.len() implies (#[trigger] cs[i]).len() <= CHUNK_LIMIT
            && valid_utf8(cs[i]) && (i < cs.len() - 1 ==> cs[i].len() > CHUNK_LIMIT - 4) by {
            if i > 0 {
                assert(cs[i] == chunks_of(rest)[i - 1]);
            }
        }
    }
}

/// The pieces reply `text` is sent in, each as text of its own.
pub fn chunk_message(text: &str) -> (r: Vec<String>)
    ensures
        r@.map_values(|c: String| encode_utf8(c@)) == chunks_of(encode_utf8(text@)),
{
    let mut rest: &str = text;
    let mut r: Vec<String> = Vec::new();
    proof {
        encode_utf8_valid_utf8(text@);
    }
    assert(r@.map_values(|c: String| encode_utf8(c@)) + chunks_of(encode_utf8(rest@)) =~= chunks_of(
        encode_utf8(text@),
    ));
    while rest.as_bytes().len() > CHUNK_LIMIT
        invariant
            valid_utf8(encode_utf8(rest@)),
            r@.map_values(|c: String| encode_utf8(c@)) + chunks_of(encode_utf8(rest@))
                == chunks_of(encode_utf8(text@)),
        decreases encode_utf8(rest@).len(),
    {
        let ghost b = encode_utf8(rest@);
        proof {
            lemma_cut(b);
        }
        let mut k: usize = CHUNK_LIMIT;
        while k > 0 && !rest.is_char_boundary(k)
            invariant
                k <= CHUNK_LIMIT,
                b == encode_utf8(rest@),
                b.len() > CHUNK_LIMIT,
                last_boundary(b, k as int) == last_boundary(b, CHUNK_LIMIT as int),
            decreases k,
        {
            k -= 1;
        }
        assert(k as int == cut_of(b));
        let (head, tail) = rest.split_at(k);
        proof {
            valid_utf8_split(b, k as int);
        }
        let ghost before = r@.map_values(|c: String| encode_utf8(c@));
        let piece = String::from_str(head);
        r.push(piece);
        assert(r@.map_values(|c: String| encode_utf8(c@)) =~= before.push(b.subrange(0, k as int)));
        assert(before + chunks_of(b) =~= before.push(b.subrange(0, k as int)) + chunks_of(
            b.subrange(k as int, b.len() as int),
        ));
        rest = tail;
    }
    let ghost before = r@.map_values(|c: String| encode_utf8(c@));
    assert(encode_utf8(rest@).len() <= CHUNK_LIMIT);
    assert(chunks_of(encode_utf8(rest@)) == seq![encode_utf8(rest@)]);
    let piece = String::from_str(rest);
    r.push(piece);
    assert(r@.map_values(|c: String| encode_utf8(c@)) =~= before + chunks_of(encode_utf8(rest@)));
    r
}

/// The calls that deliver `msg` to `target_id`: answers to that interaction
/// when `interaction_token` is given, messages in that channel otherwise,
/// one per piece and in order.
pub fn send_message_to_discord(
    msg: &String,
    target_id: &String,
    interaction_token: &Option<String>,
) -> (r: Vec<OutboundCall>)
    ensures
        delivers(r@, msg@, target_id@, opt_view(*interaction_token)),
{
    let chunks = chunk_message(msg.as_str());
    let ghost cs = chunks_of(encode_utf8(msg@));
    let mut calls: Vec<OutboundCall> = Vec::new();
    let mut i: usize = 0;
    while i < chunks.len()
        invariant
            i <= chunks@.len(),
            chunks@.map_values(|c: String| encode_utf8(c@)) == cs,
            calls@.len() == i,
            forall|k: int|
                0 <= k < i ==> call_carries(
                    #[trigger] calls@[k],
                    target_id@,
                    opt_view(*interaction_token),
                    cs[k],
                ),
        decreases chunks.len() - i,
    {
        let content = chunks[i].clone();
        assert(encode_utf8(content@) == cs[i as int]);
        let call = match interaction_token {
            Some(token) => OutboundCall::InteractionResponse {
                interaction_id: target_id.clone(),
                interaction_token: token.clone(),
                interaction_type: CHANNEL_MESSAGE_WITH_SOURCE,
                content,
            },
            None => OutboundCall::ChannelMessage { channel_id: target_id.clone(), content },
        };
        calls.push(call);
        i += 1;
    }
    calls
}

} // verus!
