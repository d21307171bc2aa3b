//! The values that the operators answer with.

use vstd::prelude::*;

verus! {

/// One value of an operator's answer.
#[derive(Debug, PartialEq, Eq)]
pub enum Reply {
    /// Nothing: the operator does not apply to the node, or a key is absent.
    Null,
    /// The plain acknowledgement of a command.
    Okay,
    /// A count, a length or a position.
    Integer(i64),
    /// A boolean.
    Boolean(bool),
    /// A text.
    BulkString(String),
    /// The encoded bytes of a CBOR item, or the content of a byte string.
    StringBuffer(Vec<u8>),
    /// The bit pattern of a double-precision float.
    Float(u64),
    /// A list of values.
    Array(Vec<Reply>),
    /// A list of key-value pairs: a key, its value, the next key and so on.
    Entries(Vec<Reply>),
}

/// The mathematical value of a [`Reply`].
pub enum ReplyView {
    Null,
    Okay,
    Integer(i64),
    Boolean(bool),
    BulkString(Seq<char>),
    StringBuffer(Seq<u8>),
    Float(u64),
    Array(Seq<ReplyView>),
    Entries(Seq<ReplyView>),
}

/// The value of a reply, lists taken element by element.
pub open spec fn reply_view(reply: Reply) -> ReplyView
    decreases reply,
{
    match reply {
        Reply::Null => ReplyView::Null,
        Reply::Okay => ReplyView::Okay,
        Reply::Integer(i) => ReplyView::Integer(i),
        Reply::Boolean(b) => ReplyView::Boolean(b),
        Reply::BulkString(s) => ReplyView::BulkString(s@),
        Reply::StringBuffer(b) => ReplyView::StringBuffer(b@),
        Reply::Float(bits) => ReplyView::Float(bits),
        Reply::Array(items) => ReplyView::Array(
            Seq::new(
                items@.len(),
                |i: int|
                    if 0 <= i < items@.len() {
                        reply_view(items@[i])
                    } else {
                        ReplyView::Null
                    },
            ),
        ),
        Reply::Entries(items) => ReplyView::Entries(
            Seq::new(
                items@.len(),
                |i: int|
                    if 0 <= i < items@.len() {
                        reply_view(items@[i])
                    } else {
                        ReplyView::Null
                    },
            ),
        ),
    }
}

impl View for Reply {
    type V = ReplyView;

    open spec fn view(&self) -> ReplyView {
        reply_view(*self)
    }
}

/// The values of a list of replies.
pub open spec fn replies_view(replies: Seq<Reply>) -> Seq<ReplyView> {
    Seq::new(replies.len(), |i: int| replies[i]@)
}

/// A length as a reply: the number itself, held at the largest integer a
/// reply can carry.
pub open spec fn length_reply(n: nat) -> ReplyView {
    if n <= i64::MAX {
        ReplyView::Integer(n as i64)
    } else {
        ReplyView::Integer(i64::MAX)
    }
}

impl Reply {
    /// The reply that reports a length.
    pub fn length(n: usize) -> (reply: Reply)
        ensures
            reply@ == length_reply(n as nat),
    {
        let wide: u64 = n as u64;
        if wide <= 0x7fff_ffff_ffff_ffff {
            Reply::Integer(wide as i64)
        } else {
            Reply::Integer(0x7fff_ffff_ffff_ffff)
        }
    }

    /// The reply that reports a length given as a wide integer.
    pub fn wide_length(n: u128) -> (reply: Reply)
        ensures
            reply@ == length_reply(n as nat),
    {
        if n <= 0x7fff_ffff_ffff_ffff {
            Reply::Integer(n as i64)
        } else {
            Reply::Integer(0x7fff_ffff_ffff_ffff)
        }
    }

    /// The reply that carries a copy of the bytes.
    pub fn bytes(bytes: &[u8]) -> (reply: Reply)
        ensures
            reply@ == ReplyView::StringBuffer(bytes@),
    {
        Reply::StringBuffer(vstd::slice::slice_to_vec(bytes))
    }

    /// The reply that lists the given keys and values in turn.
    pub fn entries(items: Vec<Reply>) -> (reply: Reply)
        ensures
            reply@ == ReplyView::Entries(replies_view(items@)),
    {
        let reply = Reply::Entries(items);
        proof {
            reveal_with_fuel(reply_view, 2);
            assert(reply@->Entries_0 =~= replies_view(items@));
        }
        reply
    }

    /// The reply that lists the given values.
    pub fn list(items: Vec<Reply>) -> (reply: Reply)
        ensures
            reply@ == ReplyView::Array(replies_view(items@)),
    {
        let reply = Reply::Array(items);
        proof {
            reveal_with_fuel(reply_view, 2);
            assert(reply@->Array_0 =~= replies_view(items@));
        }
        reply
    }
}

} // verus!
