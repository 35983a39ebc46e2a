//! The session snapshot codec: a session is persisted as one text snapshot
//! and loaded back. Fields are length-prefixed with a fixed twenty-digit
//! decimal, so any content round-trips without escaping: the identity, the
//! timestamp, the message count, then each message as a role mark and its
//! content.

use vstd::prelude::*;
use vstd::string::StrSliceExecFns;
use vstd::string::StringExecFns;
use crate::errors::{AgentError, AgentErrorModel};
use crate::provider::{Message, MessageModel, msgs_model, Role};
use crate::session::{Session, SessionModel};
use crate::text::{
    char_digit_val, dec_val, fixed_digits, is_digit, lemma_dec_val_bound, lemma_fixed_digits_shape,
    lemma_fixed_digits_val, lemma_pow10_20, pow10, usize_to_fixed,
};

verus! {

/// The single-character mark of a role.
pub open spec fn role_char(r: Role) -> char {
    if r == Role::User {
        'u'
    } else {
        'a'
    }
}

/// A length-prefixed text field.
pub open spec fn enc_str(x: Seq<char>) -> Seq<char> {
    fixed_digits(x.len(), 20) + x
}

/// One encoded message: its role mark, then its content as a field.
pub open spec fn enc_msg(m: MessageModel) -> Seq<char> {
    seq![role_char(m.role)] + enc_str(m.content)
}

/// The encoded messages, in order.
pub open spec fn enc_msgs(ms: Seq<MessageModel>) -> Seq<char>
    decreases ms.len(),
{
    if ms.len() == 0 {
        Seq::<char>::empty()
    } else {
        enc_msg(ms.first()) + enc_msgs(ms.drop_first())
    }
}

/// The whole snapshot of a session.
pub open spec fn encode_spec(m: SessionModel) -> Seq<char> {
    enc_str(m.session_id) + enc_str(m.time_stamp) + fixed_digits(m.messages.len(), 20) + enc_msgs(
        m.messages,
    )
}

/// Every length in the model fits the machine; true of the model of any
/// session held in memory.
pub open spec fn session_model_fits(m: SessionModel) -> bool {
    &&& m.session_id.len() <= usize::MAX
    &&& m.time_stamp.len() <= usize::MAX
    &&& m.messages.len() <= usize::MAX
    &&& forall|i: int| 0 <= i < m.messages.len() ==> (#[trigger] m.messages[i]).content.len()
        <= usize::MAX
}

/// Reads a twenty-digit length field at `pos`.
pub open spec fn parse_len_spec(s: Seq<char>, pos: int) -> Option<nat> {
    if 0 <= pos && pos + 20 <= s.len() {
        let w = s.subrange(pos, pos + 20);
        if (forall|i: int| 0 <= i < 20 ==> is_digit(#[trigger] w[i])) && dec_val(w)
            <= usize::MAX as nat {
            Some(dec_val(w))
        } else {
            None
        }
    } else {
        None
    }
}

/// Reads a length-prefixed field at `pos`: the content and the position
/// after it.
pub open spec fn parse_str_spec(s: Seq<char>, pos: int) -> Option<(Seq<char>, int)> {
    match parse_len_spec(s, pos) {
        None => None,
        Some(n) => if pos + 20 + n <= s.len() {
            Some((s.subrange(pos + 20, pos + 20 + n), pos + 20 + n))
        } else {
            None
        },
    }
}

/// Reads a role mark at `pos`.
pub open spec fn parse_role_spec(s: Seq<char>, pos: int) -> Option<Role> {
    if 0 <= pos < s.len() {
        if s[pos] == 'u' {
            Some(Role::User)
        } else if s[pos] == 'a' {
            Some(Role::Assistant)
        } else {
            None
        }
    } else {
        None
    }
}

/// Reads `count` messages starting at `pos`.
pub open spec fn parse_msgs_spec(s: Seq<char>, pos: int, count: nat) -> Option<
    (Seq<MessageModel>, int),
>
    decreases count,
{
    if count == 0 {
        Some((Seq::<MessageModel>::empty(), pos))
    } else {
        match parse_role_spec(s, pos) {
            None => None,
            Some(role) => match parse_str_spec(s, pos + 1) {
                None => None,
                Some((content, pos2)) => match parse_msgs_spec(s, pos2, (count - 1) as nat) {
                    None => None,
                    Some((rest, pos3)) => Some(
                        (seq![MessageModel { role, content }] + rest, pos3),
                    ),
                },
            },
        }
    }
}

/// Reads a whole snapshot back; the snapshot must be consumed exactly.
pub open spec fn decode_spec(s: Seq<char>) -> Option<SessionModel> {
    match parse_str_spec(s, 0) {
        None => None,
        Some((session_id, p1)) => match parse_str_spec(s, p1) {
            None => None,
            Some((time_stamp, p2)) => match parse_len_spec(s, p2) {
                None => None,
                Some(count) => match parse_msgs_spec(s, p2 + 20, count) {
                    None => None,
                    Some((messages, p3)) => if p3 == s.len() {
                        Some(SessionModel { session_id, messages, time_stamp })
                    } else {
                        None
                    },
                },
            },
        },
    }
}

proof fn lemma_parse_len_at(s: Seq<char>, pos: int, n: nat, rest: Seq<char>)
    requires
        0 <= pos <= s.len(),
        s.subrange(pos, s.len() as int) == fixed_digits(n, 20) + rest,
        n <= usize::MAX,
    ensures
        parse_len_spec(s, pos) == Some(n),
        pos + 20 <= s.len(),
        s.subrange(pos + 20, s.len() as int) == rest,
{
    let suffix = s.subrange(pos, s.len() as int);
    let f = fixed_digits(n, 20);
    lemma_fixed_digits_shape(n, 20);
    assert(suffix.len() == s.len() - pos);
    assert(pos + 20 <= s.len());
    let w = s.subrange(pos, pos + 20);
    assert forall|i: int| 0 <= i < 20 implies w[i] == f[i] by {
        assert(w[i] == s[pos + i]);
        assert(suffix[i] == s[pos + i]);
        assert((f + rest)[i] == f[i]);
    }
    assert(w =~= f);
    lemma_fixed_digits_val(n, 20);
    lemma_pow10_20();
    vstd::arithmetic::div_mod::lemma_small_mod(n, pow10(20));
    assert(dec_val(w) == n);
    assert(parse_len_spec(s, pos) == Some(n));
    assert forall|i: int| 0 <= i < rest.len() implies s.subrange(pos + 20, s.len() as int)[i]
        == rest[i] by {
        assert(s.subrange(pos + 20, s.len() as int)[i] == s[pos + 20 + i]);
        assert(suffix[20 + i] == s[pos + 20 + i]);
        assert((f + rest)[20 + i] == rest[i]);
    }
    assert(s.subrange(pos + 20, s.len() as int) =~= rest);
}

proof fn lemma_parse_str_at(s: Seq<char>, pos: int, x: Seq<char>, rest: Seq<char>)
    requires
        0 <= pos <= s.len(),
        s.subrange(pos, s.len() as int) == enc_str(x) + rest,
        x.len() <= usize::MAX,
    ensures
        parse_str_spec(s, pos) == Some((x, pos + 20 + x.len())),
        pos + 20 + x.len() <= s.len(),
        s.subrange(pos + 20 + x.len(), s.len() as int) == rest,
{
    assert(s.subrange(pos, s.len() as int) =~= fixed_digits(x.len(), 20) + (x + rest));
    lemma_parse_len_at(s, pos, x.len(), x + rest);
    let p1 = pos + 20;
    let tail = s.subrange(p1, s.len() as int);
    assert(tail == x + rest);
    assert(p1 + x.len() <= s.len());
    let c = s.subrange(p1, p1 + x.len());
    assert forall|i: int| 0 <= i < x.len() implies c[i] == x[i] by {
        assert(c[i] == s[p1 + i]);
        assert(tail[i] == s[p1 + i]);
        assert((x + rest)[i] == x[i]);
    }
    assert(c =~= x);
    assert forall|i: int| 0 <= i < rest.len() implies s.subrange(p1 + x.len(), s.len() as int)[i]
        == rest[i] by {
        assert(s.subrange(p1 + x.len(), s.len() as int)[i] == s[p1 + x.len() + i]);
        assert(tail[x.len() + i] == s[p1 + x.len() + i]);
        assert((x + rest)[x.len() + i] == rest[i]);
    }
    assert(s.subrange(p1 + x.len(), s.len() as int) =~= rest);
}

proof fn lemma_parse_msgs_at(s: Seq<char>, pos: int, ms: Seq<MessageModel>, rest: Seq<char>)
    requires
        0 <= pos <= s.len(),
        s.subrange(pos, s.len() as int) == enc_msgs(ms) + rest,
        forall|i: int| 0 <= i < ms.len() ==> (#[trigger] ms[i]).content.len() <= usize::MAX,
    ensures
        pos + enc_msgs(ms).len() <= s.len(),
        parse_msgs_spec(s, pos, ms.len()) == Some((ms, pos + enc_msgs(ms).len())),
        s.subrange(pos + enc_msgs(ms).len(), s.len() as int) == rest,
    decreases ms.len(),
{
    if ms.len() == 0 {
        assert(enc_msgs(ms) == Seq::<char>::empty());
        assert(s.subrange(pos, s.len() as int) =~= rest);
    } else {
        let m = ms.first();
        let suffix = s.subrange(pos, s.len() as int);
        assert(enc_msgs(ms) == enc_msg(m) + enc_msgs(ms.drop_first()));
        let after = enc_msgs(ms.drop_first()) + rest;
        assert(suffix =~= seq![role_char(m.role)] + (enc_str(m.content) + after));
        assert(pos < s.len()) by {
            assert(suffix.len() >= 1);
        }
        assert(s[pos] == suffix[0]);
        assert(suffix[0] == role_char(m.role));
        assert(parse_role_spec(s, pos) == Some(m.role));
        assert forall|i: int| 0 <= i < (enc_str(m.content) + after).len() implies s.subrange(
            pos + 1,
            s.len() as int,
        )[i] == (enc_str(m.content) + after)[i] by {
            assert(s.subrange(pos + 1, s.len() as int)[i] == s[pos + 1 + i]);
            assert(suffix[1 + i] == s[pos + 1 + i]);
            assert((seq![role_char(m.role)] + (enc_str(m.content) + after))[1 + i] == (enc_str(
                m.content,
            ) + after)[i]);
        }
        assert(s.subrange(pos + 1, s.len() as int) =~= enc_str(m.content) + after);
        assert(ms[0].content.len() <= usize::MAX);
        lemma_parse_str_at(s, pos + 1, m.content, after);
        let pos2 = pos + 1 + 20 + m.content.len();
        assert forall|i: int| 0 <= i < ms.drop_first().len() implies (#[trigger] ms.drop_first()[i]).content.len()
            <= usize::MAX by {
            assert(ms.drop_first()[i] == ms[i + 1]);
        }
        lemma_parse_msgs_at(s, pos2, ms.drop_first(), rest);
        assert(seq![MessageModel { role: m.role, content: m.content }] + ms.drop_first() =~= ms);
        assert(MessageModel { role: m.role, content: m.content } == m);
        assert(pos2 + enc_msgs(ms.drop_first()).len() == pos + enc_msgs(ms).len());
    }
}

/// Round trip: decoding the snapshot of any session model yields exactly
/// that model — the same identity, the same ordered messages, the same
/// timestamp.
pub proof fn lemma_snapshot_roundtrip(m: SessionModel)
    requires
        session_model_fits(m),
    ensures
        decode_spec(encode_spec(m)) == Some(m),
{
    let s = encode_spec(m);
    let e_id = enc_str(m.session_id);
    let e_ts = enc_str(m.time_stamp);
    let e_count = fixed_digits(m.messages.len(), 20);
    let e_ms = enc_msgs(m.messages);
    assert(s.subrange(0, s.len() as int) =~= e_id + (e_ts + (e_count + e_ms)));
    lemma_parse_str_at(s, 0, m.session_id, e_ts + (e_count + e_ms));
    let p1 = 20 + m.session_id.len() as int;
    lemma_parse_str_at(s, p1, m.time_stamp, e_count + e_ms);
    let p2 = p1 + 20 + m.time_stamp.len();
    lemma_parse_len_at(s, p2, m.messages.len(), e_ms);
    let p3 = p2 + 20;
    assert(s.subrange(p3, s.len() as int) =~= e_ms + Seq::<char>::empty());
    lemma_parse_msgs_at(s, p3, m.messages, Seq::<char>::empty());
    let p4 = p3 + e_ms.len();
    assert(p4 == s.len()) by {
        assert(s.subrange(p4, s.len() as int) == Seq::<char>::empty());
        assert(s.subrange(p4, s.len() as int).len() == s.len() - p4);
    }
    assert(decode_spec(s) == Some(SessionModel {
        session_id: m.session_id,
        messages: m.messages,
        time_stamp: m.time_stamp,
    }));
    assert(SessionModel {
        session_id: m.session_id,
        messages: m.messages,
        time_stamp: m.time_stamp,
    } == m);
}

/// Encoding a sequence of messages grows from the right, one message at a
/// time.
proof fn lemma_enc_msgs_push(ms: Seq<MessageModel>, m: MessageModel)
    ensures
        enc_msgs(ms.push(m)) == enc_msgs(ms) + enc_msg(m),
    decreases ms.len(),
{
    if ms.len() == 0 {
        reveal_with_fuel(enc_msgs, 2);
        assert(ms.push(m).drop_first() =~= Seq::<MessageModel>::empty());
        assert(ms.push(m).first() == m);
        assert(enc_msgs(ms.push(m)) == enc_msg(m) + enc_msgs(Seq::<MessageModel>::empty()));
        assert(enc_msgs(ms.push(m)) =~= enc_msgs(ms) + enc_msg(m));
    } else {
        let lhs = enc_msgs(ms.push(m));
        assert(ms.push(m).first() == ms.first());
        assert(ms.push(m).drop_first() =~= ms.drop_first().push(m));
        assert(lhs == enc_msg(ms.first()) + enc_msgs(ms.drop_first().push(m)));
        lemma_enc_msgs_push(ms.drop_first(), m);
        assert(lhs == enc_msg(ms.first()) + (enc_msgs(ms.drop_first()) + enc_msg(m)));
        assert(enc_msg(ms.first()) + (enc_msgs(ms.drop_first()) + enc_msg(m)) =~= (enc_msg(
            ms.first(),
        ) + enc_msgs(ms.drop_first())) + enc_msg(m));
    }
}

fn append_enc_str(out: &mut String, x: &str)
    ensures
        final(out)@ == old(out)@ + enc_str(x@),
        x@.len() <= usize::MAX,
{
    let n = x.unicode_len();
    let f = usize_to_fixed(n, 20);
    out.append(f.as_str());
    out.append(x);
    proof {
        assert(out@ =~= old(out)@ + enc_str(x@));
    }
}

/// Renders the whole snapshot of a session.
pub fn encode_session(session: &Session) -> (r: String)
    ensures
        r@ == encode_spec(session@),
        session_model_fits(session@),
{
    let mut out = String::new();
    append_enc_str(&mut out, session.session_id().as_str());
    append_enc_str(&mut out, session.time_stamp().as_str());
    let msgs = session.get_messages();
    let count_field = usize_to_fixed(msgs.len(), 20);
    out.append(count_field.as_str());
    let ghost ms = session@.messages;
    let ghost head = enc_str(session@.session_id) + enc_str(session@.time_stamp) + fixed_digits(
        ms.len(),
        20,
    );
    proof {
        assert(out@ =~= head + enc_msgs(ms.take(0)));
    }
    let mut i: usize = 0;
    #[verifier::loop_isolation(false)]
    while i < msgs.len()
        invariant
            i <= msgs@.len(),
            ms == msgs_model(msgs@),
            ms.len() == msgs@.len(),
            out@ == head + enc_msgs(ms.take(i as int)),
            forall|j: int| 0 <= j < i ==> (#[trigger] ms[j]).content.len() <= usize::MAX,
        decreases msgs@.len() - i,
    {
        match msgs[i].role {
            Role::User => out.append("u"),
            Role::Assistant => out.append("a"),
        }
        proof {
            reveal_strlit("u");
            reveal_strlit("a");
            assert("u"@ =~= seq!['u']);
            assert("a"@ =~= seq!['a']);
            assert(ms[i as int] == msgs@[i as int]@);
            assert(out@ =~= head + enc_msgs(ms.take(i as int)) + seq![role_char(ms[i as int].role)]);
        }
        append_enc_str(&mut out, msgs[i].content.as_str());
        proof {
            assert(ms.take(i as int + 1).drop_last() =~= ms.take(i as int));
            assert(ms.take(i as int + 1).last() == ms[i as int]);
            lemma_enc_msgs_push(ms.take(i as int), ms[i as int]);
            assert(ms.take(i as int).push(ms[i as int]) =~= ms.take(i as int + 1));
            assert(out@ =~= head + enc_msgs(ms.take(i as int + 1)));
        }
        i = i + 1;
    }
    proof {
        assert(ms.take(ms.len() as int) =~= ms);
        assert(out@ =~= encode_spec(session@));
    }
    out
}

fn parse_len(s: &str, pos: usize) -> (r: Option<usize>)
    requires
        pos <= s@.len(),
        s@.len() <= usize::MAX,
    ensures
        match r {
            Some(n) => parse_len_spec(s@, pos as int) == Some(n as nat) && pos + 20 <= s@.len(),
            None => parse_len_spec(s@, pos as int) is None,
        },
{
    let len = s.unicode_len();
    if len - pos < 20 {
        return None;
    }
    let ghost w = s@.subrange(pos as int, pos as int + 20);
    let mut acc: u128 = 0;
    let mut j: usize = 0;
    #[verifier::loop_isolation(false)]
    while j < 20
        invariant
            j <= 20,
            pos + 20 <= s@.len(),
            forall|t: int| 0 <= t < j ==> is_digit(#[trigger] w[t]),
            acc as nat == dec_val(w.take(j as int)),
        decreases 20 - j,
    {
        let c = s.get_char(pos + j);
        proof {
            assert(c == w[j as int]);
        }
        match char_digit_val(c) {
            None => {
                return None;
            },
            Some(d) => {
                proof {
                    lemma_dec_val_bound(w.take(j as int));
                    crate::text::lemma_pow10_increases(j as nat, 19);
                    lemma_pow10_20();
                    assert(pow10(20) == 10 * pow10(19));
                    assert(acc * 10 + d < pow10(20)) by {
                        assert(acc < pow10(19));
                        assert(acc * 10 <= (pow10(19) - 1) * 10) by (nonlinear_arith)
                            requires acc < pow10(19);
                    }
                }
                acc = acc * 10 + (d as u128);
                proof {
                    assert(w.take(j as int + 1).drop_last() =~= w.take(j as int));
                    assert(w.take(j as int + 1).last() == w[j as int]);
                    assert(acc as nat == dec_val(w.take(j as int + 1)));
                }
                j = j + 1;
            },
        }
    }
    proof {
        assert(w.take(20) =~= w);
    }
    if acc > usize::MAX as u128 {
        None
    } else {
        Some(acc as usize)
    }
}

fn parse_string(s: &str, pos: usize) -> (r: Option<(String, usize)>)
    requires
        pos <= s@.len(),
        s@.len() <= usize::MAX,
    ensures
        match r {
            Some(p) => parse_str_spec(s@, pos as int) == Some((p.0@, p.1 as int)) && pos <= p.1
                <= s@.len(),
            None => parse_str_spec(s@, pos as int) is None,
        },
{
    match parse_len(s, pos) {
        None => None,
        Some(n) => {
            let len = s.unicode_len();
            let avail = len - (pos + 20);
            if n > avail {
                None
            } else {
                let start = pos + 20;
                let end = start + n;
                let content = s.substring_char(start, end).to_owned();
                Some((content, end))
            }
        },
    }
}

fn parse_role(s: &str, pos: usize) -> (r: Option<Role>)
    requires
        pos <= s@.len(),
        s@.len() <= usize::MAX,
    ensures
        match r {
            Some(role) => parse_role_spec(s@, pos as int) == Some(role) && pos < s@.len(),
            None => parse_role_spec(s@, pos as int) is None,
        },
{
    let len = s.unicode_len();
    if pos >= len {
        return None;
    }
    let c = s.get_char(pos);
    if c == 'u' {
        Some(Role::User)
    } else if c == 'a' {
        Some(Role::Assistant)
    } else {
        None
    }
}

fn snapshot_error() -> (r: AgentError)
    ensures
        r@ is SessionStoreError,
{
    AgentError::SessionStoreError(String::from_str("corrupt session snapshot"))
}

/// Reads a snapshot back into a session; fails on anything but an exact
/// snapshot.
pub fn decode_session(s: &str) -> (r: Result<Session, AgentError>)
    ensures
        match r {
            Ok(sn) => decode_spec(s@) == Some(sn@),
            Err(e) => decode_spec(s@) is None && e@ is SessionStoreError,
        },
{
    let len = s.unicode_len();
    let (session_id, p1) = match parse_string(s, 0) {
        None => {
            return Err(snapshot_error());
        },
        Some(p) => p,
    };
    let (time_stamp, p2) = match parse_string(s, p1) {
        None => {
            return Err(snapshot_error());
        },
        Some(p) => p,
    };
    let count = match parse_len(s, p2) {
        None => {
            return Err(snapshot_error());
        },
        Some(n) => n,
    };
    let mut pos = p2 + 20;
    let ghost start = pos as int;
    let mut msgs: Vec<Message> = Vec::new();
    let mut k: usize = 0;
    proof {
        assert(msgs_model(msgs@) =~= Seq::<MessageModel>::empty());
        match parse_msgs_spec(s@, start, count as nat) {
            Some((rest, p)) => {
                assert(msgs_model(msgs@) + rest =~= rest);
            },
            None => {},
        }
    }
    #[verifier::loop_isolation(false)]
    while k < count
        invariant
            k <= count,
            pos <= s@.len(),
            msgs@.len() == k,
            parse_msgs_spec(s@, start, count as nat) == (match parse_msgs_spec(
                s@,
                pos as int,
                (count - k) as nat,
            ) {
                Some((rest, p)) => Some((msgs_model(msgs@) + rest, p)),
                None => None::<(Seq<MessageModel>, int)>,
            }),
        decreases count - k,
    {
        let role = match parse_role(s, pos) {
            None => {
                return Err(snapshot_error());
            },
            Some(role) => role,
        };
        let (content, pos2) = match parse_string(s, pos + 1) {
            None => {
                return Err(snapshot_error());
            },
            Some(p) => p,
        };
        let m = Message { role, content };
        let ghost msgs_before = msgs_model(msgs@);
        msgs.push(m);
        proof {
            assert(msgs_model(msgs@) =~= msgs_before.push(m@));
            match parse_msgs_spec(s@, pos2 as int, (count - k - 1) as nat) {
                Some((rest2, p)) => {
                    assert(msgs_before + (seq![m@] + rest2) =~= msgs_model(msgs@) + rest2);
                },
                None => {},
            }
        }
        pos = pos2;
        k = k + 1;
    }
    if pos != len {
        proof {
            match parse_msgs_spec(s@, start, count as nat) {
                Some((rest, p)) => {
                    assert(msgs_model(msgs@) + Seq::<MessageModel>::empty() =~= msgs_model(msgs@));
                },
                None => {},
            }
        }
        return Err(snapshot_error());
    }
    proof {
        assert(msgs_model(msgs@) + Seq::<MessageModel>::empty() =~= msgs_model(msgs@));
    }
    Ok(Session::from_parts(session_id, msgs, time_stamp))
}

} // verus!

