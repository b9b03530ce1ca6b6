//! Wire message codec, outbound side: the dialect's request frames built
//! as JSON text, with verified string escaping.

use crate::auth::{hex_char, hex_digit, sign, signature_of};
use crate::numeric::{dec_of, push_char, u64_to_dec};
use crate::types::{tf_code, timeframe_to_mt5_string, Timeframe};
use vstd::prelude::*;

verus! {

/// The JSON escape of one character: quote, backslash and the common
/// control characters get their short escapes, other control characters a
/// `\u00..` escape, and everything else stands as itself.
pub open spec fn escape_char_of(c: char) -> Seq<char> {
    if c == '"' {
        seq!['\\', '"']
    } else if c == '\\' {
        seq!['\\', '\\']
    } else if c == '\n' {
        seq!['\\', 'n']
    } else if c == '\r' {
        seq!['\\', 'r']
    } else if c == '\t' {
        seq!['\\', 't']
    } else if (c as u32) < 0x20 {
        seq![
            '\\',
            'u',
            '0',
            '0',
            hex_digit(((c as u32) >> 4) as nat),
            hex_digit(((c as u32) & 0xf) as nat),
        ]
    } else {
        seq![c]
    }
}

/// The JSON escape of a string's characters.
pub open spec fn escape_of(s: Seq<char>) -> Seq<char>
    decreases s.len(),
{
    if s.len() == 0 {
        Seq::empty()
    } else {
        escape_char_of(s[0]) + escape_of(s.drop_first())
    }
}

proof fn lemma_escape_of_snoc(s: Seq<char>, c: char)
    ensures
        escape_of(s.push(c)) == escape_of(s) + escape_char_of(c),
    decreases s.len(),
{
    let t = s.push(c);
    assert(t.len() == s.len() + 1);
    assert(t[0] == if s.len() == 0 {
        c
    } else {
        s[0]
    });
    if s.len() == 0 {
        assert(t.drop_first() =~= Seq::<char>::empty());
        assert(escape_of(t) == escape_char_of(c) + escape_of(Seq::<char>::empty()));
        assert(escape_char_of(c) + Seq::<char>::empty() =~= escape_char_of(c));
        assert(escape_of(s) + escape_char_of(c) =~= escape_char_of(c));
    } else {
        assert(t.drop_first() =~= s.drop_first().push(c));
        lemma_escape_of_snoc(s.drop_first(), c);
        assert(escape_of(t) == escape_char_of(s[0]) + (escape_of(s.drop_first()) + escape_char_of(
            c,
        )));
        assert(escape_of(s) == escape_char_of(s[0]) + escape_of(s.drop_first()));
        assert(escape_char_of(s[0]) + (escape_of(s.drop_first()) + escape_char_of(c)) =~= (
        escape_char_of(s[0]) + escape_of(s.drop_first())) + escape_char_of(c));
    }
}

/// Escapes a string for inclusion in a JSON string literal.
pub fn json_escape(s: &str) -> (r: String)
    ensures
        r@ == escape_of(s@),
{
    let n = s.unicode_len();
    let mut r = String::new();
    let mut i: usize = 0;
    while i < n
        invariant
            i <= n,
            n == s@.len(),
            r@ == escape_of(s@.take(i as int)),
        decreases n - i,
    {
        let c = s.get_char(i);
        if c == '"' {
            r.append("\\\"");
            proof {
                reveal_strlit("\\\"");
                assert(("\\\"")@ =~= escape_char_of(c));
            }
        } else if c == '\\' {
            r.append("\\\\");
            proof {
                reveal_strlit("\\\\");
                assert(("\\\\")@ =~= escape_char_of(c));
            }
        } else if c == '\n' {
            r.append("\\n");
            proof {
                reveal_strlit("\\n");
                assert(("\\n")@ =~= escape_char_of(c));
            }
        } else if c == '\r' {
            r.append("\\r");
            proof {
                reveal_strlit("\\r");
                assert(("\\r")@ =~= escape_char_of(c));
            }
        } else if c == '\t' {
            r.append("\\t");
            proof {
                reveal_strlit("\\t");
                assert(("\\t")@ =~= escape_char_of(c));
            }
        } else if (c as u32) < 0x20 {
            r.append("\\u00");
            let u: u32 = c as u32;
            let hi: u32 = u >> 4;
            let lo: u32 = u & 0xf;
            proof {
                assert(hi < 16 && lo < 16) by (bit_vector)
                    requires
                        hi == u >> 4,
                        lo == u & 0xf,
                        u < 0x20,
                ;
            }
            push_char(&mut r, hex_char(hi as u8));
            push_char(&mut r, hex_char(lo as u8));
            proof {
                reveal_strlit("\\u00");
                assert(("\\u00")@ + seq![hex_digit(hi as nat), hex_digit(lo as nat)]
                    =~= escape_char_of(c));
            }
        } else {
            push_char(&mut r, c);
            proof {
                assert(seq![c] =~= escape_char_of(c));
            }
        }
        proof {
            assert(s@.take(i + 1) =~= s@.take(i as int).push(c));
            lemma_escape_of_snoc(s@.take(i as int), c);
            assert(r@ =~= escape_of(s@.take(i + 1)));
        }
        i = i + 1;
    }
    proof {
        assert(s@.take(n as int) =~= s@);
    }
    r
}

/// The authentication request frame for a key, timestamp and secret.
pub open spec fn auth_request_of(api_key: Seq<char>, timestamp: u64, secret: Seq<char>) -> Seq<
    char,
> {
    "{\"type\":\"auth\",\"api_key\":\""@ + escape_of(api_key) + "\",\"timestamp\":"@ + dec_of(
        timestamp as nat,
    ) + ",\"signature\":\""@ + signature_of(api_key, timestamp, secret) + "\"}"@
}

/// Builds the authentication request frame, signing `api_key || timestamp`
/// with the secret.
pub fn build_auth_request(api_key: &str, timestamp: u64, secret: &str) -> (r: String)
    ensures
        r@ == auth_request_of(api_key@, timestamp, secret@),
{
    let mut r = "{\"type\":\"auth\",\"api_key\":\"".to_owned();
    let esc = json_escape(api_key);
    r.append(esc.as_str());
    r.append("\",\"timestamp\":");
    let ts = u64_to_dec(timestamp);
    r.append(ts.as_str());
    r.append(",\"signature\":\"");
    let sig = sign(api_key, timestamp, secret);
    r.append(sig.as_str());
    r.append("\"}");
    assert(r@ =~= auth_request_of(api_key@, timestamp, secret@));
    r
}

/// The subscribe request frame for a symbol, naming the trade and depth
/// channels.
pub open spec fn subscribe_request_of(symbol: Seq<char>) -> Seq<char> {
    "{\"type\":\"subscribe\",\"symbols\":[\""@ + escape_of(symbol)
        + "\"],\"channels\":[\"trade\",\"depth\"]}"@
}

/// Builds the subscribe request frame for a symbol.
pub fn build_subscribe_request(symbol: &str) -> (r: String)
    ensures
        r@ == subscribe_request_of(symbol@),
{
    let mut r = "{\"type\":\"subscribe\",\"symbols\":[\"".to_owned();
    let esc = json_escape(symbol);
    r.append(esc.as_str());
    r.append("\"],\"channels\":[\"trade\",\"depth\"]}");
    assert(r@ =~= subscribe_request_of(symbol@));
    r
}

/// The symbol list request frame.
pub fn build_symbols_request() -> (r: String)
    ensures
        r@ == "{\"type\":\"get_symbols\"}"@,
{
    "{\"type\":\"get_symbols\"}".to_owned()
}

/// The history request frame for a symbol, timeframe and entry limit,
/// optionally bounded by a start and end time in epoch milliseconds.
pub open spec fn klines_request_of(
    symbol: Seq<char>,
    tf: Timeframe,
    limit: u64,
    range: Option<(u64, u64)>,
) -> Seq<char> {
    "{\"type\":\"get_klines\",\"symbol\":\""@ + escape_of(symbol) + "\",\"timeframe\":\""@
        + tf_code(tf) + "\",\"limit\":"@ + dec_of(limit as nat) + (match range {
        Some((s, e)) => ",\"start\":"@ + dec_of(s as nat) + ",\"end\":"@ + dec_of(e as nat),
        None => Seq::empty(),
    }) + "}"@
}

/// Builds the history request frame.
pub fn build_klines_request(symbol: &str, tf: Timeframe, limit: u64, range: Option<(u64, u64)>) -> (
    r: String)
    ensures
        r@ == klines_request_of(symbol@, tf, limit, range),
{
    let mut r = "{\"type\":\"get_klines\",\"symbol\":\"".to_owned();
    let esc = json_escape(symbol);
    r.append(esc.as_str());
    r.append("\",\"timeframe\":\"");
    r.append(timeframe_to_mt5_string(tf));
    r.append("\",\"limit\":");
    let lim = u64_to_dec(limit);
    r.append(lim.as_str());
    match range {
        Some((s, e)) => {
            r.append(",\"start\":");
            let sd = u64_to_dec(s);
            r.append(sd.as_str());
            r.append(",\"end\":");
            let ed = u64_to_dec(e);
            r.append(ed.as_str());
        },
        None => {},
    }
    r.append("}");
    assert(r@ =~= klines_request_of(symbol@, tf, limit, range));
    r
}

/// The keepalive reply frame for a time in epoch milliseconds.
pub open spec fn ping_request_of(now_ms: u64) -> Seq<char> {
    "{\"type\":\"ping\",\"time\":"@ + dec_of(now_ms as nat) + "}"@
}

/// Builds the keepalive reply frame sent in answer to a heartbeat.
pub fn build_ping_request(now_ms: u64) -> (r: String)
    ensures
        r@ == ping_request_of(now_ms),
{
    let mut r = "{\"type\":\"ping\",\"time\":".to_owned();
    let ts = u64_to_dec(now_ms);
    r.append(ts.as_str());
    r.append("}");
    assert(r@ =~= ping_request_of(now_ms));
    r
}

} // verus!
