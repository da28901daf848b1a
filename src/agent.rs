//! The key agent's wire format: the metadata message, the payload that
//! follows it, and the remote command that receives both.
use vstd::prelude::*;
use vstd::string::*;
use vstd::utf8::encode_utf8;
use crate::key::AgentKey;
use crate::text::{decimal, decimal_string};

verus! {

/// LEB128 encoding of `v`: seven bits per byte, low bits first, the high bit
/// set on every byte but the last.
pub open spec fn varint(v: nat) -> Seq<u8>
    decreases v,
{
    if v < 128 {
        seq![v as u8]
    } else {
        seq![(v % 128 + 128) as u8] + varint(v / 128)
    }
}

/// Relies on prost::encoding::encode_varint: appends the LEB128 encoding of
/// `v` to the buffer.
#[verifier::external_body]
fn put_varint(v: u64, buf: &mut Vec<u8>)
    ensures
        final(buf)@ == old(buf)@ + varint(v as nat),
{
    prost::encoding::encode_varint(v, buf)
}

/// A length-delimited field: its tag, the length of `bytes`, then `bytes`.
pub open spec fn delimited_field(field: nat, bytes: Seq<u8>) -> Seq<u8> {
    varint(field * 8 + 2) + varint(bytes.len()) + bytes
}

/// A string field, left out when the string is empty.
pub open spec fn string_field(field: nat, bytes: Seq<u8>) -> Seq<u8> {
    if bytes.len() == 0 {
        seq![]
    } else {
        delimited_field(field, bytes)
    }
}

/// An integer field, left out when the value is zero.
pub open spec fn varint_field(field: nat, v: nat) -> Seq<u8> {
    if v == 0 {
        seq![]
    } else {
        varint(field * 8) + varint(v)
    }
}

/// A signed 32-bit value on the wire: negative values are widened to 64 bits
/// in two's complement.
pub open spec fn int32_wire(v: i32) -> nat {
    if v >= 0 {
        v as nat
    } else {
        (v + 0x1_0000_0000_0000_0000) as nat
    }
}

/// The encoding of one metadata record: length (1), user (2), group (3),
/// permissions (4) and destination (5).
pub open spec fn key_message(k: AgentKey) -> Seq<u8> {
    varint_field(1, int32_wire(k.length))
        + string_field(2, encode_utf8(k.user@))
        + string_field(3, encode_utf8(k.group@))
        + varint_field(4, k.permissions as nat)
        + string_field(5, encode_utf8(k.destination@))
}


/// The metadata message: each record as a length-delimited field 1, in order.
pub open spec fn keys_message(ks: Seq<AgentKey>) -> Seq<u8>
    decreases ks.len(),
{
    if ks.len() == 0 {
        seq![]
    } else {
        keys_message(ks.drop_last()) + delimited_field(1, key_message(ks.last()))
    }
}

/// The byte blocks of `bs`, one after another.
pub open spec fn concat_blocks(bs: Seq<Seq<u8>>) -> Seq<u8>
    decreases bs.len(),
{
    if bs.len() == 0 {
        seq![]
    } else {
        concat_blocks(bs.drop_last()) + bs.last()
    }
}

fn put_delimited(buf: &mut Vec<u8>, field: u64, mut bytes: Vec<u8>)
    requires
        field < 0x1000_0000,
    ensures
        final(buf)@ == old(buf)@ + delimited_field(field as nat, bytes@),
{
    let ghost b = bytes@;
    put_varint(field * 8 + 2, buf);
    put_varint(bytes.len() as u64, buf);
    buf.append(&mut bytes);
    assert(final(buf)@ =~= old(buf)@ + delimited_field(field as nat, b));
}

fn put_string(buf: &mut Vec<u8>, field: u64, s: &String)
    requires
        field < 0x1000_0000,
    ensures
        final(buf)@ == old(buf)@ + string_field(field as nat, encode_utf8(s@)),
{
    let bytes = s.as_str().as_bytes_vec();
    if bytes.len() == 0 {
        assert(final(buf)@ =~= old(buf)@ + string_field(field as nat, encode_utf8(s@)));
    } else {
        put_delimited(buf, field, bytes);
    }
}

fn put_int(buf: &mut Vec<u8>, field: u64, v: u64)
    requires
        field < 0x1000_0000,
    ensures
        final(buf)@ == old(buf)@ + varint_field(field as nat, v as nat),
{
    if v == 0 {
        assert(final(buf)@ =~= old(buf)@ + varint_field(field as nat, v as nat));
    } else {
        put_varint(field * 8, buf);
        put_varint(v, buf);
        assert(final(buf)@ =~= old(buf)@ + varint_field(field as nat, v as nat));
    }
}

/// Encodes one metadata record.
pub fn encode_key(k: &AgentKey) -> (r: Vec<u8>)
    ensures
        r@ == key_message(*k),
{
    let mut r: Vec<u8> = Vec::new();
    let wire: u64 = if k.length >= 0 {
        k.length as u64
    } else {
        (0xFFFF_FFFF_FFFF_FFFFu64 - ((-(k.length as i64) - 1) as u64))
    };
    assert(wire as nat == int32_wire(k.length));
    put_int(&mut r, 1, wire);
    put_string(&mut r, 2, &k.user);
    put_string(&mut r, 3, &k.group);
    put_int(&mut r, 4, k.permissions as u64);
    put_string(&mut r, 5, &k.destination);
    assert(r@ =~= key_message(*k));
    r
}

/// Encodes the metadata message for the records `keys`, in order.
pub fn encode_keys(keys: &Vec<AgentKey>) -> (r: Vec<u8>)
    ensures
        r@ == keys_message(keys@),
{
    let mut r: Vec<u8> = Vec::new();
    let mut i: usize = 0;
    while i < keys.len()
        invariant
            i <= keys@.len(),
            r@ == keys_message(keys@.subrange(0, i as int)),
        decreases keys@.len() - i,
    {
        let m = encode_key(&keys[i]);
        put_delimited(&mut r, 1, m);
        assert(keys@.subrange(0, i + 1).drop_last() =~= keys@.subrange(0, i as int));
        i = i + 1;
    }
    assert(keys@.subrange(0, keys@.len() as int) =~= keys@);
    r
}

/// What the agent reads on its input: the metadata message, then each key's
/// content in the order of the records, with no delimiter between them.
pub fn frame_payload(message: Vec<u8>, contents: Vec<Vec<u8>>) -> (r: Vec<u8>)
    ensures
        r@ == message@ + concat_blocks(contents@.map_values(|b: Vec<u8>| b@)),
{
    let ghost cs = contents@.map_values(|b: Vec<u8>| b@);
    let mut r = message;
    let mut i: usize = 0;
    while i < contents.len()
        invariant
            i <= contents@.len(),
            cs == contents@.map_values(|b: Vec<u8>| b@),
            r@ == message@ + concat_blocks(cs.subrange(0, i as int)),
        decreases contents@.len() - i,
    {
        let mut block = contents[i].clone();
        assert(block@ == contents@[i as int]@);
        r.append(&mut block);
        assert(cs.subrange(0, i + 1).drop_last() =~= cs.subrange(0, i as int));
        assert(r@ =~= message@ + concat_blocks(cs.subrange(0, i + 1)));
        i = i + 1;
    }
    assert(cs.subrange(0, contents@.len() as int) =~= cs);
    r
}

/// Where the content of record `j` starts, counted from the end of the
/// metadata message: the sum of the lengths of the records before it.
pub open spec fn content_offset(ks: Seq<AgentKey>, j: int) -> int
    decreases j,
{
    if j <= 0 {
        0
    } else {
        content_offset(ks, j - 1) + ks[j - 1].length
    }
}

proof fn lemma_concat_prefix(ks: Seq<AgentKey>, bs: Seq<Seq<u8>>, n: int, m: int)
    requires
        ks.len() == bs.len(),
        forall|i: int| 0 <= i < ks.len() ==> #[trigger] ks[i].length as int == bs[i].len(),
        0 <= n <= m <= bs.len(),
    ensures
        concat_blocks(bs.subrange(0, n)).len() == content_offset(ks, n),
        concat_blocks(bs.subrange(0, n)).len() <= concat_blocks(bs.subrange(0, m)).len(),
        concat_blocks(bs.subrange(0, m)).subrange(0, content_offset(ks, n)) == concat_blocks(bs.subrange(0, n)),
    decreases m,
{
    if m == 0 {
        assert(concat_blocks(bs.subrange(0, 0)).len() == 0);
    } else {
        assert(bs.subrange(0, m).drop_last() =~= bs.subrange(0, m - 1));
        if n < m {
            lemma_concat_prefix(ks, bs, n, m - 1);
            let prev = concat_blocks(bs.subrange(0, m - 1));
            let cur = concat_blocks(bs.subrange(0, m));
            assert(cur == prev + bs[m - 1]);
            assert(cur.subrange(0, content_offset(ks, n)) =~= prev.subrange(0, content_offset(ks, n)));
        } else {
            lemma_concat_prefix(ks, bs, m - 1, m - 1);
            assert(concat_blocks(bs.subrange(0, m)) =~= concat_blocks(bs.subrange(0, m - 1)) + bs[m - 1]);
            assert(concat_blocks(bs.subrange(0, m)).subrange(0, content_offset(ks, n))
                =~= concat_blocks(bs.subrange(0, m)));
        }
    }
}

/// The agent can find every key's content without delimiters: where each
/// record's length equals its content's length, the content of record `j`
/// is the slice of the content stream that starts at the sum of the lengths
/// before it and is as long as record `j` says.
pub proof fn lemma_contents_demarcated(ks: Seq<AgentKey>, bs: Seq<Seq<u8>>, j: int)
    requires
        ks.len() == bs.len(),
        forall|i: int| 0 <= i < ks.len() ==> #[trigger] ks[i].length as int == bs[i].len(),
        0 <= j < ks.len(),
    ensures
        concat_blocks(bs).subrange(content_offset(ks, j), content_offset(ks, j) + ks[j].length) == bs[j],
{
    lemma_concat_prefix(ks, bs, j, j);
    lemma_concat_prefix(ks, bs, j + 1, bs.len() as int);
    assert(bs.subrange(0, j + 1).drop_last() =~= bs.subrange(0, j));
    assert(bs.subrange(0, bs.len() as int) =~= bs);
    let whole = concat_blocks(bs);
    let upto = concat_blocks(bs.subrange(0, j + 1));
    assert(upto == concat_blocks(bs.subrange(0, j)) + bs[j]);
    assert(whole.subrange(0, content_offset(ks, j + 1)) == upto);
    assert(whole.subrange(content_offset(ks, j), content_offset(ks, j) + ks[j].length)
        =~= upto.subrange(content_offset(ks, j), content_offset(ks, j + 1)));
    assert(upto.subrange(content_offset(ks, j), content_offset(ks, j + 1)) =~= bs[j]);
}

/// The arguments of a remote session for `user` at `host` that runs
/// `command`: a user other than root runs it through sudo.
pub open spec fn remote_args(user: Seq<char>, host: Seq<char>, command: Seq<Seq<char>>) -> Seq<Seq<char>> {
    let login = seq!["-l"@, user, host];
    let escalate = if user == "root"@ { seq![] } else { seq!["sudo"@, "-H"@, "--"@] };
    login + escalate + command
}

/// The arguments of the remote session that runs the agent found under
/// `agent_dir`, told that the metadata message is `message_len` bytes long.
pub open spec fn agent_args(user: Seq<char>, host: Seq<char>, agent_dir: Seq<char>, message_len: nat) -> Seq<Seq<char>> {
    remote_args(user, host, seq![agent_dir + "/bin/key_agent"@, decimal(message_len)])
}

/// The arguments passed to the remote shell to run `command` on `host` as
/// `user`.
pub fn remote_command(user: &str, host: &str, command: Vec<String>) -> (r: Vec<String>)
    ensures
        r@.map_values(|a: String| a@) == remote_args(
            user@,
            host@,
            command@.map_values(|a: String| a@),
        ),
{
    let ghost cmd = command@.map_values(|a: String| a@);
    let mut r: Vec<String> = Vec::new();
    r.push(String::from_str("-l"));
    r.push(String::from_str(user));
    r.push(String::from_str(host));
    let root = String::from_str("root");
    if !(String::from_str(user) == root) {
        r.push(String::from_str("sudo"));
        r.push(String::from_str("-H"));
        r.push(String::from_str("--"));
    }
    let ghost head = r@.map_values(|a: String| a@);
    let mut rest = command;
    r.append(&mut rest);
    assert(r@.map_values(|a: String| a@) =~= head + cmd);
    assert(r@.map_values(|a: String| a@) =~= remote_args(user@, host@, cmd));
    r
}

/// The arguments passed to the remote shell to start the key agent.
pub fn agent_command(user: &str, host: &str, agent_dir: &str, message_len: u64) -> (r: Vec<String>)
    ensures
        r@.map_values(|a: String| a@) == agent_args(user@, host@, agent_dir@, message_len as nat),
{
    let mut path = String::from_str(agent_dir);
    path.append("/bin/key_agent");
    let mut command: Vec<String> = Vec::new();
    command.push(path);
    command.push(decimal_string(message_len));
    assert(command@.map_values(|a: String| a@) =~= seq![agent_dir@ + "/bin/key_agent"@, decimal(message_len as nat)]);
    remote_command(user, host, command)
}

} // verus!
