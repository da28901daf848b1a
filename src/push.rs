//! Pushing a node's keys: which keys go, the metadata and payload sent to
//! the agent, and what the agent's exit means.
use vstd::prelude::*;
use vstd::string::*;
use crate::agent::{agent_args, agent_command, concat_blocks, encode_keys, frame_payload, keys_message};
use crate::error::HiveLibError;
use crate::key::{self, AgentKey, Key, UploadKeyAt, describes, keys_for_upload, permission_bits, process_key, selected_keys};
use crate::select::Node;
use crate::text::substring;

verus! {

/// Everything the remote session for a push needs.
#[derive(Debug)]
pub struct KeyPush {
    /// The metadata records, in the order of the keys pushed.
    pub keys: Vec<AgentKey>,
    /// The arguments of the remote shell.
    pub args: Vec<String>,
    /// What is written to the agent's input.
    pub payload: Vec<u8>,
}

/// Whether a key can be sent, given how reading its content went.
pub open spec fn key_ok(key: Key, content: Result<Vec<u8>, key::Error>) -> bool {
    &&& content is Ok
    &&& permission_bits(key.permissions@) is Some
    &&& content->Ok_0@.len() <= i32::MAX
}

/// Whether `err` is the error of a key that cannot be sent: the error met
/// reading its content, else its unparsable permissions, else its excess
/// length.
pub open spec fn key_failure(key: Key, content: Result<Vec<u8>, key::Error>, err: key::Error) -> bool {
    match content {
        Err(e) => err == e,
        Ok(_) => if permission_bits(key.permissions@) is None {
            err matches key::Error::Permissions(p) && p@ == key.permissions@
        } else {
            err is TooLarge
        },
    }
}

/// Whether the `f`-th key that a push takes, the keys at `sel`, is the
/// first that cannot be sent.
pub open spec fn fails_first(keys: Seq<Key>, sel: Seq<usize>, contents: Seq<Result<Vec<u8>, key::Error>>, f: int) -> bool {
    &&& 0 <= f < sel.len()
    &&& forall|j: int| 0 <= j < f ==> key_ok(#[trigger] keys[sel[j] as int], contents[j])
    &&& !key_ok(keys[sel[f] as int], contents[f])
}

/// The contents of the pushed keys, in order.
pub open spec fn content_blocks(contents: Seq<Result<Vec<u8>, key::Error>>) -> Seq<Seq<u8>> {
    contents.map_values(|c: Result<Vec<u8>, key::Error>| c->Ok_0@)
}

/// What a push of `node`'s keys for `target` yields, given how reading
/// their contents went: success exactly when every key it takes can be sent,
/// with their metadata records in order, the payload that frames them and
/// the agent's arguments; else the error of the first key that cannot.
pub open spec fn push_outcome(
    node: Node,
    target: UploadKeyAt,
    agent_dir: Seq<char>,
    contents: Seq<Result<Vec<u8>, key::Error>>,
    r: Result<KeyPush, HiveLibError>,
) -> bool {
    let sel = selected_keys(node.keys@, target, node.keys@.len() as int);
    &&& r is Ok <==> forall|j: int| 0 <= j < sel.len() ==> key_ok(#[trigger] node.keys@[sel[j] as int], contents[j])
    &&& r matches Err(e) ==> (e matches HiveLibError::KeyError(ke) && exists|f: int|
        #[trigger] fails_first(node.keys@, sel, contents, f)
        && key_failure(node.keys@[sel[f] as int], contents[f], ke))
    &&& r matches Ok(p) ==> {
        &&& p.keys@.len() == sel.len()
        &&& forall|j: int| 0 <= j < sel.len() ==> describes(
            #[trigger] p.keys@[j],
            node.keys@[sel[j] as int].name@,
            node.keys@[sel[j] as int],
            contents[j]->Ok_0@,
        )
        &&& p.payload@ == keys_message(p.keys@) + concat_blocks(content_blocks(contents))
        &&& p.args@.map_values(|a: String| a@) == agent_args(
            node.user@,
            node.host@,
            agent_dir,
            keys_message(p.keys@).len(),
        )
    }
}

/// Prepares a push of `node`'s keys for the phase `target`.
pub trait PushKeys {
    /// How many keys a push for `target` takes.
    spec fn keys_taken(&self, target: UploadKeyAt) -> nat;

    /// Whether `r` is what a push for `target` yields, given how reading
    /// the keys' contents went.
    spec fn pushed(
        &self,
        target: UploadKeyAt,
        agent_dir: Seq<char>,
        contents: Seq<Result<Vec<u8>, key::Error>>,
        r: Result<KeyPush, HiveLibError>,
    ) -> bool;

    /// `contents[j]` is how reading the content of the `j`-th key that the
    /// push takes went; `agent_dir` is where the agent was copied to on the
    /// host.
    fn push_keys(&self, target: UploadKeyAt, agent_dir: &str, contents: Vec<Result<Vec<u8>, key::Error>>) -> (r: Result<KeyPush, HiveLibError>)
        requires
            contents@.len() == self.keys_taken(target),
        ensures
            self.pushed(target, agent_dir@, contents@, r),
    ;
}

/// Prepares the push of the keys of `node` that a push for `target` takes:
/// their metadata records, the agent's arguments and its input. It fails on
/// the first key, in order, whose content could not be read, whose
/// permissions do not parse, or whose content is too long.
pub fn prepare_push(node: &Node, target: UploadKeyAt, agent_dir: &str, contents: Vec<Result<Vec<u8>, key::Error>>) -> (r: Result<KeyPush, HiveLibError>)
    requires
        contents@.len() == selected_keys(node.keys@, target, node.keys@.len() as int).len(),
    ensures
        push_outcome(*node, target, agent_dir@, contents@, r),
{
    let sel = keys_for_upload(&node.keys, target);
    let ghost sels = sel@;
    let _nk = node.keys.len();
    proof {
        lemma_selected_keys_in_range(node.keys@, target, node.keys@.len() as int);
    }
    let ghost all = contents@;
    let mut rest = contents;
    let mut keys: Vec<AgentKey> = Vec::new();
    let mut blocks: Vec<Vec<u8>> = Vec::new();
    let mut j: usize = 0;
    while j < sel.len()
        invariant
            sel@ == sels,
            sels == selected_keys(node.keys@, target, node.keys@.len() as int),
            all == contents@,
            all.len() == sels.len(),
            j <= sels.len(),
            rest@ == all.subrange(j as int, all.len() as int),
            keys@.len() == j,
            blocks@.map_values(|b: Vec<u8>| b@) == content_blocks(all).subrange(0, j as int),
            forall|i: int| 0 <= i < sels.len() ==> 0 <= #[trigger] sels[i] < node.keys@.len(),
            forall|i: int| 0 <= i < j ==> key_ok(#[trigger] node.keys@[sels[i] as int], all[i]),
            forall|i: int| 0 <= i < j ==> describes(
                #[trigger] keys@[i],
                node.keys@[sels[i] as int].name@,
                node.keys@[sels[i] as int],
                all[i]->Ok_0@,
            ),
        decreases sels.len() - j,
    {
        let key = &node.keys[sel[j]];
        let first = rest.remove(0);
        assert(first == all[j as int]);
        let content = match first {
            Ok(c) => c,
            Err(e) => {
                assert(key_failure(node.keys@[sels[j as int] as int], all[j as int], e));
                assert(!key_ok(node.keys@[sels[j as int] as int], all[j as int]));
                assert(fails_first(node.keys@, sels, all, j as int));
                return Err(HiveLibError::KeyError(e));
            },
        };
        assert(content@ == content_blocks(all)[j as int]);
        let ghost before = blocks@.map_values(|b: Vec<u8>| b@);
        match process_key(key.name.as_str(), key, content) {
            Ok((k, c)) => {
                keys.push(k);
                blocks.push(c);
            },
            Err(e) => {
                assert(key_failure(node.keys@[sels[j as int] as int], all[j as int], e));
                assert(!key_ok(node.keys@[sels[j as int] as int], all[j as int]));
                assert(fails_first(node.keys@, sels, all, j as int));
                return Err(HiveLibError::KeyError(e));
            },
        }
        assert(blocks@.map_values(|b: Vec<u8>| b@) =~= before.push(content_blocks(all)[j as int]));
        assert(blocks@.map_values(|b: Vec<u8>| b@) =~= content_blocks(all).subrange(0, j + 1));
        j = j + 1;
    }
    assert(blocks@.map_values(|b: Vec<u8>| b@) =~= content_blocks(all));
    let message = encode_keys(&keys);
    let args = agent_command(node.user.as_str(), node.host.as_str(), agent_dir, message.len() as u64);
    let payload = frame_payload(message, blocks);
    Ok(KeyPush { keys, args, payload })
}

proof fn lemma_selected_keys_in_range(keys: Seq<Key>, target: UploadKeyAt, n: int)
    requires
        0 <= n <= keys.len(),
        keys.len() <= usize::MAX,
    ensures
        forall|i: int| 0 <= i < selected_keys(keys, target, n).len()
            ==> 0 <= #[trigger] selected_keys(keys, target, n)[i] < n,
    decreases n,
{
    if n > 0 {
        lemma_selected_keys_in_range(keys, target, n - 1);
        let prev = selected_keys(keys, target, n - 1);
        let cur = selected_keys(keys, target, n);
        assert forall|i: int| 0 <= i < cur.len() implies 0 <= #[trigger] cur[i] < n by {
            if i < prev.len() {
                assert(cur[i] == prev[i]);
            }
        }
    }
}

impl PushKeys for Node {
    open spec fn keys_taken(&self, target: UploadKeyAt) -> nat {
        selected_keys(self.keys@, target, self.keys@.len() as int).len()
    }

    open spec fn pushed(
        &self,
        target: UploadKeyAt,
        agent_dir: Seq<char>,
        contents: Seq<Result<Vec<u8>, key::Error>>,
        r: Result<KeyPush, HiveLibError>,
    ) -> bool {
        push_outcome(*self, target, agent_dir, contents, r)
    }

    fn push_keys(&self, target: UploadKeyAt, agent_dir: &str, contents: Vec<Result<Vec<u8>, key::Error>>) -> (r: Result<KeyPush, HiveLibError>)
        ensures
            push_outcome(*self, target, agent_dir@, contents@, r),
    {
        prepare_push(self, target, agent_dir, contents)
    }
}

/// The pieces of `s` between newlines, from `start`, scanning from `i`.
pub open spec fn pieces_from(s: Seq<char>, start: int, i: int) -> Seq<Seq<char>>
    decreases s.len() - i,
{
    if i >= s.len() || i < start || start < 0 {
        seq![s.subrange(start, s.len() as int)]
    } else if s[i] == '\n' {
        seq![s.subrange(start, i)] + pieces_from(s, i + 1, i + 1)
    } else {
        pieces_from(s, start, i + 1)
    }
}

/// The pieces of `s` between newlines; text after the last newline, empty or
/// not, is the last piece.
pub open spec fn split_newlines(s: Seq<char>) -> Seq<Seq<char>> {
    pieces_from(s, 0, 0)
}

/// Splits `s` at every newline.
pub fn split_lines(s: &str) -> (r: Vec<String>)
    ensures
        r@.map_values(|l: String| l@) == split_newlines(s@),
{
    let n = s.unicode_len();
    let mut r: Vec<String> = Vec::new();
    let mut start: usize = 0;
    let mut i: usize = 0;
    while i < n
        invariant
            n == s@.len(),
            start <= i <= n,
            r@.map_values(|l: String| l@) + pieces_from(s@, start as int, i as int) == split_newlines(s@),
        decreases n - i,
    {
        if s.get_char(i) == '\n' {
            let piece = substring(s, start, i);
            let ghost before = r@.map_values(|l: String| l@);
            r.push(piece);
            assert(r@.map_values(|l: String| l@) =~= before.push(piece@));
            assert(before + pieces_from(s@, start as int, i as int)
                =~= r@.map_values(|l: String| l@) + pieces_from(s@, i + 1, i + 1));
            start = i + 1;
        }
        i = i + 1;
    }
    let piece = substring(s, start, n);
    let ghost before = r@.map_values(|l: String| l@);
    r.push(piece);
    assert(r@.map_values(|l: String| l@) =~= before + pieces_from(s@, start as int, n as int));
    r
}

/// What the agent's exit on node `name` means: success, or a failure that
/// carries its error output line by line.
pub fn agent_outcome(name: &str, success: bool, stderr: &str) -> (r: Result<(), HiveLibError>)
    ensures
        success <==> r is Ok,
        !success ==> (r matches Err(HiveLibError::KeyCommandError(n, lines))
            && n@ == name@ && lines@.map_values(|l: String| l@) == split_newlines(stderr@)),
{
    if success {
        Ok(())
    } else {
        Err(HiveLibError::KeyCommandError(String::from_str(name), split_lines(stderr)))
    }
}

} // verus!
