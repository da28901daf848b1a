//! Keys declared for a node: where their content comes from, when they are
//! uploaded, and the metadata record that describes each one to the agent.
use vstd::prelude::*;
use vstd::string::*;
use crate::text::{has_prefix, has_suffix, starts_with, ends_with};

verus! {

/// Why a key could not be prepared.
#[derive(Debug)]
pub enum Error {
    /// The key's file could not be read.
    File(String),
    /// The key's command could not be started or awaited.
    CommandSpawnError(String),
    /// The key's command exited unsuccessfully: its exit code (absent when a
    /// signal ended it) and its error output.
    CommandError(Option<i32>, String),
    /// The key's command list was empty.
    Empty,
    /// The permission string is not an octal number that fits in 32 bits.
    Permissions(String),
    /// The content is longer than the agent's length field can describe.
    TooLarge,
}

/// Where a key's content comes from.
#[derive(Debug)]
pub enum Source {
    /// Inline literal text.
    String(String),
    /// A local file, read whole.
    Path(String),
    /// A program and its arguments; its standard output is the content.
    Command(Vec<String>),
}

/// The upload phase of a key, or the phase a push is requested for.
#[derive(Clone, Copy, Debug, PartialEq, Eq, Hash, Structural)]
pub enum UploadKeyAt {
    PreActivation,
    PostActivation,
    All,
}

/// A key declared in a node's configuration.
#[derive(Debug)]
pub struct Key {
    pub name: String,
    pub dest_dir: String,
    pub path: String,
    pub group: String,
    pub user: String,
    pub permissions: String,
    pub source: Source,
    pub upload_at: UploadKeyAt,
}

/// The metadata record sent to the agent for one key.
#[derive(Debug)]
pub struct AgentKey {
    pub length: i32,
    pub user: String,
    pub group: String,
    pub permissions: u32,
    pub destination: String,
}

/// A key with upload phase `phase` is pushed by a push requested for
/// `target`: a push for every phase takes every key, and a key for every
/// phase goes with every push.
pub open spec fn uploads_at(phase: UploadKeyAt, target: UploadKeyAt) -> bool {
    target == UploadKeyAt::All || phase == UploadKeyAt::All || phase == target
}

/// Whether a key with upload phase `phase` belongs to a push for `target`.
pub fn should_upload(phase: UploadKeyAt, target: UploadKeyAt) -> (r: bool)
    ensures
        r == uploads_at(phase, target),
{
    target == UploadKeyAt::All || phase == UploadKeyAt::All || phase == target
}

/// The indices, in order, of the keys among the first `n` that a push for
/// `target` takes.
pub open spec fn selected_keys(keys: Seq<Key>, target: UploadKeyAt, n: int) -> Seq<usize>
    decreases n,
{
    if n <= 0 {
        seq![]
    } else if uploads_at(keys[n - 1].upload_at, target) {
        selected_keys(keys, target, n - 1).push((n - 1) as usize)
    } else {
        selected_keys(keys, target, n - 1)
    }
}

/// The indices of the keys that a push requested for `target` transmits,
/// in declaration order.
pub fn keys_for_upload(keys: &Vec<Key>, target: UploadKeyAt) -> (r: Vec<usize>)
    ensures
        r@ == selected_keys(keys@, target, keys@.len() as int),
{
    let mut r: Vec<usize> = Vec::new();
    let mut i: usize = 0;
    while i < keys.len()
        invariant
            i <= keys@.len(),
            r@ == selected_keys(keys@, target, i as int),
        decreases keys@.len() - i,
    {
        if should_upload(keys[i].upload_at, target) {
            r.push(i);
        }
        i = i + 1;
    }
    r
}

/// The value of an octal digit character.
pub open spec fn octal_digit(c: char) -> int {
    c as int - '0' as int
}

/// Whether every character of `s` is an octal digit, and there is one.
pub open spec fn is_octal(s: Seq<char>) -> bool {
    s.len() > 0 && forall|i: int| 0 <= i < s.len() ==> '0' <= #[trigger] s[i] <= '7'
}

/// The number that the octal digits `s` denote.
pub open spec fn octal_value(s: Seq<char>) -> int
    decreases s.len(),
{
    if s.len() == 0 {
        0
    } else {
        octal_value(s.drop_last()) * 8 + octal_digit(s.last())
    }
}

/// The permission bits that `s` denotes, when it is an octal number that
/// fits in 32 bits.
pub open spec fn permission_bits(s: Seq<char>) -> Option<u32> {
    if is_octal(s) && octal_value(s) <= u32::MAX {
        Some(octal_value(s) as u32)
    } else {
        None
    }
}

proof fn lemma_octal_monotone(s: Seq<char>, i: int, j: int)
    requires
        0 <= i <= j <= s.len(),
        forall|k: int| 0 <= k < s.len() ==> '0' <= #[trigger] s[k] <= '7',
    ensures
        0 <= octal_value(s.subrange(0, i)) <= octal_value(s.subrange(0, j)),
    decreases j,
{
    if j > 0 {
        assert(s.subrange(0, j).drop_last() =~= s.subrange(0, j - 1));
        if i < j {
            lemma_octal_monotone(s, i, j - 1);
        } else {
            lemma_octal_monotone(s, j - 1, j - 1);
        }
    } else {
        assert(s.subrange(0, 0).len() == 0);
    }
}

/// Decodes a permission string written in octal ("0644" is 420).
pub fn parse_permissions(s: &str) -> (r: Option<u32>)
    ensures
        r == permission_bits(s@),
{
    let n = s.unicode_len();
    if n == 0 {
        return None;
    }
    let mut val: u64 = 0;
    let mut i: usize = 0;
    while i < n
        invariant
            n == s@.len(),
            i <= n,
            val <= u32::MAX,
            val == octal_value(s@.subrange(0, i as int)),
            forall|k: int| 0 <= k < i ==> '0' <= #[trigger] s@[k] <= '7',
        decreases n - i,
    {
        let c = s.get_char(i);
        assert(s@.subrange(0, i + 1).drop_last() =~= s@.subrange(0, i as int));
        if c < '0' || c > '7' {
            assert(!is_octal(s@));
            return None;
        }
        let d = (c as u32 - '0' as u32) as u64;
        val = val * 8 + d;
        if val > u32::MAX as u64 {
            proof {
                let sv = s@;
                if is_octal(sv) {
                    lemma_octal_monotone(sv, i + 1, n as int);
                    assert(sv.subrange(0, n as int) =~= sv);
                }
            }
            return None;
        }
        i = i + 1;
    }
    assert(s@.subrange(0, n as int) =~= s@);
    Some(val as u32)
}

/// The path of `name` inside directory `dir`: a name that is itself absolute
/// stands alone, and no separator is doubled or added after an empty directory.
pub open spec fn join_path(dir: Seq<char>, name: Seq<char>) -> Seq<char> {
    if has_prefix(name, seq!['/']) || dir.len() == 0 {
        name
    } else if has_suffix(dir, seq!['/']) {
        dir + name
    } else {
        dir + seq!['/'] + name
    }
}

/// Where a key named `name` is written on the host.
pub fn destination(dir: &str, name: &str) -> (r: String)
    ensures
        r@ == join_path(dir@, name@),
{
    proof {
        reveal_strlit("/");
        assert("/"@ =~= seq!['/']);
    }
    if starts_with(name, "/") || dir.unicode_len() == 0 {
        return String::from_str(name);
    }
    let mut r = String::from_str(dir);
    if !ends_with(dir, "/") {
        r.append("/");
    }
    r.append(name);
    assert(r@ =~= join_path(dir@, name@));
    r
}

/// The content of a key given as literal text: its UTF-8 bytes.
pub fn literal_content(s: &str) -> (r: Vec<u8>)
    ensures
        r@ == s.spec_bytes(),
{
    s.as_bytes_vec()
}

/// Splits a key's command list into the program and its arguments.
pub fn command_parts(args: &Vec<String>) -> (r: Result<(String, Vec<String>), Error>)
    ensures
        args@.len() == 0 <==> r is Err,
        r is Err ==> r->Err_0 is Empty,
        (r matches Ok((p, rest)) ==> p@ == args@[0]@ && rest@.len() == args@.len() - 1
            && forall|i: int| 0 <= i < rest@.len() ==> #[trigger] rest@[i]@ == args@[i + 1]@),
{
    if args.len() == 0 {
        return Err(Error::Empty);
    }
    let program = args[0].clone();
    let mut rest: Vec<String> = Vec::new();
    let mut i: usize = 1;
    while i < args.len()
        invariant
            1 <= i <= args@.len(),
            rest@.len() == i - 1,
            forall|k: int| 0 <= k < rest@.len() ==> #[trigger] rest@[k]@ == args@[k + 1]@,
        decreases args@.len() - i,
    {
        rest.push(args[i].clone());
        i = i + 1;
    }
    Ok((program, rest))
}

/// The content of a key whose command has run: its standard output when it
/// succeeded, else an error with its exit code and error output.
pub fn command_content(success: bool, code: Option<i32>, stdout: Vec<u8>, stderr: String) -> (r: Result<Vec<u8>, Error>)
    ensures
        success ==> r == Ok::<Vec<u8>, Error>(stdout),
        !success ==> (r matches Err(Error::CommandError(c, e)) && c == code && e@ == stderr@),
{
    if success {
        Ok(stdout)
    } else {
        Err(Error::CommandError(code, stderr))
    }
}

/// Whether `content` and `key` give the metadata record `k`.
pub open spec fn describes(k: AgentKey, name: Seq<char>, key: Key, content: Seq<u8>) -> bool {
    &&& k.length as int == content.len()
    &&& k.user@ == key.user@
    &&& k.group@ == key.group@
    &&& Some(k.permissions) == permission_bits(key.permissions@)
    &&& k.destination@ == join_path(key.dest_dir@, name)
}

/// Builds the metadata record of the key `key`, named `name`, whose content
/// is `content`, and hands the content back beside it.
pub fn process_key(name: &str, key: &Key, content: Vec<u8>) -> (r: Result<(AgentKey, Vec<u8>), Error>)
    ensures
        r is Ok <==> (permission_bits(key.permissions@) is Some && content@.len() <= i32::MAX),
        permission_bits(key.permissions@) is None ==> (r matches Err(Error::Permissions(p)) && p@ == key.permissions@),
        permission_bits(key.permissions@) is Some && content@.len() > i32::MAX ==> (r matches Err(Error::TooLarge)),
        (r matches Ok((k, c)) ==> c@ == content@ && describes(k, name@, *key, content@)),
{
    let permissions = match parse_permissions(key.permissions.as_str()) {
        Some(p) => p,
        None => {
            return Err(Error::Permissions(key.permissions.clone()));
        },
    };
    if content.len() > i32::MAX as usize {
        return Err(Error::TooLarge);
    }
    let k = AgentKey {
        length: content.len() as i32,
        user: key.user.clone(),
        group: key.group.clone(),
        permissions,
        destination: destination(key.dest_dir.as_str(), name),
    };
    Ok((k, content))
}

} // verus!
