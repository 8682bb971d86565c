//! Decisions of the process runner: how the command line is shown, how
//! output is bounded while it is drained, and what a finished run returns.

use vstd::prelude::*;
use vstd::string::StringExecFns;
use crate::text::{append_str, chars_of, decimal, decimal_chars, string_of, trim_end, trim_end_chars};

verus! {

/// The most bytes kept from either output stream.
pub const MAX_PCLI2_OUTPUT_BYTES: usize = 209715200;

/// How long one run may take, in seconds.
pub const PCLI2_TIMEOUT_SECS: u64 = 1800;

/// Characters that never need quoting on a shell command line.
pub open spec fn is_safe_char(c: char) -> bool {
    ('a' <= c && c <= 'z') || ('A' <= c && c <= 'Z') || ('0' <= c && c <= '9') || c == '_' || c
        == '-' || c == '.' || c == '/' || c == ':' || c == '='
}

/// The body of a single-quoted word: each `'` becomes `'"'"'`.
pub open spec fn quoted_body(s: Seq<char>) -> Seq<char>
    decreases s.len(),
{
    if s.len() == 0 {
        s
    } else if s.last() == '\'' {
        quoted_body(s.drop_last()) + "'\"'\"'"@
    } else {
        quoted_body(s.drop_last()).push(s.last())
    }
}

/// A word as a POSIX shell would read it back unchanged.
pub open spec fn shell_escaped(s: Seq<char>) -> Seq<char> {
    if s.len() == 0 {
        "''"@
    } else if forall|i: int| 0 <= i < s.len() ==> is_safe_char(#[trigger] s[i]) {
        s
    } else {
        seq!['\''] + quoted_body(s) + seq!['\'']
    }
}

/// The words, each escaped, separated by single spaces.
pub open spec fn command_line(args: Seq<Seq<char>>) -> Seq<char>
    decreases args.len(),
{
    if args.len() == 0 {
        Seq::empty()
    } else if args.len() == 1 {
        shell_escaped(args[0])
    } else {
        command_line(args.drop_last()) + seq![' '] + shell_escaped(args.last())
    }
}

fn safe_char(c: char) -> (r: bool)
    ensures
        r == is_safe_char(c),
{
    ('a' <= c && c <= 'z') || ('A' <= c && c <= 'Z') || ('0' <= c && c <= '9') || c == '_' || c
        == '-' || c == '.' || c == '/' || c == ':' || c == '='
}

fn escaped_chars(arg: &str) -> (r: Vec<char>)
    ensures
        r@ == shell_escaped(arg@),
{
    let cs = chars_of(arg);
    if cs.len() == 0 {
        return chars_of("''");
    }
    let mut safe = true;
    let mut i: usize = 0;
    while i < cs.len()
        invariant
            i <= cs@.len(),
            cs@ == arg@,
            safe == forall|j: int| 0 <= j < i ==> is_safe_char(#[trigger] cs@[j]),
        decreases cs@.len() - i,
    {
        if !safe_char(cs[i]) {
            safe = false;
        }
        i += 1;
    }
    if safe {
        return cs;
    }
    let mut out: Vec<char> = Vec::new();
    out.push('\'');
    let mut k: usize = 0;
    assert(cs@.subrange(0, 0) =~= Seq::<char>::empty());
    while k < cs.len()
        invariant
            k <= cs@.len(),
            cs@ == arg@,
            out@ == seq!['\''] + quoted_body(cs@.subrange(0, k as int)),
        decreases cs@.len() - k,
    {
        let c = cs[k];
        assert(cs@.subrange(0, k + 1).drop_last() =~= cs@.subrange(0, k as int));
        if c == '\'' {
            append_str(&mut out, "'\"'\"'");
        } else {
            out.push(c);
        }
        assert(out@ =~= seq!['\''] + quoted_body(cs@.subrange(0, k + 1)));
        k += 1;
    }
    assert(cs@.subrange(0, cs@.len() as int) =~= cs@);
    out.push('\'');
    out
}

/// `arg` quoted for a shell where it needs to be.
pub fn shell_escape_arg(arg: &str) -> (r: String)
    ensures
        r@ == shell_escaped(arg@),
{
    let cs = escaped_chars(arg);
    string_of(cs.as_slice())
}

/// The command line as it is logged: each word escaped, joined by spaces.
/// It is shown, never run.
pub fn render_command_line(args: &Vec<String>) -> (r: String)
    ensures
        r@ == command_line(args@.map_values(|s: String| s@)),
{
    let ghost w = args@.map_values(|s: String| s@);
    let mut out: Vec<char> = Vec::new();
    let mut i: usize = 0;
    while i < args.len()
        invariant
            i <= args@.len(),
            w == args@.map_values(|s: String| s@),
            out@ == command_line(w.subrange(0, i as int)),
        decreases args@.len() - i,
    {
        let ghost p = w.subrange(0, i + 1);
        assert(p.drop_last() =~= w.subrange(0, i as int));
        assert(p.last() == args@[i as int]@);
        if i > 0 {
            out.push(' ');
        } else {
            assert(p =~= seq![args@[0]@]);
        }
        let mut e = escaped_chars(args[i].as_str());
        out.append(&mut e);
        assert(i > 0 ==> out@ =~= command_line(p.drop_last()) + seq![' '] + shell_escaped(p.last()));
        i += 1;
    }
    assert(w.subrange(0, args@.len() as int) =~= w);
    string_of(out.as_slice())
}

/// The failure when a stream grows past its bound.
pub open spec fn overflow_message(label: Seq<char>, limit: nat) -> Seq<char> {
    "pcli2 "@ + label + " exceeded maximum output size of "@ + decimal(limit) + " bytes"@
}

/// Adds a chunk read from the stream `label` to `buf`, unless that would
/// take it past `limit` bytes: then the read fails and `buf` is left as it was.
pub fn accept_chunk(buf: &mut Vec<u8>, chunk: &[u8], limit: usize, label: &str) -> (r: Result<
    (),
    String,
>)
    ensures
        old(buf)@.len() + chunk@.len() <= limit ==> r is Ok && final(buf)@ == old(buf)@ + chunk@,
        old(buf)@.len() + chunk@.len() > limit ==> r is Err && r->Err_0@ == overflow_message(
            label@,
            limit as nat,
        ) && final(buf)@ == old(buf)@,
{
    if buf.len() > limit || chunk.len() > limit - buf.len() {
        let mut out: Vec<char> = Vec::new();
        append_str(&mut out, "pcli2 ");
        append_str(&mut out, label);
        append_str(&mut out, " exceeded maximum output size of ");
        let mut d = decimal_chars(limit as u64);
        out.append(&mut d);
        append_str(&mut out, " bytes");
        return Err(string_of(out.as_slice()));
    }
    let mut i: usize = 0;
    let ghost start = buf@;
    while i < chunk.len()
        invariant
            i <= chunk@.len(),
            buf@ == start + chunk@.subrange(0, i as int),
        decreases chunk@.len() - i,
    {
        buf.push(chunk[i]);
        assert(buf@ =~= start + chunk@.subrange(0, i + 1));
        i += 1;
    }
    assert(chunk@.subrange(0, chunk@.len() as int) =~= chunk@);
    Ok(())
}

/// All the bytes of `chunks`, in order.
pub open spec fn joined_chunks(chunks: Seq<Seq<u8>>) -> Seq<u8>
    decreases chunks.len(),
{
    if chunks.len() == 0 {
        Seq::empty()
    } else {
        joined_chunks(chunks.drop_last()) + chunks.last()
    }
}

/// What `accept_chunk`, called on each chunk in turn from an empty buffer,
/// leaves: the buffer, or `None` once a chunk has been refused.
pub open spec fn drained(chunks: Seq<Seq<u8>>, limit: nat) -> Option<Seq<u8>>
    decreases chunks.len(),
{
    if chunks.len() == 0 {
        Some(Seq::empty())
    } else {
        match drained(chunks.drop_last(), limit) {
            None => None,
            Some(buf) => if buf.len() + chunks.last().len() <= limit {
                Some(buf + chunks.last())
            } else {
                None
            },
        }
    }
}

/// Draining a stream through `accept_chunk`, whatever sizes its chunks come
/// in, yields all of its bytes when there are at most `limit` of them, and
/// fails with the overflow error (the chunk that crosses the bound is
/// refused) when there are more.
pub proof fn lemma_drain_is_bounded(chunks: Seq<Seq<u8>>, limit: nat)
    ensures
        joined_chunks(chunks).len() <= limit ==> drained(chunks, limit) == Some(joined_chunks(chunks)),
        joined_chunks(chunks).len() > limit ==> drained(chunks, limit) is None,
    decreases chunks.len(),
{
    if chunks.len() > 0 {
        lemma_drain_is_bounded(chunks.drop_last(), limit);
    }
}

/// The failure when a stream cannot be read.
pub fn read_failure(label: &str, err: &str) -> (r: String)
    ensures
        r@ == "Failed to read pcli2 "@ + label@ + ": "@ + err@,
{
    let mut out = String::new();
    out.append("Failed to read pcli2 ");
    out.append(label);
    out.append(": ");
    out.append(err);
    out
}

/// The failure when a run takes longer than its time limit.
pub fn timeout_failure(label: &str) -> (r: String)
    ensures
        r@ == label@ + " failed: timed out after "@ + decimal(PCLI2_TIMEOUT_SECS as nat) + "s"@,
{
    let mut out: Vec<char> = Vec::new();
    append_str(&mut out, label);
    append_str(&mut out, " failed: timed out after ");
    let mut d = decimal_chars(PCLI2_TIMEOUT_SECS);
    out.append(&mut d);
    append_str(&mut out, "s");
    string_of(out.as_slice())
}

/// The text of bytes read as UTF-8, each invalid sequence replaced by U+FFFD.
pub uninterp spec fn utf8_lossy(b: Seq<u8>) -> Seq<char>;

/// Relies on `String::from_utf8_lossy`: the text depends on the bytes alone,
/// and no bytes give no text.
#[verifier::external_body]
fn lossy_text(b: &[u8]) -> (r: Vec<char>)
    ensures
        r@ == utf8_lossy(b@),
        b@.len() == 0 ==> r@.len() == 0,
{
    String::from_utf8_lossy(b).chars().collect()
}

/// What a finished run returns: its output without trailing white space when
/// it succeeded, else a failure that carries the label, the exit status and
/// both streams.
pub fn command_outcome(label: &str, success: bool, status: &str, stdout: &[u8], stderr: &[u8]) -> (r:
    Result<String, String>)
    ensures
        success ==> r is Ok && r->Ok_0@ == trim_end(utf8_lossy(stdout@)),
        !success ==> r is Err && r->Err_0@ == label@ + " failed (code "@ + status@ + "):\n"@
            + trim_end(utf8_lossy(stdout@)) + "\n"@ + trim_end(utf8_lossy(stderr@)),
{
    let out_text = lossy_text(stdout);
    let mut out_trimmed = trim_end_chars(out_text.as_slice());
    if success {
        return Ok(string_of(out_trimmed.as_slice()));
    }
    let err_text = lossy_text(stderr);
    let mut err_trimmed = trim_end_chars(err_text.as_slice());
    let mut msg: Vec<char> = Vec::new();
    append_str(&mut msg, label);
    append_str(&mut msg, " failed (code ");
    append_str(&mut msg, status);
    append_str(&mut msg, "):\n");
    msg.append(&mut out_trimmed);
    append_str(&mut msg, "\n");
    msg.append(&mut err_trimmed);
    Err(string_of(msg.as_slice()))
}

} // verus!
