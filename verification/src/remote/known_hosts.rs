//! Trust on first use for SSH host keys: the known-hosts file, the
//! decision taken on a server's key, and the reading of the error a
//! refused key leaves behind.

use vstd::prelude::*;
use crate::fs::ops::sha256_hex;
use crate::remote::sftp::{known_host_line, SftpError};
use crate::text::{
    chars_of, concat, find_text, index_of_text, occurs_at, decimal, index_of_char, lemma_index_of_char, lemma_index_of_char_bound, string_from_chars,
    u64_to_decimal,
};

verus! {

/// White space in the sense of `char::is_whitespace`: the characters with
/// the Unicode `White_Space` property.
pub open spec fn is_space(c: char) -> bool {
    ||| '\t' <= c && c <= '\r'
    ||| c == ' '
    ||| c == '\u{85}'
    ||| c == '\u{A0}'
    ||| c == '\u{1680}'
    ||| '\u{2000}' <= c && c <= '\u{200A}'
    ||| c == '\u{2028}'
    ||| c == '\u{2029}'
    ||| c == '\u{202F}'
    ||| c == '\u{205F}'
    ||| c == '\u{3000}'
}

fn space(c: char) -> (b: bool)
    ensures
        b == is_space(c),
{
    ('\t' <= c && c <= '\r') || c == ' ' || c == '\u{85}' || c == '\u{A0}' || c == '\u{1680}' || ('\u{2000}' <= c
        && c <= '\u{200A}') || c == '\u{2028}' || c == '\u{2029}' || c == '\u{202F}' || c == '\u{205F}' || c
        == '\u{3000}'
}

/// `s` without its leading white space.
pub open spec fn trim_start(s: Seq<char>) -> Seq<char>
    decreases s.len(),
{
    if s.len() > 0 && is_space(s[0]) {
        trim_start(s.drop_first())
    } else {
        s
    }
}

/// `s` without its trailing white space.
pub open spec fn trim_end(s: Seq<char>) -> Seq<char>
    decreases s.len(),
{
    if s.len() > 0 && is_space(s.last()) {
        trim_end(s.drop_last())
    } else {
        s
    }
}

/// `s` without leading and trailing white space (`str::trim`).
pub open spec fn trimmed(s: Seq<char>) -> Seq<char> {
    trim_end(trim_start(s))
}

proof fn lemma_trim_start(s: Seq<char>, i: int)
    requires
        0 <= i <= s.len(),
        forall|k: int| 0 <= k < i ==> is_space(#[trigger] s[k]),
        i == s.len() || !is_space(s[i]),
    ensures
        trim_start(s) == s.skip(i),
    decreases i,
{
    if i == 0 {
        assert(s.skip(0) =~= s);
    } else {
        let t = s.drop_first();
        assert forall|k: int| 0 <= k < i - 1 implies is_space(#[trigger] t[k]) by {
            assert(t[k] == s[k + 1]);
        }
        lemma_trim_start(t, i - 1);
        assert(t.skip(i - 1) =~= s.skip(i));
    }
}

proof fn lemma_trim_end(s: Seq<char>, j: int)
    requires
        0 <= j <= s.len(),
        forall|k: int| j <= k < s.len() ==> is_space(#[trigger] s[k]),
        j == 0 || !is_space(s[j - 1]),
    ensures
        trim_end(s) == s.take(j),
    decreases s.len() - j,
{
    if j == s.len() {
        assert(s.take(j) =~= s);
    } else {
        let t = s.drop_last();
        assert forall|k: int| j <= k < t.len() implies is_space(#[trigger] t[k]) by {
            assert(t[k] == s[k]);
        }
        lemma_trim_end(t, j);
        assert(t.take(j) =~= s.take(j));
    }
}

/// The characters `cs[from..to]` without leading and trailing white space.
fn trim_range(cs: &Vec<char>, from: usize, to: usize) -> (r: Vec<char>)
    requires
        from <= to <= cs@.len(),
    ensures
        r@ == trimmed(cs@.subrange(from as int, to as int)),
{
    let ghost s = cs@.subrange(from as int, to as int);
    let mut i = from;
    while i < to && space(cs[i])
        invariant
            from <= i <= to <= cs@.len(),
            s == cs@.subrange(from as int, to as int),
            forall|k: int| from <= k < i ==> is_space(#[trigger] cs@[k]),
        decreases to - i,
    {
        i = i + 1;
    }
    proof {
        assert forall|k: int| 0 <= k < i - from implies is_space(#[trigger] s[k]) by {
            assert(s[k] == cs@[from + k]);
        }
        if i < to {
            assert(s[i - from] == cs@[i as int]);
        }
        lemma_trim_start(s, i - from);
    }
    let mut j = to;
    while j > i && space(cs[j - 1])
        invariant
            from <= i <= j <= to <= cs@.len(),
            forall|k: int| j <= k < to ==> is_space(#[trigger] cs@[k]),
        decreases j - i,
    {
        j = j - 1;
    }
    let ghost t = s.skip(i - from);
    proof {
        assert(t =~= cs@.subrange(i as int, to as int));
        assert forall|k: int| j - i <= k < t.len() implies is_space(#[trigger] t[k]) by {
            assert(t[k] == cs@[i + k]);
        }
        if j > i {
            assert(t[j - i - 1] == cs@[j - 1]);
        }
        lemma_trim_end(t, j - i);
    }
    let mut r: Vec<char> = Vec::new();
    let mut k = i;
    while k < j
        invariant
            i <= k <= j <= cs@.len(),
            r@ == cs@.subrange(i as int, k as int),
        decreases j - k,
    {
        r.push(cs[k]);
        k = k + 1;
        proof {
            assert(r@ =~= cs@.subrange(i as int, k as int));
        }
    }
    proof {
        assert(t.take(j - i) =~= cs@.subrange(i as int, j as int));
    }
    r
}

/// The fingerprint a known-hosts line (trimmed) records for `key`: blank
/// lines and `#` comments record nothing; otherwise the text before the
/// first space must be `key`, and the rest is the fingerprint.
pub open spec fn line_fingerprint(line: Seq<char>, key: Seq<char>) -> Option<Seq<char>> {
    if line.len() == 0 || line[0] == '#' {
        None
    } else {
        match index_of_char(line, ' ') {
            Some(i) => if line.take(i as int) == key {
                Some(line.skip(i as int + 1))
            } else {
                None
            },
            None => None,
        }
    }
}

/// The fingerprint that the first line of `text` recording `key` holds.
pub open spec fn stored_fingerprint(text: Seq<char>, key: Seq<char>) -> Option<Seq<char>>
    decreases text.len(),
{
    proof {
        lemma_index_of_char_bound(text, '\n');
    }
    match index_of_char(text, '\n') {
        None => line_fingerprint(trimmed(text), key),
        Some(i) => match line_fingerprint(trimmed(text.take(i as int)), key) {
            Some(f) => Some(f),
            None => stored_fingerprint(text.skip(i as int + 1), key),
        },
    }
}

/// How a host is named in the known-hosts file: `host:port`.
pub open spec fn host_key(host: Seq<char>, port: u16) -> Seq<char> {
    host + ":"@ + decimal(port as nat)
}

/// Reads the fingerprint of a (trimmed) line.
fn fingerprint_in(line: &Vec<char>, key: &Vec<char>) -> (r: Option<String>)
    ensures
        r is None <==> line_fingerprint(line@, key@) is None,
        r matches Some(f) ==> line_fingerprint(line@, key@) == Some(f@),
{
    if line.len() == 0 || line[0] == '#' {
        return None;
    }
    let mut i: usize = 0;
    while i < line.len() && line[i] != ' '
        invariant
            i <= line@.len(),
            forall|j: int| 0 <= j < i ==> #[trigger] line@[j] != ' ',
        decreases line.len() - i,
    {
        i = i + 1;
    }
    proof {
        lemma_index_of_char(line@, ' ', i as int);
    }
    if i == line.len() {
        return None;
    }
    if i != key.len() {
        proof {
            assert(line@.take(i as int).len() != key@.len());
        }
        return None;
    }
    let mut k: usize = 0;
    while k < i
        invariant
            k <= i,
            i == key@.len(),
            i < line@.len(),
            line@.len() > 0 && line@[0] != '#',
            index_of_char(line@, ' ') == Some(i as nat),
            forall|j: int| 0 <= j < k ==> line@[j] == key@[j],
        decreases i - k,
    {
        if line[k] != key[k] {
            proof {
                assert(line@.take(i as int)[k as int] != key@[k as int]);
            }
            return None;
        }
        k = k + 1;
    }
    proof {
        assert(line@.take(i as int) =~= key@);
    }
    let mut f: Vec<char> = Vec::new();
    let mut m = i + 1;
    while m < line.len()
        invariant
            i + 1 <= m <= line@.len(),
            f@ == line@.subrange(i + 1, m as int),
        decreases line.len() - m,
    {
        f.push(line[m]);
        m = m + 1;
        proof {
            assert(f@ =~= line@.subrange(i + 1, m as int));
        }
    }
    proof {
        assert(line@.skip(i + 1) =~= line@.subrange(i + 1, line@.len() as int));
    }
    Some(string_from_chars(f.as_slice()))
}

/// The end of the line that starts at `start`: the next newline, or the
/// end of the text.
fn line_end(cs: &Vec<char>, start: usize) -> (e: usize)
    requires
        start <= cs@.len(),
    ensures
        start <= e <= cs@.len(),
        index_of_char(cs@.skip(start as int), '\n') == if e == cs@.len() {
            None
        } else {
            Some((e - start) as nat)
        },
{
    let mut e = start;
    while e < cs.len() && cs[e] != '\n'
        invariant
            start <= e <= cs@.len(),
            forall|j: int| start <= j < e ==> #[trigger] cs@[j] != '\n',
        decreases cs.len() - e,
    {
        e = e + 1;
    }
    let ghost rest = cs@.skip(start as int);
    proof {
        assert forall|j: int| 0 <= j < e - start implies #[trigger] rest[j] != '\n' by {
            assert(rest[j] == cs@[start + j]);
        }
        if e < cs.len() {
            assert(rest[e - start] == cs@[e as int]);
        }
        lemma_index_of_char(rest, '\n', e - start);
    }
    e
}

/// Finds the fingerprint the known-hosts file `content` stores for
/// `host:port`: the first line, trimmed, that is neither blank nor a `#`
/// comment and whose text before the first space is `host:port`.
pub fn read_known_host(content: &str, host: &str, port: u16) -> (r: Option<String>)
    ensures
        r is None <==> stored_fingerprint(content@, host_key(host@, port)) is None,
        r matches Some(f) ==> stored_fingerprint(content@, host_key(host@, port)) == Some(f@),
{
    let cs = chars_of(content);
    let mut key = chars_of(host);
    key.push(':');
    let mut digits = u64_to_decimal(port as u64);
    key.append(&mut digits);
    let ghost k = host_key(host@, port);
    proof {
        reveal_strlit(":");
        assert(key@ =~= k);
    }
    let mut start: usize = 0;
    proof {
        assert(cs@.skip(0) =~= cs@);
    }
    while start <= cs.len()
        invariant
            start <= cs@.len(),
            cs@ == content@,
            k == host_key(host@, port),
            key@ == k,
            stored_fingerprint(content@, k) == stored_fingerprint(cs@.skip(start as int), k),
        decreases cs.len() + 1 - start,
    {
        let ghost rest = cs@.skip(start as int);
        let e = line_end(&cs, start);
        let line = trim_range(&cs, start, e);
        let found = fingerprint_in(&line, &key);
        proof {
            if e < cs.len() {
                assert(rest.take(e - start) =~= cs@.subrange(start as int, e as int));
                assert(rest.skip(e - start + 1) =~= cs@.skip(e + 1));
                assert(stored_fingerprint(rest, k) == match line_fingerprint(trimmed(rest.take(e - start)), k) {
                    Some(f) => Some(f),
                    None => stored_fingerprint(rest.skip(e - start + 1), k),
                });
            } else {
                assert(rest =~= cs@.subrange(start as int, e as int));
                assert(stored_fingerprint(rest, k) == line_fingerprint(trimmed(rest), k));
            }
        }
        if found.is_some() || e >= cs.len() {
            return found;
        }
        start = e + 1;
    }
    None
}

/// The fingerprint of a server key, from the text that represents the key:
/// `SHA256:` and the lower-case hex SHA-256 digest of its UTF-8 bytes.
pub open spec fn fingerprint_text(key_repr: Seq<char>) -> Seq<char> {
    "SHA256:"@ + sha256_hex(vstd::utf8::encode_utf8(key_repr))
}

/// Computes the SHA-256 fingerprint of a public key, given its text
/// representation.
pub fn compute_fingerprint(key_repr: &str) -> (r: String)
    ensures
        r@ == fingerprint_text(key_repr@),
{
    let digest = crate::fs::ops::content_digest(key_repr.as_bytes());
    concat("SHA256:", digest.as_str())
}

/// What to do with a server's host key.
#[derive(Debug)]
pub enum HostKeyCheck {
    /// The key is the one stored for the host: connect.
    Accept,
    /// The host is new: connect, and store this known-hosts line.
    AcceptAndStore(String),
    /// The key differs from the stored one: refuse, with this message.
    Reject(String),
}

/// The message with which a changed host key is refused.
pub open spec fn key_changed_text(host: Seq<char>, port: u16, expected: Seq<char>, received: Seq<char>) -> Seq<char> {
    "Host key verification failed for "@ + host + ":"@ + decimal(port as nat) + "\nExpected: "@ + expected
        + "\nReceived: "@ + received
}

/// Trust on first use: a host whose fingerprint is stored must present
/// the same one; a new host is trusted and its fingerprint stored; when
/// the known-hosts file cannot be read (`Err`) the connection is allowed
/// and nothing is stored.
pub fn check_server_key(host: &str, port: u16, stored: Result<Option<String>, String>, received: &str) -> (r: HostKeyCheck)
    ensures
        match stored {
            Ok(Some(expected)) => if expected@ == received@ {
                r is Accept
            } else {
                r matches HostKeyCheck::Reject(m) && m@ == key_changed_text(host@, port, expected@, received@)
            },
            Ok(None) => r matches HostKeyCheck::AcceptAndStore(l) && l@ == known_host_line(host@, port, received@),
            Err(_) => r is Accept,
        },
{
    match stored {
        Ok(Some(expected)) => {
            if crate::text::str_eq(expected.as_str(), received) {
                HostKeyCheck::Accept
            } else {
                let digits = u64_to_decimal(port as u64);
                let p = string_from_chars(digits.as_slice());
                let m1 = concat("Host key verification failed for ", host);
                let m2 = concat(m1.as_str(), ":");
                let m3 = concat(m2.as_str(), p.as_str());
                let m4 = concat(m3.as_str(), "\nExpected: ");
                let m5 = concat(m4.as_str(), expected.as_str());
                let m6 = concat(m5.as_str(), "\nReceived: ");
                HostKeyCheck::Reject(concat(m6.as_str(), received))
            }
        },
        Ok(None) => HostKeyCheck::AcceptAndStore(crate::remote::sftp::known_host_entry(host, port, received)),
        Err(_) => HostKeyCheck::Accept,
    }
}

/// The text an error message carries from position `at` to the end of
/// that line, trimmed.
pub open spec fn field_at(msg: Seq<char>, at: int) -> Seq<char> {
    let rest = msg.skip(at);
    trimmed(
        match index_of_char(rest, '\n') {
            Some(k) => rest.take(k as int),
            None => rest,
        },
    )
}

/// The field after `label` in `cs`, from position `at` (just past it).
fn field_text(cs: &Vec<char>, at: usize) -> (r: String)
    requires
        at <= cs@.len(),
    ensures
        r@ == field_at(cs@, at as int),
{
    let e = line_end(cs, at);
    let t = trim_range(cs, at, e);
    proof {
        let rest = cs@.skip(at as int);
        if e < cs@.len() {
            assert(rest.take(e - at) =~= cs@.subrange(at as int, e as int));
        } else {
            assert(rest =~= cs@.subrange(at as int, e as int));
        }
    }
    string_from_chars(t.as_slice())
}

/// What a failed connection to `host:port` means, read from the message
/// `msg` of the error: a refused host key (with the expected and received
/// fingerprints where the message names both), or another failure.
pub fn classify_connect_error(host: &str, port: u16, msg: &str) -> (r: SftpError)
    ensures
        index_of_text(msg@, "Host key verification failed"@) is None ==> (r matches SftpError::ConnectionFailed(m)
            && m@ == msg@),
        index_of_text(msg@, "Host key verification failed"@) is Some ==> match (
            index_of_text(msg@, "Expected: "@),
            index_of_text(msg@, "Received: "@),
        ) {
            (Some(a), Some(b)) => r matches SftpError::HostKeyMismatch { host: h, port: p, expected, received } && h@
                == host@ && p == port && expected@ == field_at(msg@, a as int + 10) && received@ == field_at(msg@, b as int + 10),
            _ => r matches SftpError::HostKeyError(m) && m@ == msg@,
        },
{
    let cs = chars_of(msg);
    let marker = chars_of("Host key verification failed");
    if find_text(&cs, &marker).is_none() {
        return SftpError::ConnectionFailed(string_from_chars(cs.as_slice()));
    }
    let exp_label = chars_of("Expected: ");
    let rec_label = chars_of("Received: ");
    proof {
        reveal_strlit("Expected: ");
        reveal_strlit("Received: ");
    }
    match (find_text(&cs, &exp_label), find_text(&cs, &rec_label)) {
        (Some(a), Some(b)) => {
            proof {
                assert(exp_label@.len() == 10 && rec_label@.len() == 10);
                lemma_index_found(cs@, exp_label@, a as nat);
                lemma_index_found(cs@, rec_label@, b as nat);
                assert(a + 10 <= cs.len() && b + 10 <= cs.len());
            }
            let expected = field_text(&cs, a + 10);
            let received = field_text(&cs, b + 10);
            SftpError::HostKeyMismatch { host: crate::text::to_owned_string(host), port, expected, received }
        },
        _ => SftpError::HostKeyError(string_from_chars(cs.as_slice())),
    }
}

/// A found occurrence lies inside the text.
proof fn lemma_index_found(s: Seq<char>, pat: Seq<char>, i: nat)
    requires
        index_of_text(s, pat) == Some(i),
    ensures
        i + pat.len() <= s.len(),
    decreases s.len(),
{
    if s.len() >= pat.len() && s.take(pat.len() as int) != pat && s.len() > 0 {
        if i > 0 {
            lemma_index_found(s.drop_first(), pat, (i - 1) as nat);
        }
    }
}

} // verus!
