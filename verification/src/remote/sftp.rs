//! SFTP connection settings, errors, and the listing of remote directories.
//!
//! The SSH session itself is driven by the caller; this module holds the
//! values that describe a connection and turns what the server reports into
//! [`FileEntry`] values.

use vstd::prelude::*;
use crate::fs::entry::{dot_prefixed, starts_with_dot, FileEntry, FileEntryView};
use crate::text::{chars_of, decimal, string_from_chars, u64_to_decimal};

verus! {

/// Configuration for an SFTP connection.
#[derive(Debug, Clone)]
pub struct SftpConfig {
    pub host: String,
    pub port: u16,
    pub username: String,
    pub password: String,
}

/// Appends the characters of `s` to `out`.
fn push_str(out: &mut Vec<char>, s: &str)
    ensures
        final(out)@ == old(out)@ + s@,
{
    let mut cs = chars_of(s);
    out.append(&mut cs);
}

/// Appends the decimal digits of `n` to `out`.
fn push_decimal(out: &mut Vec<char>, n: u64)
    ensures
        final(out)@ == old(out)@ + decimal(n as nat),
{
    let mut d = u64_to_decimal(n);
    out.append(&mut d);
}

impl SftpConfig {
    /// The label of a connection: `user@host`, with `:port` added when the
    /// port is not the SSH default 22.
    pub open spec fn label(&self) -> Seq<char> {
        if self.port == 22 {
            self.username@ + "@"@ + self.host@
        } else {
            self.username@ + "@"@ + self.host@ + ":"@ + decimal(self.port as nat)
        }
    }

    /// Returns a display label like `"user@host"` or `"user@host:port"`.
    pub fn display_label(&self) -> (r: String)
        ensures
            r@ == self.label(),
    {
        let mut out: Vec<char> = Vec::new();
        push_str(&mut out, self.username.as_str());
        push_str(&mut out, "@");
        push_str(&mut out, self.host.as_str());
        if self.port != 22 {
            push_str(&mut out, ":");
            push_decimal(&mut out, self.port as u64);
        }
        string_from_chars(out.as_slice())
    }
}

/// Errors that can occur during SFTP operations.
#[derive(Debug)]
pub enum SftpError {
    ConnectionFailed(String),
    AuthFailed(String),
    Sftp(String),
    NotFound(String),
    PermissionDenied(String),
    Disconnected,
    HostKeyMismatch { host: String, port: u16, expected: String, received: String },
    HostKeyError(String),
}

/// The message shown for a changed host key.
pub open spec fn host_key_mismatch_text(host: Seq<char>, port: u16, expected: Seq<char>, received: Seq<char>) -> Seq<char> {
    "host key verification failed for "@ + host + ":"@ + decimal(port as nat) + "\nExpected: "@ + expected
        + "\nReceived: "@ + received
        + "\n\nWARNING: Host key has changed! This could indicate a man-in-the-middle attack.\nIf you trust this new key, remove the old entry from ~/.config/trefm/known_hosts"@
}

impl SftpError {
    /// The human-readable message of this error.
    pub open spec fn text(&self) -> Seq<char> {
        match self {
            SftpError::ConnectionFailed(m) => "connection failed: "@ + m@,
            SftpError::AuthFailed(m) => "authentication failed: "@ + m@,
            SftpError::Sftp(m) => "SFTP error: "@ + m@,
            SftpError::NotFound(m) => "not found: "@ + m@,
            SftpError::PermissionDenied(m) => "permission denied: "@ + m@,
            SftpError::Disconnected => "session disconnected"@,
            SftpError::HostKeyMismatch { host, port, expected, received } => host_key_mismatch_text(
                host@,
                *port,
                expected@,
                received@,
            ),
            SftpError::HostKeyError(m) => "host key verification error: "@ + m@,
        }
    }

    /// The human-readable message of this error.
    pub fn message(&self) -> (r: String)
        ensures
            r@ == self.text(),
    {
        let mut out: Vec<char> = Vec::new();
        match self {
            SftpError::ConnectionFailed(m) => {
                push_str(&mut out, "connection failed: ");
                push_str(&mut out, m.as_str());
            },
            SftpError::AuthFailed(m) => {
                push_str(&mut out, "authentication failed: ");
                push_str(&mut out, m.as_str());
            },
            SftpError::Sftp(m) => {
                push_str(&mut out, "SFTP error: ");
                push_str(&mut out, m.as_str());
            },
            SftpError::NotFound(m) => {
                push_str(&mut out, "not found: ");
                push_str(&mut out, m.as_str());
            },
            SftpError::PermissionDenied(m) => {
                push_str(&mut out, "permission denied: ");
                push_str(&mut out, m.as_str());
            },
            SftpError::Disconnected => {
                push_str(&mut out, "session disconnected");
            },
            SftpError::HostKeyMismatch { host, port, expected, received } => {
                push_str(&mut out, "host key verification failed for ");
                push_str(&mut out, host.as_str());
                push_str(&mut out, ":");
                push_decimal(&mut out, *port as u64);
                push_str(&mut out, "\nExpected: ");
                push_str(&mut out, expected.as_str());
                push_str(&mut out, "\nReceived: ");
                push_str(&mut out, received.as_str());
                push_str(
                    &mut out,
                    "\n\nWARNING: Host key has changed! This could indicate a man-in-the-middle attack.\nIf you trust this new key, remove the old entry from ~/.config/trefm/known_hosts",
                );
            },
            SftpError::HostKeyError(m) => {
                push_str(&mut out, "host key verification error: ");
                push_str(&mut out, m.as_str());
            },
        }
        proof {
            assert(out@ =~= self.text());
        }
        string_from_chars(out.as_slice())
    }
}

/// `s` without its trailing `c` characters.
pub open spec fn trim_end_char(s: Seq<char>, c: char) -> Seq<char>
    decreases s.len(),
{
    if s.len() > 0 && s.last() == c {
        trim_end_char(s.drop_last(), c)
    } else {
        s
    }
}

/// The path of the entry `name` in the remote directory `dir`: the directory
/// without trailing slashes, a slash, and the name.
pub open spec fn remote_child_path(dir: Seq<char>, name: Seq<char>) -> Seq<char> {
    trim_end_char(dir, '/') + seq!['/'] + name
}

/// Builds the entry for `name`, listed by the server in `remote_dir` with
/// the given attributes; names starting with `.` are hidden.
pub fn remote_entry(
    remote_dir: &str,
    name: String,
    size: u64,
    modified: Option<i128>,
    is_dir: bool,
    is_symlink: bool,
) -> (e: FileEntry)
    ensures
        e@ == (FileEntryView {
            path: remote_child_path(remote_dir@, name@),
            name: name@,
            size: if is_dir { 0 } else { size },
            modified,
            is_dir,
            is_hidden: dot_prefixed(name@),
            is_symlink,
        }),
{
    let mut cs = chars_of(remote_dir);
    let ghost full = cs@;
    while cs.len() > 0 && cs[cs.len() - 1] == '/'
        invariant
            trim_end_char(full, '/') == trim_end_char(cs@, '/'),
        decreases cs.len(),
    {
        let ghost before = cs@;
        cs.pop();
        proof {
            assert(cs@ =~= before.drop_last());
        }
    }
    proof {
        assert(trim_end_char(cs@, '/') == cs@);
    }
    let ghost trimmed = cs@;
    cs.push('/');
    let mut ncs = chars_of(name.as_str());
    cs.append(&mut ncs);
    proof {
        assert(cs@ =~= trimmed + seq!['/'] + name@);
    }
    let path = string_from_chars(cs.as_slice());
    let hidden = starts_with_dot(name.as_str());
    FileEntry::from_remote(path, name, size, modified, is_dir, hidden, is_symlink)
}

/// The line a known-hosts file stores for a trusted host key:
/// `host:port fingerprint` and a newline.
pub open spec fn known_host_line(host: Seq<char>, port: u16, fingerprint: Seq<char>) -> Seq<char> {
    host + ":"@ + decimal(port as nat) + " "@ + fingerprint + "\n"@
}

/// Formats the known-hosts line that records `fingerprint` for `host:port`.
pub fn known_host_entry(host: &str, port: u16, fingerprint: &str) -> (r: String)
    ensures
        r@ == known_host_line(host@, port, fingerprint@),
{
    let mut out: Vec<char> = Vec::new();
    push_str(&mut out, host);
    push_str(&mut out, ":");
    push_decimal(&mut out, port as u64);
    push_str(&mut out, " ");
    push_str(&mut out, fingerprint);
    push_str(&mut out, "\n");
    proof {
        assert(out@ =~= known_host_line(host@, port, fingerprint@));
    }
    string_from_chars(out.as_slice())
}

} // verus!
