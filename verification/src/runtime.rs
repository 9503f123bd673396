//! The runtime record: where the running broker listens and which token it
//! accepts, kept as a two-line text file in a per-user directory.
//!
//! The file is only ever a hint. Its presence does not show that the broker it
//! names is alive; whoever reads it must be ready to find nobody there.

use crate::auth::{lemma_valid_token_single_line, valid_token};
use crate::path::{join_path, join_text};
use crate::text::{
    decimal_text, format_u16, is_digit, lemma_decimal_text_digits, lemma_line_feed_found,
    lemma_parse_decimal_text, lines, lines_from, parse_u16, parse_u16_text, string_views,
    strip_carriage_return, text_lines,
};
use vstd::prelude::*;
use vstd::string::*;

verus! {

/// Location and credential of a running broker.
#[derive(Debug)]
pub struct RuntimeInfo {
    pub port: u16,
    pub token: String,
}

/// What a `RuntimeInfo` holds, as mathematical values.
pub struct RuntimeRecord {
    pub port: u16,
    pub token: Seq<char>,
}

impl View for RuntimeInfo {
    type V = RuntimeRecord;

    open spec fn view(&self) -> RuntimeRecord {
        RuntimeRecord { port: self.port, token: self.token@ }
    }
}

/// The record file as the file system holds it at one moment: its text, or
/// `None` where there is no file.
#[derive(Debug)]
pub struct RuntimeFile {
    pub content: Option<String>,
}

/// The view of an optional record.
pub open spec fn record_of(info: Option<RuntimeInfo>) -> Option<RuntimeRecord> {
    match info {
        Some(i) => Some(i@),
        None => None,
    }
}

/// The text of the record file of `(port, token)`: the port in decimal, a
/// line feed, the token.
pub open spec fn record_text(port: u16, token: Seq<char>) -> Seq<char> {
    decimal_text(port as nat) + seq!['\n'] + token
}

/// The record that a file's text holds: the number on its first line and the
/// whole of its second line. Text with fewer than two lines, or whose first
/// line is not a 16-bit decimal number, holds none.
pub open spec fn parse_record(content: Seq<char>) -> Option<RuntimeRecord> {
    let lines = text_lines(content);
    if lines.len() >= 2 {
        match parse_u16_text(lines[0]) {
            Some(port) => Some(RuntimeRecord { port, token: lines[1] }),
            None => None,
        }
    } else {
        None
    }
}

/// The record that a record file holds: none where there is no file, or where
/// its text holds none.
pub open spec fn stored_record(file: RuntimeFile) -> Option<RuntimeRecord> {
    match file.content {
        Some(content) => parse_record(content@),
        None => None,
    }
}

/// A token that survives being written to the record file: it is not empty
/// and holds no line feed.
pub open spec fn storable_token(token: Seq<char>) -> bool {
    token.len() > 0 && forall|i: int| 0 <= i < token.len() ==> token[i] != '\n'
}

/// The name of the per-user directory below the temporary directory.
pub open spec fn runtime_dir_name(user: Option<Seq<char>>) -> Seq<char> {
    "eng-agent-"@ + match user {
        Some(u) => u,
        None => "unknown"@,
    }
}

/// The per-user runtime directory.
pub open spec fn runtime_dir_text(temp_dir: Seq<char>, user: Option<Seq<char>>) -> Seq<char> {
    join_text(temp_dir, runtime_dir_name(user))
}

/// The path of the record file.
pub open spec fn port_file_text(temp_dir: Seq<char>, user: Option<Seq<char>>) -> Seq<char> {
    join_text(runtime_dir_text(temp_dir, user), "agent.port"@)
}

/// The view of an optional string slice.
pub open spec fn text_of(s: Option<&str>) -> Option<Seq<char>> {
    match s {
        Some(t) => Some(t@),
        None => None,
    }
}

/// The directory that holds the record file of `user`, below the platform's
/// temporary directory `temp_dir`. Where the user's name is not known the
/// directory is that of the placeholder user `unknown`.
pub fn get_runtime_dir(temp_dir: &str, user: Option<&str>) -> (dir: String)
    ensures
        dir@ == runtime_dir_text(temp_dir@, text_of(user)),
{
    let mut name = String::from_str("eng-agent-");
    match user {
        Some(u) => name.append(u),
        None => name.append("unknown"),
    }
    join_path(temp_dir, name.as_str())
}

/// The path of the record file of `user`.
pub fn get_port_file_path(temp_dir: &str, user: Option<&str>) -> (path: String)
    ensures
        path@ == port_file_text(temp_dir@, text_of(user)),
{
    let dir = get_runtime_dir(temp_dir, user);
    join_path(dir.as_str(), "agent.port")
}

/// Replaces whatever the record file held by the record of `(port, token)`.
/// For a storable token, the file then holds exactly that record.
pub fn save_runtime_info(file: &mut RuntimeFile, port: u16, token: &str)
    ensures
        final(file).content is Some,
        final(file).content->0@ == record_text(port, token@),
        storable_token(token@) ==> stored_record(*final(file)) == Some(
            RuntimeRecord { port, token: token@ },
        ),
{
    proof {
        if storable_token(token@) {
            lemma_save_then_load(port, token@);
        }
    }
    let mut content = format_u16(port);
    proof {
        reveal_strlit("\n");
    }
    content.append("\n");
    assert("\n"@ =~= seq!['\n']);
    content.append(token);
    file.content = Some(content);
}

/// Reads the record out of the record file. A missing file and a malformed
/// one both count as "no broker is running": neither is an error.
pub fn load_runtime_info(file: &RuntimeFile) -> (info: Option<RuntimeInfo>)
    ensures
        record_of(info) == stored_record(*file),
{
    match &file.content {
        None => None,
        Some(content) => {
            let found = lines(content.as_str());
            assert(string_views(found@).len() == found@.len());
            if found.len() >= 2 {
                assert(string_views(found@)[0] == found@[0]@);
                assert(string_views(found@)[1] == found@[1]@);
                match parse_u16(found[0].as_str()) {
                    Some(port) => Some(RuntimeInfo { port, token: found[1].clone() }),
                    None => None,
                }
            } else {
                None
            }
        },
    }
}

/// Removes the record file. Nothing happens where there is none. Afterwards
/// the file holds no record.
pub fn cleanup_runtime_info(file: &mut RuntimeFile)
    ensures
        final(file).content is None,
        stored_record(*final(file)) is None,
{
    file.content = None;
}

/// The record text of a storable token has exactly two lines: the port in
/// decimal, and the token.
pub proof fn lemma_record_text_lines(port: u16, token: Seq<char>)
    requires
        storable_token(token),
    ensures
        text_lines(record_text(port, token)) == seq![decimal_text(port as nat), token],
{
    let number = decimal_text(port as nat);
    let s = record_text(port, token);
    let d = number.len() as int;
    lemma_decimal_text_digits(port as nat);
    assert forall|k: int| 0 <= k < d implies s[k] != '\n' by {
        assert(s[k] == number[k]);
        assert(is_digit(number[k]));
    }
    assert(s[d] == '\n');
    lemma_line_feed_found(s, 0, d);
    assert(s.subrange(0, d) =~= number);
    assert(is_digit(number.last()));
    assert(strip_carriage_return(number) == number);
    assert forall|k: int| d + 1 <= k < s.len() implies s[k] != '\n' by {
        assert(s[k] == token[k - d - 1]);
    }
    lemma_line_feed_found(s, d + 1, s.len() as int);
    assert(s.subrange(d + 1, s.len() as int) =~= token);
    assert(lines_from(s, s.len() as int) =~= Seq::<Seq<char>>::empty());
    assert(lines_from(s, d + 1) =~= seq![token]);
    assert(text_lines(s) =~= seq![number, token]);
}

/// Saving a record and then loading it gives back exactly the pair that was
/// saved, for every port and every storable token.
pub proof fn lemma_save_then_load(port: u16, token: Seq<char>)
    requires
        storable_token(token),
    ensures
        parse_record(record_text(port, token)) == Some(RuntimeRecord { port, token }),
{
    lemma_record_text_lines(port, token);
    lemma_parse_decimal_text(port);
}

/// Every token that an interceptor can be built on is storable.
pub proof fn lemma_valid_token_is_storable(token: Seq<char>)
    requires
        valid_token(token),
    ensures
        storable_token(token),
{
    lemma_valid_token_single_line(token);
}

/// Every port together with every valid token survives the record file:
/// saved and then loaded, it comes back as it was.
pub proof fn lemma_valid_pair_round_trips(port: u16, token: Seq<char>)
    requires
        valid_token(token),
    ensures
        parse_record(record_text(port, token)) == Some(RuntimeRecord { port, token }),
{
    lemma_valid_token_is_storable(token);
    lemma_save_then_load(port, token);
}

/// Text with fewer than two lines, or with a first line that is no 16-bit
/// decimal number, holds no record.
pub proof fn lemma_malformed_is_absent(content: Seq<char>)
    requires
        text_lines(content).len() < 2 || parse_u16_text(text_lines(content)[0]) is None,
    ensures
        parse_record(content) is None,
{
}

} // verus!
