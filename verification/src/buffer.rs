//! Text buffers: a rope of characters with a version, a name and a style
//! overlay that follows every edit.

use crate::auth::{fresh_uuid, is_uuid_text};
use crate::launcher::optional_text;
use crate::path::{file_name, file_name_text};
use crate::style::{
    end_after_insert, spans_after_delete, start_after_insert, Style, StyleMap, StyleSpan,
};
use crate::text::{decimal_text, format_usize};
use ropey::Rope;
use std::ops::Range;
use vstd::hash_map::StringHashMap;
use vstd::prelude::*;
use vstd::string::*;

verus! {

/// `ropey::Rope`, held as an opaque value: all that is known of a rope is
/// what the functions below say of the text it holds.
#[verifier::external_type_specification]
#[verifier::external_body]
pub struct ExRope(ropey::Rope);

// ---------------------------------------------------------------------------
// The rope, as far as it is trusted
// ---------------------------------------------------------------------------

/// The characters that a rope holds, in order.
pub uninterp spec fn rope_text(rope: Rope) -> Seq<char>;

/// The number of lines that the rope library counts in a text.
pub uninterp spec fn rope_line_count(text: Seq<char>) -> nat;

/// The index of the line on which the rope library places a character
/// position.
pub uninterp spec fn rope_line_of_char(text: Seq<char>, char_idx: int) -> nat;

/// The character position at which the rope library lets a line begin.
pub uninterp spec fn rope_char_of_line(text: Seq<char>, line_idx: int) -> nat;

/// `text` with `inserted` put in at position `at`.
pub open spec fn text_with_insert(text: Seq<char>, at: int, inserted: Seq<char>) -> Seq<char> {
    text.subrange(0, at) + inserted + text.subrange(at, text.len() as int)
}

/// `text` without the characters `from..to`.
pub open spec fn text_without(text: Seq<char>, from: int, to: int) -> Seq<char> {
    text.subrange(0, from) + text.subrange(to, text.len() as int)
}

/// Trusted: calls `ropey::Rope::from_str`. The rope holds the characters of
/// `text`.
#[verifier::external_body]
fn rope_from_str(text: &str) -> (rope: Rope)
    ensures
        rope_text(rope) == text@,
{
    Rope::from_str(text)
}

/// Trusted: calls `ropey::Rope::len_chars`, the number of characters held.
#[verifier::external_body]
fn rope_len_chars(rope: &Rope) -> (n: usize)
    ensures
        n == rope_text(*rope).len(),
{
    rope.len_chars()
}

/// Trusted: calls `ropey::Rope::insert`, which puts `text` in at the
/// character position `char_idx` and panics if that lies behind the end.
#[verifier::external_body]
fn rope_insert(rope: &mut Rope, char_idx: usize, text: &str)
    requires
        char_idx <= rope_text(*old(rope)).len(),
    ensures
        rope_text(*final(rope)) == text_with_insert(rope_text(*old(rope)), char_idx as int, text@),
{
    rope.insert(char_idx, text)
}

/// Trusted: calls `ropey::Rope::remove` with the range `start..end`, which
/// takes out those character positions and panics if the start lies behind
/// the end or the end behind the end of the text.
#[verifier::external_body]
fn rope_remove(rope: &mut Rope, start: usize, end: usize)
    requires
        start <= end <= rope_text(*old(rope)).len(),
    ensures
        rope_text(*final(rope)) == text_without(rope_text(*old(rope)), start as int, end as int),
{
    rope.remove(start..end)
}

/// Trusted: calls `ropey::Rope::len_lines`. The count is one more than the
/// number of line breaks, so it is never zero.
#[verifier::external_body]
fn rope_len_lines(rope: &Rope) -> (n: usize)
    ensures
        n == rope_line_count(rope_text(*rope)),
        n >= 1,
{
    rope.len_lines()
}

/// Trusted: calls `ropey::Rope::char_to_line`, which counts the line breaks
/// before `char_idx` and panics if that lies behind the end. For the position
/// at the end it gives the last line.
#[verifier::external_body]
fn rope_char_to_line(rope: &Rope, char_idx: usize) -> (line: usize)
    requires
        char_idx <= rope_text(*rope).len(),
    ensures
        line == rope_line_of_char(rope_text(*rope), char_idx as int),
        line < rope_line_count(rope_text(*rope)),
{
    rope.char_to_line(char_idx)
}

/// Trusted: calls `ropey::Rope::line_to_char`, which gives the position of
/// the first character of a line and panics if `line_idx` exceeds the number
/// of lines. For the line behind the last it gives the end of the text.
#[verifier::external_body]
fn rope_line_to_char(rope: &Rope, line_idx: usize) -> (char_idx: usize)
    requires
        line_idx <= rope_line_count(rope_text(*rope)),
    ensures
        char_idx == rope_char_of_line(rope_text(*rope), line_idx as int),
        line_idx == rope_line_count(rope_text(*rope)) ==> char_idx == rope_text(*rope).len(),
{
    rope.line_to_char(line_idx)
}

/// Trusted: calls `<String as From<&ropey::Rope>>::from`, which copies the
/// characters out.
#[verifier::external_body]
fn rope_to_string(rope: &Rope) -> (s: String)
    ensures
        s@ == rope_text(*rope),
{
    String::from(rope)
}

/// Trusted: calls `<ropey::Rope as Clone>::clone`. The copy holds the same
/// text.
#[verifier::external_body]
fn rope_clone(rope: &Rope) -> (copy: Rope)
    ensures
        rope_text(copy) == rope_text(*rope),
{
    rope.clone()
}

// ---------------------------------------------------------------------------
// Buffers
// ---------------------------------------------------------------------------

/// How a buffer's text is encoded on disk.
#[derive(Debug, Clone, Copy, PartialEq, Eq, Structural)]
pub enum Encoding {
    Utf8,
}

/// How a buffer's lines end on disk.
#[derive(Debug, Clone, Copy, PartialEq, Eq, Structural)]
pub enum LineEnding {
    Lf,
    CrLf,
}

/// Why an edit was refused.
#[derive(Debug, Clone, Copy, PartialEq, Eq, Structural)]
pub enum BufferError {
    /// The buffer does not take edits.
    ReadOnly,
    /// The position lies behind the end of the text.
    IndexOutOfBounds { index: usize, len: usize },
    /// The range ends behind the end of the text, or begins behind its own end.
    InvalidRange { start: usize, end: usize, len: usize },
}

impl BufferError {
    /// The text shown to the user.
    pub open spec fn message_text(self) -> Seq<char> {
        match self {
            BufferError::ReadOnly => "Buffer is read-only"@,
            BufferError::IndexOutOfBounds { index, len } => "Index out of bounds: "@ + decimal_text(
                index as nat,
            ) + " > "@ + decimal_text(len as nat),
            BufferError::InvalidRange { start, end, len } => "Invalid range: "@ + decimal_text(
                start as nat,
            ) + ".."@ + decimal_text(end as nat) + " (len: "@ + decimal_text(len as nat) + ")"@,
        }
    }

    /// The text shown to the user.
    pub fn message(&self) -> (s: String)
        ensures
            s@ == self.message_text(),
    {
        match self {
            BufferError::ReadOnly => String::from_str("Buffer is read-only"),
            BufferError::IndexOutOfBounds { index, len } => {
                let mut s = String::from_str("Index out of bounds: ");
                s.append(format_usize(*index).as_str());
                s.append(" > ");
                s.append(format_usize(*len).as_str());
                s
            },
            BufferError::InvalidRange { start, end, len } => {
                let mut s = String::from_str("Invalid range: ");
                s.append(format_usize(*start).as_str());
                s.append("..");
                s.append(format_usize(*end).as_str());
                s.append(" (len: ");
                s.append(format_usize(*len).as_str());
                s.append(")");
                s
            },
        }
    }
}

/// One text under edit.
#[derive(Debug)]
pub struct Buffer {
    text: Rope,
    version: u64,
    pub name: String,
    pub path: Option<String>,
    pub modified: bool,
    pub read_only: bool,
    pub encoding: Encoding,
    pub line_ending: LineEnding,
    pub styles: StyleMap,
}

/// A buffer as mathematical values.
pub struct BufferView {
    /// The characters of the buffer.
    pub text: Seq<char>,
    /// The number of edits that the buffer has taken.
    pub version: u64,
    pub name: Seq<char>,
    pub path: Option<Seq<char>>,
    pub modified: bool,
    pub read_only: bool,
    pub encoding: Encoding,
    pub line_ending: LineEnding,
    pub styles: Seq<StyleSpan>,
}

impl View for Buffer {
    type V = BufferView;

    closed spec fn view(&self) -> BufferView {
        BufferView {
            text: rope_text(self.text),
            version: self.version,
            name: self.name@,
            path: optional_text(self.path),
            modified: self.modified,
            read_only: self.read_only,
            encoding: self.encoding,
            line_ending: self.line_ending,
            styles: self.styles@,
        }
    }
}

/// What an insertion of `len` characters at `char_idx` makes of `before`.
pub open spec fn spans_after_insert(
    before: Seq<StyleSpan>,
    after: Seq<StyleSpan>,
    char_idx: int,
    len: int,
) -> bool {
    &&& after.len() == before.len()
    &&& forall|i: int|
        0 <= i < before.len() ==> {
            let old_span = #[trigger] before[i];
            let new_span = after[i];
            &&& new_span.style == old_span.style
            &&& new_span.range.start == start_after_insert(
                old_span.range.start as int,
                char_idx,
                len,
            )
            &&& new_span.range.end == end_after_insert(
                old_span.range.start as int,
                old_span.range.end as int,
                char_idx,
                len,
            )
        }
}

/// Every position that an insertion of `len` characters at `char_idx` moves
/// still fits the machine's word.
pub open spec fn spans_fit_insert(spans: Seq<StyleSpan>, char_idx: usize, len: int) -> bool {
    forall|i: int|
        0 <= i < spans.len() ==> {
            let span = #[trigger] spans[i];
            &&& span.range.start >= char_idx ==> span.range.start + len <= usize::MAX
            &&& span.range.start >= char_idx || span.range.end > char_idx ==> span.range.end + len
                <= usize::MAX
        }
}

/// No span behind the stretch `from..to` ends before a position that the
/// removal could move it to.
pub open spec fn spans_fit_delete(spans: Seq<StyleSpan>, from: usize, to: usize) -> bool {
    forall|i: int|
        0 <= i < spans.len() ==> ((#[trigger] spans[i]).range.start >= to ==> spans[i].range.end
            >= to - from)
}

impl Buffer {
    /// A buffer named `name` that holds `text`: unedited, writable, without
    /// a path and without styles.
    pub fn new(name: String, text: &str) -> (buffer: Self)
        ensures
            buffer@ == (BufferView {
                text: text@,
                version: 0,
                name: name@,
                path: None,
                modified: false,
                read_only: false,
                encoding: Encoding::Utf8,
                line_ending: LineEnding::Lf,
                styles: Seq::empty(),
            }),
    {
        Self {
            text: rope_from_str(text),
            version: 0,
            name,
            path: None,
            modified: false,
            read_only: false,
            encoding: Encoding::Utf8,
            line_ending: LineEnding::Lf,
            styles: StyleMap::new(),
        }
    }

    /// Puts `text` in at the character position `char_idx`. A read-only
    /// buffer refuses; so does a position behind the end. Otherwise the text
    /// goes in, the styles move with it, and the buffer is one version on and
    /// modified. A refused edit changes nothing.
    pub fn insert(&mut self, char_idx: usize, text: &str) -> (r: Result<(), BufferError>)
        requires
            !old(self)@.read_only && char_idx <= old(self)@.text.len() ==> old(self)@.version
                < u64::MAX && spans_fit_insert(old(self)@.styles, char_idx, text@.len() as int),
        ensures
            old(self)@.read_only ==> r == Err::<(), BufferError>(BufferError::ReadOnly),
            !old(self)@.read_only && char_idx > old(self)@.text.len() ==> r == Err::<
                (),
                BufferError,
            >(BufferError::IndexOutOfBounds { index: char_idx, len: old(self)@.text.len() as usize }),
            !old(self)@.read_only && char_idx <= old(self)@.text.len() ==> r is Ok,
            r is Err ==> final(self)@ == old(self)@,
            r is Ok ==> final(self)@ == (BufferView {
                text: text_with_insert(old(self)@.text, char_idx as int, text@),
                version: (old(self)@.version + 1) as u64,
                modified: true,
                styles: final(self)@.styles,
                ..old(self)@
            }),
            r is Ok ==> spans_after_insert(
                old(self)@.styles,
                final(self)@.styles,
                char_idx as int,
                text@.len() as int,
            ),
    {
        if self.read_only {
            return Err(BufferError::ReadOnly);
        }
        let char_len = rope_len_chars(&self.text);
        if char_idx > char_len {
            return Err(BufferError::IndexOutOfBounds { index: char_idx, len: char_len });
        }
        let insert_len = text.unicode_len();
        assert(self.styles.fits_insert(char_idx, insert_len));
        rope_insert(&mut self.text, char_idx, text);
        self.styles.on_insert(char_idx, insert_len);
        self.version = self.version + 1;
        self.modified = true;
        Ok(())
    }

    /// Takes out the characters of `range`. A read-only buffer refuses; so
    /// does a range that ends behind the end of the text or begins behind its
    /// own end. Otherwise the characters go, the styles follow, and the
    /// buffer is one version on and modified. A refused edit changes nothing.
    pub fn delete(&mut self, range: Range<usize>) -> (r: Result<(), BufferError>)
        requires
            !old(self)@.read_only && range.start <= range.end <= old(self)@.text.len() ==> old(
                self,
            )@.version < u64::MAX && spans_fit_delete(old(self)@.styles, range.start, range.end),
        ensures
            old(self)@.read_only ==> r == Err::<(), BufferError>(BufferError::ReadOnly),
            !old(self)@.read_only && !(range.start <= range.end <= old(self)@.text.len()) ==> r
                == Err::<(), BufferError>(
                BufferError::InvalidRange {
                    start: range.start,
                    end: range.end,
                    len: old(self)@.text.len() as usize,
                },
            ),
            !old(self)@.read_only && range.start <= range.end <= old(self)@.text.len() ==> r is Ok,
            r is Err ==> final(self)@ == old(self)@,
            r is Ok ==> final(self)@ == (BufferView {
                text: text_without(old(self)@.text, range.start as int, range.end as int),
                version: (old(self)@.version + 1) as u64,
                modified: true,
                styles: spans_after_delete(
                    old(self)@.styles,
                    range.start as int,
                    range.end as int,
                ),
                ..old(self)@
            }),
    {
        if self.read_only {
            return Err(BufferError::ReadOnly);
        }
        let char_len = rope_len_chars(&self.text);
        if range.end > char_len || range.start > range.end {
            return Err(
                BufferError::InvalidRange { start: range.start, end: range.end, len: char_len },
            );
        }
        assert(self.styles.fits_delete(range.start, range.end));
        rope_remove(&mut self.text, range.start, range.end);
        self.styles.on_delete(range);
        self.version = self.version + 1;
        self.modified = true;
        Ok(())
    }

    /// Gives the buffer the path `path`. Where the path has a file name, the
    /// buffer takes that name; otherwise it keeps its own. Nothing else
    /// changes.
    pub fn set_path(&mut self, path: String)
        ensures
            final(self)@ == (BufferView {
                path: Some(path@),
                name: match file_name_text(path@) {
                    Some(name) => name,
                    None => old(self)@.name,
                },
                ..old(self)@
            }),
    {
        match file_name(path.as_str()) {
            Some(name) => {
                self.name = name;
            },
            None => {},
        }
        self.path = Some(path);
    }

    /// The name of the buffer.
    pub fn name(&self) -> (name: &str)
        ensures
            name@ == self@.name,
    {
        self.name.as_str()
    }

    /// The path of the buffer, where it has one.
    pub fn path(&self) -> (path: Option<&str>)
        ensures
            path is Some <==> self@.path is Some,
            path is Some ==> path->0@ == self@.path->0,
    {
        match &self.path {
            Some(p) => Some(p.as_str()),
            None => None,
        }
    }

    /// The number of edits that the buffer has taken.
    pub fn version(&self) -> (version: u64)
        ensures
            version == self@.version,
    {
        self.version
    }

    /// Whether the buffer has been edited.
    pub fn is_modified(&self) -> (modified: bool)
        ensures
            modified == self@.modified,
    {
        self.modified
    }

    /// Whether the buffer refuses edits.
    pub fn is_read_only(&self) -> (read_only: bool)
        ensures
            read_only == self@.read_only,
    {
        self.read_only
    }

    /// Makes the buffer refuse edits, or take them again.
    pub fn set_read_only(&mut self, value: bool)
        ensures
            final(self)@ == (BufferView { read_only: value, ..old(self)@ }),
    {
        self.read_only = value;
    }

    /// The styles of the buffer.
    pub fn styles(&self) -> (styles: &StyleMap)
        ensures
            styles@ == self@.styles,
    {
        &self.styles
    }

    /// Adds a style behind those that are there.
    pub fn add_style(&mut self, range: Range<usize>, style: Style)
        ensures
            final(self)@ == (BufferView {
                styles: old(self)@.styles.push(StyleSpan { range, style }),
                ..old(self)@
            }),
    {
        self.styles.add_span(range, style);
    }

    /// The number of characters.
    pub fn len_chars(&self) -> (n: usize)
        ensures
            n == self@.text.len(),
    {
        rope_len_chars(&self.text)
    }

    /// The number of lines, which is at least one.
    pub fn len_lines(&self) -> (n: usize)
        ensures
            n == rope_line_count(self@.text),
            n >= 1,
    {
        rope_len_lines(&self.text)
    }

    /// The line that holds the character position `char_idx`, which must not
    /// lie behind the end of the text.
    pub fn char_to_line(&self, char_idx: usize) -> (line: usize)
        requires
            char_idx <= self@.text.len(),
        ensures
            line == rope_line_of_char(self@.text, char_idx as int),
            line < rope_line_count(self@.text),
    {
        rope_char_to_line(&self.text, char_idx)
    }

    /// The position of the first character of the line `line_idx`, which
    /// must not exceed the number of lines.
    pub fn line_to_char(&self, line_idx: usize) -> (char_idx: usize)
        requires
            line_idx <= rope_line_count(self@.text),
        ensures
            char_idx == rope_char_of_line(self@.text, line_idx as int),
            line_idx == rope_line_count(self@.text) ==> char_idx == self@.text.len(),
    {
        rope_line_to_char(&self.text, line_idx)
    }

    /// The line that holds the character position `char_idx`, or `None`
    /// where that lies behind the end of the text.
    pub fn line_of(&self, char_idx: usize) -> (line: Option<usize>)
        ensures
            line is Some <==> char_idx <= self@.text.len(),
            line is Some ==> line->0 == rope_line_of_char(self@.text, char_idx as int),
    {
        if char_idx <= self.len_chars() {
            Some(self.char_to_line(char_idx))
        } else {
            None
        }
    }

    /// The position of the first character of the line `line_idx`, or `None`
    /// where there are fewer lines.
    pub fn line_start(&self, line_idx: usize) -> (char_idx: Option<usize>)
        ensures
            char_idx is Some <==> line_idx <= rope_line_count(self@.text),
            char_idx is Some ==> char_idx->0 == rope_char_of_line(self@.text, line_idx as int),
    {
        if line_idx <= self.len_lines() {
            Some(self.line_to_char(line_idx))
        } else {
            None
        }
    }

    /// The whole text.
    pub fn to_string(&self) -> (s: String)
        ensures
            s@ == self@.text,
    {
        rope_to_string(&self.text)
    }
}

impl Clone for Buffer {
    /// A second buffer with the same text, version, name and styles.
    fn clone(&self) -> (copy: Self)
        ensures
            copy@ == self@,
    {
        let path = match &self.path {
            Some(p) => Some(p.clone()),
            None => None,
        };
        Buffer {
            text: rope_clone(&self.text),
            version: self.version,
            name: self.name.clone(),
            path,
            modified: self.modified,
            read_only: self.read_only,
            encoding: self.encoding,
            line_ending: self.line_ending,
            styles: self.styles.clone(),
        }
    }
}

// ---------------------------------------------------------------------------
// The buffers of one editor
// ---------------------------------------------------------------------------

/// The buffers of one editor, each under an identifier of its own.
pub struct EditorState {
    buffers: StringHashMap<Buffer>,
}

impl EditorState {
    /// The buffers, by identifier.
    pub closed spec fn buffers(&self) -> Map<Seq<char>, Buffer> {
        self.buffers@
    }

    /// An editor without buffers.
    pub fn new() -> (state: Self)
        ensures
            state.buffers() == Map::<Seq<char>, Buffer>::empty(),
    {
        EditorState { buffers: StringHashMap::new() }
    }

    /// Files `buffer` under `id`, in place of whatever was there.
    pub fn insert_buffer(&mut self, id: String, buffer: Buffer)
        ensures
            final(self).buffers() == old(self).buffers().insert(id@, buffer),
    {
        self.buffers.insert(id, buffer);
    }

    /// Makes a buffer named `name` that holds `text` and files it under a
    /// fresh identifier, which is returned. Every other identifier keeps what
    /// it had.
    pub fn create_buffer(&mut self, name: String, text: &str) -> (id: String)
        ensures
            is_uuid_text(id@),
            final(self).buffers().contains_key(id@),
            final(self).buffers()[id@]@.text == text@,
            final(self).buffers()[id@]@.name == name@,
            final(self).buffers()[id@]@.version == 0,
            final(self).buffers() == old(self).buffers().insert(id@, final(self).buffers()[id@]),
    {
        let buffer = Buffer::new(name, text);
        let id = fresh_uuid();
        self.insert_buffer(id.clone(), buffer);
        id
    }

    /// The buffer filed under `id`, if there is one.
    pub fn get_buffer(&self, id: &str) -> (buffer: Option<&Buffer>)
        ensures
            buffer is Some <==> self.buffers().contains_key(id@),
            buffer is Some ==> *buffer->0 == self.buffers()[id@],
    {
        self.buffers.get(id)
    }
}

impl Default for EditorState {
    fn default() -> (state: Self)
        ensures
            state.buffers() == Map::<Seq<char>, Buffer>::empty(),
    {
        EditorState::new()
    }
}

} // verus!
