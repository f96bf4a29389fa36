//! What the preview of a text file shows: its lines laid out by the kind of
//! file, a summary of its size, and the short excerpt shown in a post's row.

use vstd::prelude::*;

use crate::text::str_equal;
use crate::types::{File, FileType};

verus! {

/// The line `p` without the carriage return that ends it, if any.
pub open spec fn strip_cr(p: Seq<char>) -> Seq<char> {
    if p.len() > 0 && p.last() == '\r' {
        p.drop_last()
    } else {
        p
    }
}

/// The position of the first newline of `s` at or after `from`, or the
/// length of `s` when there is none.
pub open spec fn next_newline(s: Seq<char>, from: int) -> int
    decreases s.len() - from,
{
    if from >= s.len() {
        s.len() as int
    } else if s[from] == '\n' {
        from
    } else {
        next_newline(s, from + 1)
    }
}

/// The first newline at or after `from` lies between `from` and the end,
/// and none comes before it.
pub proof fn lemma_next_newline(s: Seq<char>, from: int)
    requires
        0 <= from <= s.len(),
    ensures
        from <= next_newline(s, from) <= s.len(),
        next_newline(s, from) < s.len() ==> s[next_newline(s, from)] == '\n',
        forall|k: int| from <= k < next_newline(s, from) ==> s[k] != '\n',
    decreases s.len() - from,
{
    if from < s.len() && s[from] != '\n' {
        lemma_next_newline(s, from + 1);
    }
}

/// The lines of `s` from position `from` on, as `str::lines` gives them:
/// split at each newline, a carriage return before a newline dropped, and
/// no empty line after a final newline.
pub open spec fn lines_from(s: Seq<char>, from: int) -> Seq<Seq<char>>
    decreases s.len() - from,
{
    if from < 0 || from >= s.len() {
        Seq::empty()
    } else {
        let e = next_newline(s, from);
        proof {
            lemma_next_newline(s, from);
        }
        if e >= s.len() {
            seq![s.subrange(from, s.len() as int)]
        } else {
            seq![strip_cr(s.subrange(from, e))] + lines_from(s, e + 1)
        }
    }
}

/// The lines of `s`, as `str::lines` gives them.
pub open spec fn text_lines(s: Seq<char>) -> Seq<Seq<char>> {
    lines_from(s, 0)
}

/// The texts of a sequence of strings.
pub open spec fn string_views(v: Seq<String>) -> Seq<Seq<char>> {
    v.map_values(|s: String| s@)
}

/// The first newline of `text` at or after `from`.
fn find_newline(text: &str, from: usize, n: usize) -> (r: usize)
    requires
        n == text@.len(),
        from <= n,
    ensures
        r == next_newline(text@, from as int),
{
    let mut i = from;
    while i < n
        invariant
            from <= i <= n,
            n == text@.len(),
            next_newline(text@, i as int) == next_newline(text@, from as int),
        decreases n - i,
    {
        if text.get_char(i) == '\n' {
            return i;
        }
        i = i + 1;
    }
    i
}

/// The lines of `text`, as `str::lines` gives them.
pub fn lines_of(text: &str) -> (r: Vec<String>)
    ensures
        string_views(r@) == text_lines(text@),
{
    let n = text.unicode_len();
    let ghost s = text@;
    let mut out: Vec<String> = Vec::new();
    let mut from: usize = 0;
    while from < n
        invariant
            n == s.len(),
            s == text@,
            from <= n,
            string_views(out@) + lines_from(s, from as int) == text_lines(s),
        decreases n - from,
    {
        let e = find_newline(text, from, n);
        proof {
            lemma_next_newline(s, from as int);
        }
        if e >= n {
            let line = String::from_str(text.substring_char(from, n));
            let ghost before = string_views(out@);
            out.push(line);
            proof {
                assert(string_views(out@) =~= before.push(line@));
                assert(lines_from(s, n as int) =~= Seq::<Seq<char>>::empty());
                assert(before + lines_from(s, from as int) =~= string_views(out@) + lines_from(s, n as int));
            }
            from = n;
        } else {
            let end = if e > from && text.get_char(e - 1) == '\r' { e - 1 } else { e };
            let line = String::from_str(text.substring_char(from, end));
            proof {
                let p = s.subrange(from as int, e as int);
                assert(line@ =~= strip_cr(p));
            }
            let ghost before = string_views(out@);
            out.push(line);
            proof {
                assert(string_views(out@) =~= before.push(line@));
                assert(before + lines_from(s, from as int) =~= string_views(out@) + lines_from(s, e + 1));
            }
            from = e + 1;
        }
    }
    proof {
        assert(lines_from(s, from as int) =~= Seq::<Seq<char>>::empty());
        assert(string_views(out@) =~= string_views(out@) + lines_from(s, from as int));
    }
    out
}

/// The text that serde_json's pretty printer gives for the JSON value
/// that `text` holds, or none when `text` is not JSON.
pub uninterp spec fn json_pretty(text: Seq<char>) -> Option<Seq<char>>;

/// serde_json's `from_str::<Value>` of `text`, then `to_string_pretty` of
/// the value.
///
/// Trusted: the result is named by `json_pretty`; it depends on the text
/// alone, since the parsed value's objects keep a fixed key order.  A text
/// that does not parse gives `None`; printing a parsed value does not fail.
#[verifier::external_body]
fn pretty_json(text: &str) -> (r: Option<String>)
    ensures
        match r {
            Some(p) => json_pretty(text@) == Some(p@),
            None => json_pretty(text@) is None,
        },
{
    match serde_json::from_str::<serde_json::Value>(text) {
        Ok(v) => serde_json::to_string_pretty(&v).ok(),
        Err(_) => None,
    }
}

/// `s` begins with `prefix`.
pub open spec fn starts_with(s: Seq<char>, prefix: Seq<char>) -> bool {
    prefix.len() <= s.len() && s.subrange(0, prefix.len() as int) == prefix
}

/// `s` ends with `suffix`.
pub open spec fn ends_with(s: Seq<char>, suffix: Seq<char>) -> bool {
    suffix.len() <= s.len() && s.subrange(s.len() - suffix.len(), s.len() as int) == suffix
}

/// Whether `s` begins with `prefix`.
fn has_prefix(s: &str, prefix: &str) -> (r: bool)
    ensures
        r == starts_with(s@, prefix@),
{
    let n = s.unicode_len();
    let k = prefix.unicode_len();
    if k > n {
        return false;
    }
    str_equal(s.substring_char(0, k), prefix)
}

/// Whether `s` ends with `suffix`.
fn has_suffix(s: &str, suffix: &str) -> (r: bool)
    ensures
        r == ends_with(s@, suffix@),
{
    let n = s.unicode_len();
    let k = suffix.unicode_len();
    if k > n {
        return false;
    }
    str_equal(s.substring_char(n - k, n), suffix)
}

/// Unicode white space, as `char::is_whitespace` reads it.
pub open spec fn is_white(c: char) -> bool {
    let u = c as u32;
    ||| 0x9 <= u <= 0xd
    ||| u == 0x20 || u == 0x85 || u == 0xa0 || u == 0x1680
    ||| 0x2000 <= u <= 0x200a
    ||| u == 0x2028 || u == 0x2029 || u == 0x202f || u == 0x205f || u == 0x3000
}

/// The line holds nothing but white space, so `trim` leaves it empty.
pub open spec fn blank(line: Seq<char>) -> bool {
    forall|i: int| 0 <= i < line.len() ==> is_white(#[trigger] line[i])
}

/// Whether `c` is white space.
fn white(c: char) -> (r: bool)
    ensures
        r == is_white(c),
{
    let u = c as u32;
    (0x9 <= u && u <= 0xd) || u == 0x20 || u == 0x85 || u == 0xa0 || u == 0x1680
        || (0x2000 <= u && u <= 0x200a)
        || u == 0x2028 || u == 0x2029 || u == 0x202f || u == 0x205f || u == 0x3000
}

/// Whether `line` holds nothing but white space.
fn is_blank(line: &str) -> (r: bool)
    ensures
        r == blank(line@),
{
    let n = line.unicode_len();
    let mut i: usize = 0;
    while i < n
        invariant
            i <= n,
            n == line@.len(),
            forall|k: int| 0 <= k < i ==> is_white(#[trigger] line@[k]),
        decreases n - i,
    {
        if !white(line.get_char(i)) {
            return false;
        }
        i = i + 1;
    }
    true
}

/// One line of a preview, as it is shown.
#[derive(Debug, Clone, PartialEq, Eq)]
pub enum PreviewLine {
    /// A heading: a Markdown line after "# ".
    Heading(String),
    /// Bold text: a Markdown line after "## ".
    Strong(String),
    /// A bullet: a Markdown line after "- " or "* ".
    Bullet(String),
    /// An empty space: a blank Markdown line.
    Space,
    /// Plain text.
    Text(String),
    /// A line of code with its number, from 1.
    Numbered(usize, String),
}

/// The mathematical value of a [`PreviewLine`].
pub enum PreviewLineV {
    Heading(Seq<char>),
    Strong(Seq<char>),
    Bullet(Seq<char>),
    Space,
    Text(Seq<char>),
    Numbered(nat, Seq<char>),
}

impl View for PreviewLine {
    type V = PreviewLineV;

    open spec fn view(&self) -> PreviewLineV {
        match self {
            PreviewLine::Heading(t) => PreviewLineV::Heading(t@),
            PreviewLine::Strong(t) => PreviewLineV::Strong(t@),
            PreviewLine::Bullet(t) => PreviewLineV::Bullet(t@),
            PreviewLine::Space => PreviewLineV::Space,
            PreviewLine::Text(t) => PreviewLineV::Text(t@),
            PreviewLine::Numbered(n, t) => PreviewLineV::Numbered(*n as nat, t@),
        }
    }
}

/// The views of a sequence of preview lines.
pub open spec fn preview_views(v: Seq<PreviewLine>) -> Seq<PreviewLineV> {
    v.map_values(|l: PreviewLine| l@)
}

/// How a Markdown line is shown.
pub open spec fn markdown_line(line: Seq<char>) -> PreviewLineV {
    if starts_with(line, "# "@) {
        PreviewLineV::Heading(line.skip(2))
    } else if starts_with(line, "## "@) {
        PreviewLineV::Strong(line.skip(3))
    } else if starts_with(line, "- "@) || starts_with(line, "* "@) {
        PreviewLineV::Bullet(line.skip(2))
    } else if blank(line) {
        PreviewLineV::Space
    } else {
        PreviewLineV::Text(line)
    }
}

/// The file is shown as JSON.
pub open spec fn is_json_name(name: Seq<char>) -> bool {
    ends_with(name, ".json"@)
}

/// The file is shown as Markdown.
pub open spec fn is_markdown_name(name: Seq<char>) -> bool {
    ends_with(name, ".md"@) || ends_with(name, ".markdown"@)
}

/// The file is shown as code, with numbered lines.
pub open spec fn is_code_name(name: Seq<char>) -> bool {
    ||| ends_with(name, ".rs"@) || ends_with(name, ".py"@) || ends_with(name, ".js"@)
    ||| ends_with(name, ".ts"@) || ends_with(name, ".c"@) || ends_with(name, ".cpp"@)
}

/// The preview of the text file `name` holding `text`, given what the
/// JSON pretty printer makes of the text: JSON files pretty printed when
/// they parse, Markdown files line by line by their prefixes, code files
/// with numbered lines, and any other file as its text.
pub open spec fn spec_preview_lines(name: Seq<char>, text: Seq<char>, pretty: Option<Seq<char>>) -> Seq<PreviewLineV> {
    if is_json_name(name) {
        match pretty {
            Some(p) => seq![PreviewLineV::Text(p)],
            None => seq![PreviewLineV::Text(text)],
        }
    } else if is_markdown_name(name) {
        text_lines(text).map_values(|l: Seq<char>| markdown_line(l))
    } else if is_code_name(name) {
        Seq::new(text_lines(text).len(), |i: int| PreviewLineV::Numbered((i + 1) as nat, text_lines(text)[i]))
    } else {
        seq![PreviewLineV::Text(text)]
    }
}

/// How a Markdown line is shown.
fn markdown_preview_line(line: &str) -> (r: PreviewLine)
    ensures
        r@ == markdown_line(line@),
{
    let n = line.unicode_len();
    if has_prefix(line, "# ") {
        proof { reveal_strlit("# "); }
        PreviewLine::Heading(String::from_str(line.substring_char(2, n)))
    } else if has_prefix(line, "## ") {
        proof { reveal_strlit("## "); }
        PreviewLine::Strong(String::from_str(line.substring_char(3, n)))
    } else if has_prefix(line, "- ") || has_prefix(line, "* ") {
        proof { reveal_strlit("- "); reveal_strlit("* "); }
        PreviewLine::Bullet(String::from_str(line.substring_char(2, n)))
    } else if is_blank(line) {
        PreviewLine::Space
    } else {
        PreviewLine::Text(String::from_str(line))
    }
}

/// Whether the file `name` is shown as code.
fn code_name(name: &str) -> (r: bool)
    ensures
        r == is_code_name(name@),
{
    has_suffix(name, ".rs") || has_suffix(name, ".py") || has_suffix(name, ".js")
        || has_suffix(name, ".ts") || has_suffix(name, ".c") || has_suffix(name, ".cpp")
}

/// The lines that the preview of the text file `name` holding `text`
/// shows.
pub fn preview_lines(name: &str, text: &str) -> (r: Vec<PreviewLine>)
    ensures
        preview_views(r@) == spec_preview_lines(name@, text@, json_pretty(text@)),
{
    let mut out: Vec<PreviewLine> = Vec::new();
    if has_suffix(name, ".json") {
        match pretty_json(text) {
            Some(p) => out.push(PreviewLine::Text(p)),
            None => out.push(PreviewLine::Text(String::from_str(text))),
        }
        proof { assert(preview_views(out@) =~= spec_preview_lines(name@, text@, json_pretty(text@))); }
        return out;
    }
    if !has_suffix(name, ".md") && !has_suffix(name, ".markdown") && !code_name(name) {
        out.push(PreviewLine::Text(String::from_str(text)));
        proof { assert(preview_views(out@) =~= spec_preview_lines(name@, text@, json_pretty(text@))); }
        return out;
    }
    let markdown = has_suffix(name, ".md") || has_suffix(name, ".markdown");
    let lines = lines_of(text);
    let ghost ls = text_lines(text@);
    let mut i: usize = 0;
    while i < lines.len()
        invariant
            i <= lines@.len(),
            string_views(lines@) == ls,
            out@.len() == i,
            forall|k: int| 0 <= k < i ==> (#[trigger] preview_views(out@)[k]) == (if markdown { markdown_line(ls[k]) }
                else { PreviewLineV::Numbered((k + 1) as nat, ls[k]) }),
        decreases lines@.len() - i,
    {
        assert(lines@[i as int]@ == ls[i as int]);
        let l = if markdown {
            markdown_preview_line(lines[i].as_str())
        } else {
            PreviewLine::Numbered(i + 1, lines[i].clone())
        };
        let ghost before = out@;
        let ghost lv = l@;
        assert(lv == (if markdown { markdown_line(ls[i as int]) } else { PreviewLineV::Numbered((i + 1) as nat, ls[i as int]) }));
        out.push(l);
        proof {
            assert forall|k: int| 0 <= k < i + 1 implies (#[trigger] preview_views(out@)[k]) == (if markdown { markdown_line(ls[k]) }
                else { PreviewLineV::Numbered((k + 1) as nat, ls[k]) }) by {
                assert(preview_views(out@)[k] == out@[k]@);
                if k < i {
                    assert(out@[k] == before[k]);
                    assert(preview_views(before)[k] == before[k]@);
                } else {
                    assert(out@[k]@ == lv);
                }
            }
        }
        i = i + 1;
    }
    proof { assert(preview_views(out@) =~= spec_preview_lines(name@, text@, json_pretty(text@))); }
    out
}

/// The size of a text file as the preview's header gives it: its lines,
/// and its length in bytes, shown both as the characters and the bytes
/// (the preview counts the characters with `str::len`, which counts bytes).
pub struct TextSummary {
    pub lines: usize,
    pub characters: usize,
    pub bytes: usize,
}

/// The header of the preview of `text`.
pub fn text_summary(text: &str) -> (r: TextSummary)
    ensures
        r.lines == text_lines(text@).len(),
        r.characters == vstd::utf8::encode_utf8(text@).len() as usize,
        r.bytes == vstd::utf8::encode_utf8(text@).len() as usize,
{
    let lines = lines_of(text);
    proof {
        assert(string_views(lines@).len() == lines@.len());
    }
    TextSummary { lines: lines.len(), characters: text.len(), bytes: text.len() }
}

/// The lines of `s` joined by newlines.
pub open spec fn join_lines(s: Seq<Seq<char>>) -> Seq<char>
    decreases s.len(),
{
    if s.len() == 0 {
        Seq::empty()
    } else if s.len() == 1 {
        s[0]
    } else {
        join_lines(s.drop_last()) + "\n"@ + s.last()
    }
}

/// The excerpt of a text file shown in a post's row: its first three
/// lines, followed by a line "..." when it has more.
pub open spec fn excerpt(text: Seq<char>) -> Seq<char> {
    let ls = text_lines(text);
    if ls.len() <= 3 {
        join_lines(ls)
    } else {
        join_lines(ls.take(3)) + "\n..."@
    }
}

/// The excerpt of `text` shown in a post's row.
pub fn row_excerpt(text: &str) -> (r: String)
    ensures
        r@ == excerpt(text@),
{
    let lines = lines_of(text);
    let ghost ls = text_lines(text@);
    let m = if lines.len() <= 3 { lines.len() } else { 3 };
    proof {
        assert(string_views(lines@).len() == lines@.len());
    }
    let mut out = String::new();
    let mut i: usize = 0;
    assert(ls.take(0) =~= Seq::<Seq<char>>::empty());
    while i < m
        invariant
            i <= m <= lines@.len(),
            m <= 3,
            string_views(lines@) == ls,
            out@ == join_lines(ls.take(i as int)),
        decreases m - i,
    {
        assert(lines@[i as int]@ == ls[i as int]);
        let ghost prev = out@;
        if i > 0 {
            out.append("\n");
        }
        out.append(lines[i].as_str());
        proof {
            reveal_strlit("\n");
            assert(ls.take(i + 1).drop_last() =~= ls.take(i as int));
            if i == 0 {
                assert(out@ =~= ls[0]);
            } else {
                assert(out@ =~= prev + "\n"@ + ls[i as int]);
            }
        }
        i = i + 1;
    }
    if lines.len() > 3 {
        out.append("\n...");
    } else {
        assert(ls.take(m as int) =~= ls);
    }
    out
}

/// The preview of a file: for a text file, its header and its lines;
/// other files have no text preview.
pub fn text_preview(file: &File) -> (r: Option<(TextSummary, Vec<PreviewLine>)>)
    ensures
        match file.ftype {
            FileType::Text(t) => r matches Some(p) && p.0.lines == text_lines(t@).len()
                && p.0.bytes == vstd::utf8::encode_utf8(t@).len() as usize
                && p.0.characters == p.0.bytes
                && preview_views(p.1@) == spec_preview_lines(file.name@, t@, json_pretty(t@)),
            _ => r is None,
        },
{
    match &file.ftype {
        FileType::Text(t) => Some((text_summary(t.as_str()), preview_lines(file.name.as_str(), t.as_str()))),
        _ => None,
    }
}

/// An ASCII letter or digit.
pub open spec fn ascii_alphanumeric(c: char) -> bool {
    let u = c as u32;
    (0x30 <= u <= 0x39) || (0x41 <= u <= 0x5a) || (0x61 <= u <= 0x7a)
}

/// A name that ends with `suffix` ends with its last character.
proof fn lemma_last_char(name: Seq<char>, suffix: Seq<char>)
    requires
        suffix.len() > 0,
        ends_with(name, suffix),
    ensures
        name.last() == suffix.last(),
{
    assert(name.subrange(name.len() - suffix.len(), name.len() as int)[suffix.len() - 1] == name.last());
}

/// A name that ends with `suffix` does not end with `other` when their
/// last characters differ.
proof fn lemma_not_ends_with(name: Seq<char>, suffix: Seq<char>, other: Seq<char>)
    requires
        suffix.len() > 0,
        other.len() > 0,
        ends_with(name, suffix),
        suffix.last() != other.last(),
    ensures
        !ends_with(name, other),
{
    lemma_last_char(name, suffix);
    if ends_with(name, other) {
        lemma_last_char(name, other);
    }
}

/// The names of JSON and Markdown files end with 'n' or 'd'.
proof fn lemma_not_json_or_markdown(name: Seq<char>)
    requires
        name.len() > 0,
        name.last() != 'n',
        name.last() != 'd',
    ensures
        !is_json_name(name),
        !is_markdown_name(name),
{
    reveal_strlit(".json");
    reveal_strlit(".md");
    reveal_strlit(".markdown");
    if ends_with(name, ".json"@) {
        lemma_last_char(name, ".json"@);
    }
    if ends_with(name, ".md"@) {
        lemma_last_char(name, ".md"@);
    }
    if ends_with(name, ".markdown"@) {
        lemma_last_char(name, ".markdown"@);
    }
}

/// A code file, whose name ends with ".rs", ".py", ".js", ".ts", ".c" or
/// ".cpp", is previewed as its lines, each numbered from 1 in order.
pub proof fn law_code_files_are_numbered(name: Seq<char>, text: Seq<char>, pretty: Option<Seq<char>>)
    requires
        ends_with(name, ".rs"@) || ends_with(name, ".py"@) || ends_with(name, ".js"@)
            || ends_with(name, ".ts"@) || ends_with(name, ".c"@) || ends_with(name, ".cpp"@),
    ensures
        spec_preview_lines(name, text, pretty).len() == text_lines(text).len(),
        forall|i: int| 0 <= i < text_lines(text).len() ==>
            #[trigger] spec_preview_lines(name, text, pretty)[i] == PreviewLineV::Numbered((i + 1) as nat, text_lines(text)[i]),
{
    reveal_strlit(".rs");
    reveal_strlit(".py");
    reveal_strlit(".js");
    reveal_strlit(".ts");
    reveal_strlit(".c");
    reveal_strlit(".cpp");
    if ends_with(name, ".rs"@) {
        lemma_last_char(name, ".rs"@);
    } else if ends_with(name, ".py"@) {
        lemma_last_char(name, ".py"@);
    } else if ends_with(name, ".js"@) {
        lemma_last_char(name, ".js"@);
    } else if ends_with(name, ".ts"@) {
        lemma_last_char(name, ".ts"@);
    } else if ends_with(name, ".c"@) {
        lemma_last_char(name, ".c"@);
    } else {
        lemma_last_char(name, ".cpp"@);
    }
    lemma_not_json_or_markdown(name);
    assert(is_code_name(name));
}

/// A JSON file, whose name ends with ".json", is previewed as one block:
/// the pretty printed JSON when the text parses, and the text itself
/// otherwise.
pub proof fn law_json_files_are_pretty_printed(name: Seq<char>, text: Seq<char>, pretty: Option<Seq<char>>)
    requires
        ends_with(name, ".json"@),
    ensures
        spec_preview_lines(name, text, pretty) == (match pretty {
            Some(p) => seq![PreviewLineV::Text(p)],
            None => seq![PreviewLineV::Text(text)],
        }),
{
}

/// A Markdown file, whose name ends with ".md" or ".markdown", is
/// previewed line by line: "# x" is the heading x, "## x" the bold text x,
/// "- x" and "* x" the bullet x, a line of spaces and tabs an empty space,
/// and a line that begins with a letter or a digit is shown as it is.
pub proof fn law_markdown_files_by_prefix(name: Seq<char>, text: Seq<char>, pretty: Option<Seq<char>>, i: int, x: Seq<char>)
    requires
        ends_with(name, ".md"@) || ends_with(name, ".markdown"@),
        0 <= i < text_lines(text).len(),
    ensures
        spec_preview_lines(name, text, pretty).len() == text_lines(text).len(),
        text_lines(text)[i] == "# "@ + x ==> spec_preview_lines(name, text, pretty)[i] == PreviewLineV::Heading(x),
        text_lines(text)[i] == "## "@ + x ==> spec_preview_lines(name, text, pretty)[i] == PreviewLineV::Strong(x),
        text_lines(text)[i] == "- "@ + x ==> spec_preview_lines(name, text, pretty)[i] == PreviewLineV::Bullet(x),
        text_lines(text)[i] == "* "@ + x ==> spec_preview_lines(name, text, pretty)[i] == PreviewLineV::Bullet(x),
        (forall|k: int| 0 <= k < text_lines(text)[i].len() ==> #[trigger] text_lines(text)[i][k] == ' ' || text_lines(text)[i][k] == '\t')
            ==> spec_preview_lines(name, text, pretty)[i] == PreviewLineV::Space,
        (text_lines(text)[i].len() > 0 && ascii_alphanumeric(text_lines(text)[i][0]))
            ==> spec_preview_lines(name, text, pretty)[i] == PreviewLineV::Text(text_lines(text)[i]),
{
    reveal_strlit(".json");
    reveal_strlit(".md");
    reveal_strlit(".markdown");
    reveal_strlit("# ");
    reveal_strlit("## ");
    reveal_strlit("- ");
    reveal_strlit("* ");
    if ends_with(name, ".md"@) {
        lemma_not_ends_with(name, ".md"@, ".json"@);
    } else if ends_with(name, ".json"@) {
        let n = name.len();
        assert(name.subrange(n - 9, n as int)[7] == name[n - 2]);
        assert(name.subrange(n - 5, n as int)[3] == name[n - 2]);
    }
    let l = text_lines(text)[i];
    assert(spec_preview_lines(name, text, pretty)[i] == markdown_line(l));
    if l == "# "@ + x {
        assert(l.subrange(0, 2) =~= "# "@);
        assert(l.skip(2) =~= x);
    }
    if l == "## "@ + x {
        assert(l.subrange(0, 3) =~= "## "@);
        assert(l.skip(3) =~= x);
        assert(l[1] != ' ');
    }
    if l == "- "@ + x {
        assert(l.subrange(0, 2) =~= "- "@);
        assert(l.skip(2) =~= x);
        assert(l[0] != '#');
    }
    if l == "* "@ + x {
        assert(l.subrange(0, 2) =~= "* "@);
        assert(l.skip(2) =~= x);
        assert(l[0] != '#' && l[0] != '-');
    }
    if forall|k: int| 0 <= k < l.len() ==> #[trigger] l[k] == ' ' || l[k] == '\t' {
        if l.len() >= 2 {
            assert(l[0] == ' ' || l[0] == '\t');
            assert(l.subrange(0, 2)[0] == l[0]);
        }
        if l.len() >= 3 {
            assert(l.subrange(0, 3)[0] == l[0]);
        }
        assert forall|k: int| 0 <= k < l.len() implies is_white(#[trigger] l[k]) by {
            assert(l[k] == ' ' || l[k] == '\t');
        }
    }
    if l.len() > 0 && ascii_alphanumeric(l[0]) {
        if l.len() >= 2 {
            assert(l.subrange(0, 2)[0] == l[0]);
        }
        if l.len() >= 3 {
            assert(l.subrange(0, 3)[0] == l[0]);
        }
        assert(!is_white(l[0]));
    }
}

/// Any other file is previewed as its text, in one block.
pub proof fn law_other_files_are_plain(name: Seq<char>, text: Seq<char>, pretty: Option<Seq<char>>)
    requires
        !ends_with(name, ".json"@),
        !ends_with(name, ".md"@),
        !ends_with(name, ".markdown"@),
        !ends_with(name, ".rs"@),
        !ends_with(name, ".py"@),
        !ends_with(name, ".js"@),
        !ends_with(name, ".ts"@),
        !ends_with(name, ".c"@),
        !ends_with(name, ".cpp"@),
    ensures
        spec_preview_lines(name, text, pretty) == seq![PreviewLineV::Text(text)],
{
}

/// The first newline at or after `from` is at `k` when `s` has one there
/// and none between.
proof fn lemma_next_newline_at(s: Seq<char>, from: int, k: int)
    requires
        0 <= from <= k <= s.len(),
        k < s.len() ==> s[k] == '\n',
        forall|i: int| from <= i < k ==> s[i] != '\n',
    ensures
        next_newline(s, from) == k,
    decreases k - from,
{
    if from < k {
        lemma_next_newline_at(s, from + 1, k);
    }
}

/// Searching `p + b` after `p` is searching `b`.
proof fn lemma_next_newline_shift(p: Seq<char>, b: Seq<char>, j: int)
    requires
        0 <= j <= b.len(),
    ensures
        next_newline(p + b, p.len() + j) == p.len() + next_newline(b, j),
    decreases b.len() - j,
{
    let s = p + b;
    if j < b.len() {
        assert(s[p.len() + j] == b[j]);
        if b[j] != '\n' {
            lemma_next_newline_shift(p, b, j + 1);
        }
    }
}

/// The lines of `p + b` after `p` are the lines of `b`.
proof fn lemma_lines_shift(p: Seq<char>, b: Seq<char>, j: int)
    requires
        0 <= j <= b.len(),
    ensures
        lines_from(p + b, p.len() + j) == lines_from(b, j),
    decreases b.len() - j,
{
    let s = p + b;
    if j < b.len() {
        lemma_next_newline_shift(p, b, j);
        lemma_next_newline(b, j);
        let e = next_newline(b, j);
        if e >= b.len() {
            assert(s.subrange(p.len() + j, s.len() as int) =~= b.subrange(j, b.len() as int));
        } else {
            assert(s.subrange(p.len() + j, p.len() + e) =~= b.subrange(j, e));
            lemma_lines_shift(p, b, e + 1);
        }
    }
}

/// An empty text has no lines.
pub proof fn law_empty_text_has_no_lines()
    ensures
        text_lines(Seq::<char>::empty()) == Seq::<Seq<char>>::empty(),
{
}

/// A text without a newline is one line, as it is.
pub proof fn law_text_without_newline_is_one_line(a: Seq<char>)
    requires
        a.len() > 0,
        forall|i: int| 0 <= i < a.len() ==> a[i] != '\n',
    ensures
        text_lines(a) == seq![a],
{
    lemma_next_newline_at(a, 0, a.len() as int);
    assert(a.subrange(0, a.len() as int) =~= a);
}

/// A text that starts with a line `a` ended by a newline has `a` as its
/// first line, and the lines of the rest after it; a carriage return before
/// the newline is not part of the line.
pub proof fn law_lines_split_at_newline(a: Seq<char>, b: Seq<char>)
    requires
        forall|i: int| 0 <= i < a.len() ==> a[i] != '\n',
    ensures
        (a.len() == 0 || a.last() != '\r') ==> text_lines(a + "\n"@ + b) == seq![a] + text_lines(b),
        text_lines(a + "\r\n"@ + b) == seq![a] + text_lines(b),
{
    reveal_strlit("\n");
    reveal_strlit("\r\n");
    let s = a + "\n"@ + b;
    assert(s[a.len() as int] == '\n');
    lemma_next_newline_at(s, 0, a.len() as int);
    assert(s.subrange(0, a.len() as int) =~= a);
    assert(s =~= (a + "\n"@) + b);
    lemma_lines_shift(a + "\n"@, b, 0);
    if a.len() == 0 || a.last() != '\r' {
        assert(text_lines(s) =~= seq![a] + text_lines(b));
    }
    let t = a + "\r\n"@ + b;
    assert(t[a.len() as int + 1] == '\n');
    assert(t[a.len() as int] == '\r');
    lemma_next_newline_at(t, 0, a.len() as int + 1);
    assert(t.subrange(0, a.len() as int + 1) =~= a.push('\r'));
    assert(a.push('\r').drop_last() =~= a);
    assert(t =~= (a + "\r\n"@) + b);
    lemma_lines_shift(a + "\r\n"@, b, 0);
    assert(text_lines(t) =~= seq![a] + text_lines(b));
}

/// The excerpt in a post's row is the first three lines joined by
/// newlines, followed by a line "..." when the text has more lines; a text
/// of fewer lines is shown whole, line by line.
#[verifier::spinoff_prover]
pub proof fn law_excerpt_first_three_lines(text: Seq<char>)
    ensures
        text_lines(text).len() == 0 ==> excerpt(text) == Seq::<char>::empty(),
        text_lines(text).len() == 1 ==> excerpt(text) == text_lines(text)[0],
        text_lines(text).len() == 2 ==> excerpt(text) == text_lines(text)[0] + "\n"@ + text_lines(text)[1],
        text_lines(text).len() >= 3 ==> {
            let head = text_lines(text)[0] + "\n"@ + text_lines(text)[1] + "\n"@ + text_lines(text)[2];
            excerpt(text) == if text_lines(text).len() == 3 { head } else { head + "\n..."@ }
        },
{
    let ls = text_lines(text);
    if ls.len() >= 1 {
        assert(ls.take(1).drop_last() =~= Seq::<Seq<char>>::empty());
    }
    if ls.len() >= 2 {
        assert(ls.take(2).drop_last() =~= ls.take(1));
    }
    if ls.len() >= 3 {
        assert(ls.take(3).drop_last() =~= ls.take(2));
        assert(join_lines(ls.take(1)) == ls[0]);
        assert(join_lines(ls.take(2)) == ls[0] + "\n"@ + ls[1]);
        assert(join_lines(ls.take(3)) == ls[0] + "\n"@ + ls[1] + "\n"@ + ls[2]);
        if ls.len() == 3 {
            assert(ls.take(3) =~= ls);
        }
    }
    if ls.len() == 2 {
        assert(ls.drop_last() =~= seq![ls[0]]);
        assert(join_lines(seq![ls[0]]) == ls[0]);
        assert(join_lines(ls) == join_lines(ls.drop_last()) + "\n"@ + ls.last());
        assert(excerpt(text) == join_lines(ls));
    }
    if ls.len() == 1 {
        assert(excerpt(text) == join_lines(ls));
    }
}

} // verus!
