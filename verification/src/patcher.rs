//! The source patcher: it brings commented diagnostic calls back to life
//! and makes the diagnostics library available to the compiler.
//!
//! A source text is read line by line, and its start is the start of its
//! first line. A line that begins with blanks, the comment marker `//`,
//! blanks again and the call `console.log` loses its comment marker; every
//! other line stays as it is.

use vstd::prelude::*;
use vstd::string::StringExecFns;

verus! {

/// Appends a character to a string: `String::push` of the standard library.
pub assume_specification[ String::push ](s: &mut String, c: char)
    ensures
        final(s)@ == old(s)@.push(c),
;

/// Whether `c` is a blank or a tab.
pub open spec fn is_blank(c: char) -> bool {
    c == ' ' || c == '\t'
}

/// The number of blanks and tabs in `s` from position `from` on, up to the
/// first other character.
pub open spec fn blanks(s: Seq<char>, from: int) -> nat
    decreases s.len() - from,
{
    if 0 <= from < s.len() && is_blank(s[from]) {
        1 + blanks(s, from + 1)
    } else {
        0
    }
}

/// The number of characters in `s` from position `from` on, up to the
/// first line feed.
pub open spec fn until_line_feed(s: Seq<char>, from: int) -> nat
    decreases s.len() - from,
{
    if 0 <= from < s.len() && s[from] != '\n' {
        1 + until_line_feed(s, from + 1)
    } else {
        0
    }
}

/// Whether a diagnostic call stands in `s` at position `k`: the text
/// `console.log`.
pub open spec fn call_at(s: Seq<char>, k: int) -> bool {
    &&& 0 <= k
    &&& k + 11 <= s.len()
    &&& s[k] == 'c'
    &&& s[k + 1] == 'o'
    &&& s[k + 2] == 'n'
    &&& s[k + 3] == 's'
    &&& s[k + 4] == 'o'
    &&& s[k + 5] == 'l'
    &&& s[k + 6] == 'e'
    &&& s[k + 7] == '.'
    &&& s[k + 8] == 'l'
    &&& s[k + 9] == 'o'
    &&& s[k + 10] == 'g'
}

/// Where the text of `line` starts: behind the line feed that precedes it.
/// The first line of a text has none and starts at once.
pub open spec fn line_start(line: Seq<char>) -> int {
    if line.len() > 0 && line[0] == '\n' {
        1
    } else {
        0
    }
}

/// Where the comment marker of `line` would stand: behind the blanks at the
/// start of the line.
pub open spec fn marker(line: Seq<char>) -> int {
    line_start(line) + blanks(line, line_start(line)) as int
}

/// Where the call of `line` would stand: behind the marker and the blanks
/// that follow it.
pub open spec fn call_start(line: Seq<char>) -> int {
    marker(line) + 2 + blanks(line, marker(line) + 2)
}

/// Whether `line` begins as a commented diagnostic call: blanks, `//`,
/// blanks and the call, behind the line feed that precedes the line if
/// there is one.
pub open spec fn is_commented_call(line: Seq<char>) -> bool {
    &&& marker(line) + 2 <= line.len()
    &&& line[marker(line)] == '/'
    &&& line[marker(line) + 1] == '/'
    &&& call_at(line, call_start(line))
}

/// The line without its comment marker, where it is a commented diagnostic
/// call; else the line itself.
pub open spec fn line_patched(line: Seq<char>) -> Seq<char> {
    if is_commented_call(line) {
        line.take(marker(line)) + line.skip(marker(line) + 2)
    } else {
        line
    }
}

/// How far the first line of a text that is not empty reaches: over its
/// first character, which is the line feed before the second line where
/// the first line is empty, and over what follows up to the next line
/// feed.
pub open spec fn first_line_len(s: Seq<char>) -> int {
    1 + until_line_feed(s, 1) as int
}

/// The text with every commented diagnostic call uncommented, line by
/// line, the first line as every other.
pub open spec fn uncommented(s: Seq<char>) -> Seq<char>
    decreases s.len(),
{
    if s.len() == 0 {
        s
    } else {
        proof {
            lemma_until_line_feed_bound(s, 1);
        }
        line_patched(s.take(first_line_len(s))) + uncommented(s.skip(first_line_len(s)))
    }
}

/// A line of a text never runs beyond the text.
pub proof fn lemma_until_line_feed_bound(s: Seq<char>, from: int)
    requires
        0 <= from <= s.len(),
    ensures
        from + until_line_feed(s, from) <= s.len(),
        from + until_line_feed(s, from) < s.len() ==> s[from + until_line_feed(s, from)] == '\n',
        forall|p: int| from <= p < from + until_line_feed(s, from) ==> s[p] != '\n',
    decreases s.len() - from,
{
    if from < s.len() && s[from] != '\n' {
        lemma_until_line_feed_bound(s, from + 1);
    }
}

/// Where the characters from `from` up to `to` are no line feeds and a line
/// feed or the end of the text follows, the line ends at `to`.
pub proof fn lemma_until_line_feed_is(s: Seq<char>, from: int, to: int)
    requires
        0 <= from <= to <= s.len(),
        forall|p: int| from <= p < to ==> s[p] != '\n',
        to < s.len() ==> s[to] == '\n',
    ensures
        until_line_feed(s, from) == to - from,
    decreases to - from,
{
    if from < to {
        lemma_until_line_feed_is(s, from + 1, to);
    }
}

/// Where the characters from `from` up to `to` are blanks and another
/// character or the end of the text follows, the blanks end at `to`.
pub proof fn lemma_blanks_is(s: Seq<char>, from: int, to: int)
    requires
        0 <= from <= to <= s.len(),
        forall|p: int| from <= p < to ==> is_blank(s[p]),
        to < s.len() ==> !is_blank(s[to]),
    ensures
        blanks(s, from) == to - from,
    decreases to - from,
{
    if from < to {
        lemma_blanks_is(s, from + 1, to);
    }
}

/// Blanks never run beyond the text, and what follows them is no blank.
pub proof fn lemma_blanks_bound(s: Seq<char>, from: int)
    requires
        0 <= from <= s.len(),
    ensures
        from + blanks(s, from) <= s.len(),
        from + blanks(s, from) < s.len() ==> !is_blank(s[from + blanks(s, from)]),
        forall|p: int| from <= p < from + blanks(s, from) ==> is_blank(s[p]),
    decreases s.len() - from,
{
    if from < s.len() && is_blank(s[from]) {
        lemma_blanks_bound(s, from + 1);
    }
}

/// The characters of a text.
pub fn chars_of(text: &str) -> (r: Vec<char>)
    ensures
        r@ == text@,
{
    let mut out: Vec<char> = Vec::new();
    for c in it: text.chars()
        invariant
            it.seq() == text@,
            out@ == text@.take(it.index() as int),
    {
        out.push(c);
        assert(out@ =~= text@.take(it.index() + 1));
    }
    assert(text@.take(text@.len() as int) =~= text@);
    out
}

/// The text that the characters spell.
pub fn text_of(chars: &Vec<char>) -> (r: String)
    ensures
        r@ == chars@,
{
    let mut out = String::new();
    let mut i: usize = 0;
    while i < chars.len()
        invariant
            i <= chars.len(),
            out@ == chars@.take(i as int),
        decreases chars.len() - i,
    {
        out.push(chars[i]);
        i += 1;
        assert(out@ =~= chars@.take(i as int));
    }
    assert(chars@.take(chars.len() as int) =~= chars@);
    out
}

/// The position behind the blanks that start at `from`.
fn skip_blanks(line: &Vec<char>, from: usize) -> (to: usize)
    requires
        from <= line.len(),
    ensures
        to == from + blanks(line@, from as int),
        to <= line.len(),
{
    let mut to = from;
    while to < line.len() && (line[to] == ' ' || line[to] == '\t')
        invariant
            from <= to <= line.len(),
            forall|p: int| from <= p < to ==> is_blank(line@[p]),
        decreases line.len() - to,
    {
        to += 1;
    }
    proof {
        lemma_blanks_is(line@, from as int, to as int);
    }
    to
}

/// Whether a diagnostic call stands in `line` at position `k`.
fn has_call_at(line: &Vec<char>, k: usize) -> (r: bool)
    ensures
        r == call_at(line@, k as int),
{
    if line.len() < 11 || k > line.len() - 11 {
        return false;
    }
    line[k] == 'c' && line[k + 1] == 'o' && line[k + 2] == 'n' && line[k + 3] == 's' && line[k + 4]
        == 'o' && line[k + 5] == 'l' && line[k + 6] == 'e' && line[k + 7] == '.' && line[k + 8]
        == 'l' && line[k + 9] == 'o' && line[k + 10] == 'g'
}

/// Where the comment marker of `line` stands, if the line is a commented
/// diagnostic call.
fn find_marker(line: &Vec<char>) -> (r: Option<usize>)
    ensures
        r is Some <==> is_commented_call(line@),
        r matches Some(m) ==> m == marker(line@) && m + 2 <= line.len(),
{
    let start: usize = if line.len() > 0 && line[0] == '\n' {
        1
    } else {
        0
    };
    let m = skip_blanks(line, start);
    if line.len() - m < 2 || line[m] != '/' || line[m + 1] != '/' {
        return None;
    }
    let k = skip_blanks(line, m + 2);
    if has_call_at(line, k) {
        Some(m)
    } else {
        None
    }
}

/// Appends the patched form of `line` to `out`.
fn push_line_patched(out: &mut Vec<char>, line: &Vec<char>)
    ensures
        final(out)@ == old(out)@ + line_patched(line@),
{
    let skip = find_marker(line);
    let ghost before = out@;
    let mut i: usize = 0;
    while i < line.len()
        invariant
            i <= line.len(),
            skip matches Some(m) ==> m + 2 <= line.len(),
            out@ == before + (match skip {
                Some(m) => if i <= m {
                    line@.take(i as int)
                } else if i <= m + 2 {
                    line@.take(m as int)
                } else {
                    line@.take(m as int) + line@.subrange(m + 2, i as int)
                },
                None => line@.take(i as int),
            }),
        decreases line.len() - i,
    {
        let keep = match skip {
            Some(m) => i < m || i >= m + 2,
            None => true,
        };
        if keep {
            out.push(line[i]);
        }
        i += 1;
        proof {
            match skip {
                Some(m) => {
                    if i <= m {
                        assert(out@ =~= before + line@.take(i as int));
                    } else if i <= m + 2 {
                        assert(out@ =~= before + line@.take(m as int));
                    } else {
                        assert(line@.subrange(m + 2, i as int) =~= line@.subrange(m + 2, i - 1).push(
                            line@[i - 1],
                        ));
                        if i - 1 == m + 2 {
                            assert(line@.subrange(m + 2, i - 1) =~= Seq::<char>::empty());
                        }
                        assert(out@ =~= before + (line@.take(m as int) + line@.subrange(
                            m + 2,
                            i as int,
                        )));
                    }
                },
                None => {
                    assert(out@ =~= before + line@.take(i as int));
                },
            }
        }
    }
    proof {
        match skip {
            Some(m) => {
                assert(line@.subrange(m + 2, line@.len() as int) =~= line@.skip(m + 2));
                if line.len() == m + 2 {
                    assert(line@.skip(m + 2) =~= Seq::<char>::empty());
                    assert(line@.take(m as int) + line@.skip(m + 2) =~= line@.take(m as int));
                }
            },
            None => {
                assert(line@.take(line@.len() as int) =~= line@);
            },
        }
    }
}

/// The characters of a text with every commented diagnostic call
/// uncommented.
pub fn uncomment(chars: &Vec<char>) -> (r: Vec<char>)
    ensures
        r@ == uncommented(chars@),
{
    let mut out: Vec<char> = Vec::new();
    let mut i: usize = 0;
    assert(chars@.skip(0) =~= chars@);
    while i < chars.len()
        invariant
            i <= chars.len(),
            out@ + uncommented(chars@.skip(i as int)) == uncommented(chars@),
        decreases chars.len() - i,
    {
        let ghost rest = chars@.skip(i as int);
        let mut line: Vec<char> = Vec::new();
        line.push(chars[i]);
        let mut j: usize = i + 1;
        while j < chars.len() && chars[j] != '\n'
            invariant
                i < j <= chars.len(),
                line@ == chars@.subrange(i as int, j as int),
                forall|p: int| i < p < j ==> chars@[p] != '\n',
            decreases chars.len() - j,
        {
            line.push(chars[j]);
            j += 1;
            assert(line@ =~= chars@.subrange(i as int, j as int));
        }
        proof {
            lemma_until_line_feed_is(rest, 1, j - i);
            assert(first_line_len(rest) == j - i);
            assert(line@ =~= rest.take(j - i));
            assert(rest.skip(j - i) =~= chars@.skip(j as int));
        }
        let ghost before = out@;
        push_line_patched(&mut out, &line);
        proof {
            assert(out@ + uncommented(chars@.skip(j as int)) =~= before + uncommented(rest));
        }
        i = j;
    }
    assert(out@ + uncommented(chars@.skip(i as int)) =~= out@);
    out
}

/// Uncomments the commented diagnostic calls of one source unit.
pub fn patch_source_unit(source_unit: &str) -> (r: String)
    ensures
        r@ == uncommented(source_unit@),
{
    let chars = chars_of(source_unit);
    let patched = uncomment(&chars);
    text_of(&patched)
}

/// One named source unit.
#[derive(Debug, PartialEq, Eq)]
pub struct SourceCodeEntry {
    /// The path by which other units import this one.
    pub path: String,
    /// The unit's text.
    pub content: String,
}

/// The shapes in which a contract's source comes.
#[derive(Debug, PartialEq, Eq)]
pub enum SourceCodeMetadata {
    /// One flat text.
    SourceCode(String),
    /// Named units together with compiler metadata.
    Metadata { sources: Vec<SourceCodeEntry> },
    /// Named units alone.
    Sources(Vec<SourceCodeEntry>),
}

/// Named units as mathematical values: each path with its text.
pub type Units = Seq<(Seq<char>, Seq<char>)>;

/// The mathematical value of a [`SourceCodeMetadata`].
pub ghost enum SourceCodeView {
    SourceCode(Seq<char>),
    Metadata { sources: Units },
    Sources(Units),
}

/// The views of named units, one for one.
pub open spec fn units_view(units: Seq<SourceCodeEntry>) -> Units {
    Seq::new(units.len(), |i: int| (units[i].path@, units[i].content@))
}

impl View for SourceCodeMetadata {
    type V = SourceCodeView;

    open spec fn view(&self) -> SourceCodeView {
        match *self {
            SourceCodeMetadata::SourceCode(text) => SourceCodeView::SourceCode(text@),
            SourceCodeMetadata::Metadata { sources } => SourceCodeView::Metadata {
                sources: units_view(sources@),
            },
            SourceCodeMetadata::Sources(sources) => SourceCodeView::Sources(units_view(sources@)),
        }
    }
}

/// The path under which the diagnostics library is a unit.
pub open spec fn console_path() -> Seq<char> {
    "hardhat/console.sol"@
}

/// The directive by which a unit imports the diagnostics library.
pub open spec fn import_directive() -> Seq<char> {
    "import \"hardhat/console.sol\";\n\n"@
}

/// A flat source after patching: the library's text, then the source with
/// its diagnostic calls uncommented.
pub open spec fn flat_patched(source: Seq<char>, console: Seq<char>) -> Seq<char> {
    console + uncommented(source)
}

/// The text of a unit after patching: the import directive, then the text
/// with its diagnostic calls uncommented.
pub open spec fn unit_patched(content: Seq<char>) -> Seq<char> {
    import_directive() + uncommented(content)
}

/// Whether one of the units has this path.
pub open spec fn has_path(units: Units, path: Seq<char>) -> bool {
    exists|i: int| 0 <= i < units.len() && (#[trigger] units[i]).0 == path
}

/// The units with the diagnostics library among them: as the text of the
/// unit that has the library's path, else as a new unit at the end.
pub open spec fn with_console(units: Units, console: Seq<char>) -> Units {
    if has_path(units, console_path()) {
        Seq::new(
            units.len(),
            |i: int|
                if units[i].0 == console_path() {
                    (console_path(), console)
                } else {
                    units[i]
                },
        )
    } else {
        units.push((console_path(), console))
    }
}

/// The units with each text patched, one for one.
pub open spec fn each_unit_patched(units: Units) -> Units {
    Seq::new(units.len(), |i: int| (units[i].0, unit_patched(units[i].1)))
}

/// Named units after patching: each text patched, and the library among
/// the units.
pub open spec fn units_patched(units: Units, console: Seq<char>) -> Units {
    with_console(each_unit_patched(units), console)
}

/// A source after patching. Its shape stays; units without metadata are
/// not patched at all.
pub open spec fn metadata_patched(source: SourceCodeView, console: Seq<char>) -> SourceCodeView {
    match source {
        SourceCodeView::SourceCode(text) => SourceCodeView::SourceCode(flat_patched(text, console)),
        SourceCodeView::Metadata { sources } => SourceCodeView::Metadata {
            sources: units_patched(sources, console),
        },
        SourceCodeView::Sources(sources) => SourceCodeView::Sources(sources),
    }
}

/// The views of units with one more unit are the views with one more view.
proof fn lemma_units_view_push(units: Seq<SourceCodeEntry>, unit: SourceCodeEntry)
    ensures
        units_view(units.push(unit)) == units_view(units).push((unit.path@, unit.content@)),
{
    assert(units_view(units.push(unit)) =~= units_view(units).push((unit.path@, unit.content@)));
}

/// Puts the text of the diagnostics library in front of a flat source.
pub fn add_console_to_source(source_code: &mut String, console: &str)
    ensures
        final(source_code)@ == console@ + old(source_code)@,
{
    let mut text = String::from_str(console);
    text.append(source_code.as_str());
    *source_code = text;
}

/// Puts the diagnostics library among named units, under its path.
pub fn add_console_to_sources(sources: &mut Vec<SourceCodeEntry>, console: &str)
    ensures
        units_view(final(sources)@) == with_console(units_view(old(sources)@), console@),
{
    let ghost before = units_view(sources@);
    let path = String::from_str("hardhat/console.sol");
    let mut found = false;
    let mut i: usize = 0;
    while i < sources.len()
        invariant
            i <= sources.len(),
            sources@.len() == before.len(),
            path@ == console_path(),
            found <==> exists|j: int| 0 <= j < i && (#[trigger] before[j]).0 == console_path(),
            forall|j: int|
                0 <= j < i ==> (#[trigger] units_view(sources@)[j]) == (if before[j].0
                    == console_path() {
                    (console_path(), console@)
                } else {
                    before[j]
                }),
            forall|j: int| i <= j < before.len() ==> (#[trigger] units_view(sources@)[j]) == before[j],
        decreases sources.len() - i,
    {
        assert(units_view(sources@)[i as int] == before[i as int]);
        if sources[i].path == path {
            assert(before[i as int].0 == console_path());
            let ghost prev = units_view(sources@);
            sources[i] = SourceCodeEntry {
                path: String::from_str("hardhat/console.sol"),
                content: String::from_str(console),
            };
            assert(forall|j: int|
                0 <= j < before.len() && j != i ==> (#[trigger] units_view(sources@)[j]) == prev[j]);
            found = true;
        } else {
            assert(before[i as int].0 != console_path());
        }
        i += 1;
    }
    if !found {
        assert(!has_path(before, console_path()));
        assert(units_view(sources@) =~= before);
        let unit = SourceCodeEntry { path, content: String::from_str(console) };
        proof {
            lemma_units_view_push(sources@, unit);
        }
        sources.push(unit);
    } else {
        assert(has_path(before, console_path()));
        assert(units_view(sources@) =~= with_console(before, console@));
    }
}

/// A copy of named units.
fn copy_units(units: &Vec<SourceCodeEntry>) -> (r: Vec<SourceCodeEntry>)
    ensures
        units_view(r@) == units_view(units@),
{
    let mut out: Vec<SourceCodeEntry> = Vec::new();
    let mut i: usize = 0;
    while i < units.len()
        invariant
            i <= units.len(),
            units_view(out@) == units_view(units@).take(i as int),
        decreases units.len() - i,
    {
        let unit = SourceCodeEntry { path: units[i].path.clone(), content: units[i].content.clone() };
        proof {
            lemma_units_view_push(out@, unit);
        }
        out.push(unit);
        i += 1;
        assert(units_view(out@) =~= units_view(units@).take(i as int));
    }
    assert(units_view(units@).take(units.len() as int) =~= units_view(units@));
    out
}

/// Patches the source of a contract: uncomments its diagnostic calls and
/// makes the diagnostics library, whose text is `console`, available to it.
///
/// A flat source gets the library's text in front. Of named units with
/// metadata each gets the import directive in front, and the library
/// becomes one of the units. Named units without metadata come back as
/// they are.
pub fn patch_metadata_source(metadata: &SourceCodeMetadata, console: &str) -> (r: SourceCodeMetadata)
    ensures
        r@ == metadata_patched(metadata@, console@),
{
    match metadata {
        SourceCodeMetadata::SourceCode(text) => {
            let mut patched = patch_source_unit(text.as_str());
            add_console_to_source(&mut patched, console);
            SourceCodeMetadata::SourceCode(patched)
        },
        SourceCodeMetadata::Metadata { sources } => {
            let mut patched: Vec<SourceCodeEntry> = Vec::new();
            let mut i: usize = 0;
            while i < sources.len()
                invariant
                    i <= sources.len(),
                    units_view(patched@) == each_unit_patched(units_view(sources@)).take(i as int),
                decreases sources.len() - i,
            {
                let mut content = String::from_str("import \"hardhat/console.sol\";\n\n");
                let body = patch_source_unit(sources[i].content.as_str());
                content.append(body.as_str());
                let unit = SourceCodeEntry { path: sources[i].path.clone(), content };
                proof {
                    lemma_units_view_push(patched@, unit);
                }
                patched.push(unit);
                i += 1;
                assert(units_view(patched@) =~= each_unit_patched(units_view(sources@)).take(i as int));
            }
            assert(each_unit_patched(units_view(sources@)).take(sources.len() as int)
                =~= each_unit_patched(units_view(sources@)));
            add_console_to_sources(&mut patched, console);
            SourceCodeMetadata::Metadata { sources: patched }
        },
        SourceCodeMetadata::Sources(sources) => SourceCodeMetadata::Sources(copy_units(sources)),
    }
}

/// Whether `line` is one line of a text, taken with the line feed that
/// precedes it if there is one: it is not empty and holds no line feed
/// after its first character.
pub open spec fn is_line(line: Seq<char>) -> bool {
    &&& line.len() > 0
    &&& forall|p: int| 1 <= p < line.len() ==> line[p] != '\n'
}

/// Whether `rest` can follow a line: it is empty or starts with a line feed.
pub open spec fn starts_line(rest: Seq<char>) -> bool {
    rest.len() > 0 ==> rest[0] == '\n'
}

/// A patched line is a line that starts where the line started, and
/// patching it again changes nothing.
pub proof fn lemma_line_patched_once(line: Seq<char>)
    requires
        is_line(line),
    ensures
        is_line(line_patched(line)),
        line_start(line_patched(line)) == line_start(line),
        !is_commented_call(line_patched(line)),
        line_patched(line_patched(line)) == line_patched(line),
        is_commented_call(line) ==> line_patched(line).len() + 2 == line.len(),
{
    if is_commented_call(line) {
        let st = line_start(line);
        let m = marker(line);
        let out = line_patched(line);
        lemma_blanks_bound(line, st);
        lemma_blanks_bound(line, m + 2);
        let b = blanks(line, m + 2) as int;
        assert(out.len() == line.len() - 2);
        assert forall|p: int| 0 <= p < out.len() implies out[p] == (if p < m {
            line[p]
        } else {
            line[p + 2]
        }) by {}
        assert(out[m + b] == 'c');
        assert(line_start(out) == st);
        lemma_blanks_is(out, st, m + b);
        assert(marker(out) == m + b);
    }
}

/// The first line of a text is patched by itself: where `rest` can follow
/// `line`, uncommenting both together is patching the line and
/// uncommenting the rest.
pub proof fn lemma_uncommented_first_line(line: Seq<char>, rest: Seq<char>)
    requires
        is_line(line),
        starts_line(rest),
    ensures
        uncommented(line + rest) == line_patched(line) + uncommented(rest),
{
    let s = line + rest;
    lemma_until_line_feed_is(s, 1, line.len() as int);
    assert(first_line_len(s) == line.len());
    assert(s.take(line.len() as int) =~= line);
    assert(s.skip(line.len() as int) =~= rest);
}

/// A text that is not empty stays so when it is uncommented, and it starts
/// with a line feed exactly if it did before.
pub proof fn lemma_uncommented_head(s: Seq<char>)
    ensures
        s.len() == 0 ==> uncommented(s).len() == 0,
        s.len() > 0 ==> uncommented(s).len() > 0 && (uncommented(s)[0] == '\n' <==> s[0] == '\n'),
{
    if s.len() > 0 {
        lemma_until_line_feed_bound(s, 1);
        let line = s.take(first_line_len(s));
        lemma_line_patched_once(line);
    }
}

/// Uncommenting is idempotent: a text whose diagnostic calls have been
/// uncommented is not changed by uncommenting it again.
pub proof fn law_uncomment_idempotent(s: Seq<char>)
    ensures
        uncommented(uncommented(s)) == uncommented(s),
    decreases s.len(),
{
    if s.len() > 0 {
        lemma_until_line_feed_bound(s, 1);
        let n = first_line_len(s);
        let line = s.take(n);
        let rest = s.skip(n);
        lemma_line_patched_once(line);
        lemma_uncommented_head(rest);
        law_uncomment_idempotent(rest);
        lemma_uncommented_first_line(line_patched(line), uncommented(rest));
    }
}

/// The number of lines of a text that are commented diagnostic calls.
pub open spec fn commented_calls(s: Seq<char>) -> nat
    decreases s.len(),
{
    if s.len() == 0 {
        0
    } else {
        proof {
            lemma_until_line_feed_bound(s, 1);
        }
        (if is_commented_call(s.take(first_line_len(s))) {
            1nat
        } else {
            0nat
        }) + commented_calls(s.skip(first_line_len(s)))
    }
}

/// Uncommenting takes two characters, the comment marker, from every line
/// that is a commented diagnostic call, and none from any other line.
pub proof fn law_uncomment_drops_the_markers(s: Seq<char>)
    ensures
        uncommented(s).len() + 2 * commented_calls(s) == s.len(),
        commented_calls(s) == 0 ==> uncommented(s) == s,
    decreases s.len(),
{
    if s.len() > 0 {
        lemma_until_line_feed_bound(s, 1);
        let n = first_line_len(s);
        let line = s.take(n);
        let rest = s.skip(n);
        lemma_line_patched_once(line);
        law_uncomment_drops_the_markers(rest);
        if commented_calls(s) == 0 {
            assert(line + rest =~= s);
        }
    }
}

/// The number of line feeds in a text: one less than the number of its
/// lines.
pub open spec fn line_feeds(s: Seq<char>) -> nat {
    s.filter(|c: char| c == '\n').len()
}

/// Patching a line takes no line feed from it and adds none.
proof fn lemma_line_patched_keeps_line_feeds(line: Seq<char>)
    ensures
        line_feeds(line_patched(line)) == line_feeds(line),
{
    if is_commented_call(line) {
        let feed = |c: char| c == '\n';
        let m = marker(line);
        let head = line.take(m);
        let mark = line.subrange(m, m + 2);
        let tail = line.skip(m + 2);
        lemma_blanks_bound(line, line_start(line));
        assert(line =~= head + (mark + tail));
        Seq::filter_distributes_over_add(mark, tail, feed);
        Seq::filter_distributes_over_add(head, mark + tail, feed);
        Seq::filter_distributes_over_add(head, tail, feed);
        assert(forall|i: int| 0 <= i < mark.len() ==> !feed(#[trigger] mark[i]));
        mark.lemma_all_neg_filter_empty(feed);
    }
}

/// Uncommenting keeps the lines of a text apart as they were: it takes no
/// line feed away and adds none.
pub proof fn law_uncomment_keeps_the_lines(s: Seq<char>)
    ensures
        line_feeds(uncommented(s)) == line_feeds(s),
    decreases s.len(),
{
    if s.len() > 0 {
        let feed = |c: char| c == '\n';
        lemma_until_line_feed_bound(s, 1);
        let n = first_line_len(s);
        let line = s.take(n);
        let rest = s.skip(n);
        law_uncomment_keeps_the_lines(rest);
        lemma_line_patched_keeps_line_feeds(line);
        assert(s =~= line + rest);
        Seq::filter_distributes_over_add(line, rest, feed);
        Seq::filter_distributes_over_add(line_patched(line), uncommented(rest), feed);
    }
}

/// Uncommenting works line by line: where `tail` can follow a line,
/// uncommenting `head + tail` is uncommenting each by itself.
pub proof fn law_uncomment_splits(head: Seq<char>, tail: Seq<char>)
    requires
        starts_line(tail),
    ensures
        uncommented(head + tail) == uncommented(head) + uncommented(tail),
    decreases head.len(),
{
    if head.len() == 0 {
        assert(head + tail =~= tail);
        assert(uncommented(head) + uncommented(tail) =~= uncommented(tail));
    } else {
        lemma_until_line_feed_bound(head, 1);
        let n = first_line_len(head);
        let line = head.take(n);
        let rest = head.skip(n);
        law_uncomment_splits(rest, tail);
        assert(head + tail =~= line + (rest + tail));
        lemma_uncommented_first_line(line, rest + tail);
        assert(line_patched(line) + (uncommented(rest) + uncommented(tail)) =~= (line_patched(line)
            + uncommented(rest)) + uncommented(tail));
    }
}

/// A line that starts a text is a commented diagnostic call exactly if it
/// is one behind a line feed.
pub proof fn lemma_line_behind_line_feed(line: Seq<char>)
    requires
        line_start(line) == 0,
    ensures
        is_commented_call(seq!['\n'] + line) == is_commented_call(line),
        line_patched(seq!['\n'] + line) == seq!['\n'] + line_patched(line),
{
    let behind = seq!['\n'] + line;
    assert(forall|p: int| 0 <= p < line.len() ==> behind[p + 1] == line[p]);
    lemma_blanks_bound(line, 0);
    let m = marker(line);
    lemma_blanks_is(behind, 1, m + 1);
    assert(marker(behind) == m + 1);
    if m + 2 <= line.len() {
        lemma_blanks_bound(line, m + 2);
        let k = call_start(line);
        lemma_blanks_is(behind, m + 3, k + 1);
        assert(call_start(behind) == k + 1);
    }
    if is_commented_call(line) {
        assert(line_patched(behind) =~= seq!['\n'] + line_patched(line));
    }
}

/// A line feed in front of an uncommented text leaves nothing to uncomment.
pub proof fn lemma_line_feed_before_uncommented(s: Seq<char>)
    ensures
        uncommented(seq!['\n'] + uncommented(s)) == seq!['\n'] + uncommented(s),
{
    let feed = seq!['\n'];
    assert(is_line(feed));
    assert(!is_commented_call(feed));
    lemma_uncommented_first_line(feed, Seq::<char>::empty());
    assert(feed + Seq::<char>::empty() =~= feed);
    assert(uncommented(Seq::<char>::empty()) =~= Seq::<char>::empty());
    assert(uncommented(feed) =~= feed);
    law_uncomment_idempotent(s);
    lemma_uncommented_head(s);
    if s.len() == 0 {
        assert(feed + uncommented(s) =~= feed);
    } else if s[0] == '\n' {
        law_uncomment_splits(feed, uncommented(s));
    } else {
        lemma_until_line_feed_bound(s, 1);
        let n = first_line_len(s);
        let line = line_patched(s.take(n));
        let rest = uncommented(s.skip(n));
        lemma_line_patched_once(s.take(n));
        lemma_uncommented_head(s.skip(n));
        law_uncomment_idempotent(s.skip(n));
        lemma_line_behind_line_feed(line);
        assert(is_line(feed + line));
        lemma_uncommented_first_line(feed + line, rest);
        assert(feed + uncommented(s) =~= (feed + line) + rest);
    }
}

/// Whether a text is made of whole lines: it is empty or ends with a line
/// feed.
pub open spec fn ends_line(s: Seq<char>) -> bool {
    s.len() > 0 ==> s.last() == '\n'
}

/// Patching what has been patched changes nothing behind the prefix:
/// where the prefix is made of whole lines and holds nothing to uncomment,
/// uncommenting a prefixed, uncommented source gives it back.
pub proof fn law_repatch_changes_nothing(prefix: Seq<char>, source: Seq<char>)
    requires
        ends_line(prefix),
        uncommented(prefix) == prefix,
    ensures
        uncommented(prefix + uncommented(source)) == prefix + uncommented(source),
{
    let text = uncommented(source);
    if prefix.len() == 0 {
        assert(prefix + text =~= text);
        law_uncomment_idempotent(source);
    } else {
        let feed = seq!['\n'];
        let body = prefix.drop_last();
        assert(prefix =~= body + feed);
        assert(prefix + text =~= body + (feed + text));
        law_uncomment_splits(body, feed + text);
        law_uncomment_splits(body, feed);
        lemma_line_feed_before_uncommented(source);
        lemma_line_feed_before_uncommented(Seq::<char>::empty());
        assert(uncommented(Seq::<char>::empty()) =~= Seq::<char>::empty());
        assert(feed + uncommented(Seq::<char>::empty()) =~= feed);
        assert(uncommented(feed) == feed);
        law_uncomment_drops_the_markers(body);
        law_uncomment_drops_the_markers(prefix);
        assert(uncommented(body).len() == body.len());
        assert(uncommented(body) == body);
    }
}

/// Patching a flat source twice gives the once-patched source with the
/// library's text twice in front, where the library's text is made of whole
/// lines and holds nothing to uncomment.
pub proof fn law_flat_repatch(source: Seq<char>, console: Seq<char>)
    requires
        ends_line(console),
        uncommented(console) == console,
    ensures
        flat_patched(flat_patched(source, console), console) == console + flat_patched(
            source,
            console,
        ),
{
    law_repatch_changes_nothing(console, source);
}

/// The import directive holds nothing to uncomment and ends with a line
/// feed.
pub proof fn lemma_import_directive_is_plain()
    ensures
        ends_line(import_directive()),
        uncommented(import_directive()) == import_directive(),
{
    let import = import_directive();
    reveal_strlit("import \"hardhat/console.sol\";\n\n");
    let n = import.len() as int;
    let head = import.take(n - 2);
    let feed = seq!['\n'];
    assert(is_line(head));
    assert(is_line(feed));
    assert(import =~= head + (feed + feed));
    lemma_uncommented_first_line(head, feed + feed);
    lemma_uncommented_first_line(feed, feed);
    lemma_uncommented_first_line(feed, Seq::<char>::empty());
    assert(feed + Seq::<char>::empty() =~= feed);
    assert(uncommented(Seq::<char>::empty()) =~= Seq::<char>::empty());
    assert(!is_commented_call(feed));
    assert(marker(head) == 0);
    assert(!is_commented_call(head));
    assert(uncommented(feed) =~= feed);
    assert(uncommented(import) =~= import);
}

/// Patching a unit twice gives the once-patched unit with the import
/// directive twice in front, whatever the unit holds.
pub proof fn law_unit_repatch(content: Seq<char>)
    ensures
        unit_patched(unit_patched(content)) == import_directive() + unit_patched(content),
{
    lemma_import_directive_is_plain();
    law_repatch_changes_nothing(import_directive(), content);
}

} // verus!
